//! What can go wrong, and how it is reported.

use crate::text::{decimal, push_decimal};
use vstd::prelude::*;
use vstd::string::StringExecFns;

verus! {

/// A member of an upstream JSON document that the library reads.
#[derive(Clone, Copy, Debug, PartialEq, Eq, Structural)]
pub enum Field {
    Result,
    Error,
    Matches,
    StartTime,
    Heroes,
    Id,
    LocalizedName,
    GameMode,
    DireScore,
    RadiantScore,
    RadiantWin,
    MatchId,
    Players,
    AccountId,
    HeroId,
    Kills,
    Deaths,
    Assists,
    GoldPerMin,
    XpPerMin,
    LastHits,
    Denies,
    HeroDamage,
    TowerDamage,
    HeroHealing,
    Level,
    Gold,
    GoldSpent,
    TeamNumber,
    /// One of the numbered equipment slots.
    Item(u8),
    ItemNeutral,
}

impl Field {
    /// The key under which the upstream documents store this member.
    pub open spec fn key(self) -> Seq<char> {
        match self {
            Field::Result => "result"@,
            Field::Error => "error"@,
            Field::Matches => "matches"@,
            Field::StartTime => "start_time"@,
            Field::Heroes => "heroes"@,
            Field::Id => "id"@,
            Field::LocalizedName => "localized_name"@,
            Field::GameMode => "game_mode"@,
            Field::DireScore => "dire_score"@,
            Field::RadiantScore => "radiant_score"@,
            Field::RadiantWin => "radiant_win"@,
            Field::MatchId => "match_id"@,
            Field::Players => "players"@,
            Field::AccountId => "account_id"@,
            Field::HeroId => "hero_id"@,
            Field::Kills => "kills"@,
            Field::Deaths => "deaths"@,
            Field::Assists => "assists"@,
            Field::GoldPerMin => "gold_per_min"@,
            Field::XpPerMin => "xp_per_min"@,
            Field::LastHits => "last_hits"@,
            Field::Denies => "denies"@,
            Field::HeroDamage => "hero_damage"@,
            Field::TowerDamage => "tower_damage"@,
            Field::HeroHealing => "hero_healing"@,
            Field::Level => "level"@,
            Field::Gold => "gold"@,
            Field::GoldSpent => "gold_spent"@,
            Field::TeamNumber => "team_number"@,
            Field::Item(slot) => "item_"@ + decimal(slot as nat),
            Field::ItemNeutral => "item_neutral"@,
        }
    }

    /// The key under which the upstream documents store this member.
    pub fn name(&self) -> (name: String)
        ensures
            name@ == self.key(),
    {
        match *self {
            Field::Result => String::from_str("result"),
            Field::Error => String::from_str("error"),
            Field::Matches => String::from_str("matches"),
            Field::StartTime => String::from_str("start_time"),
            Field::Heroes => String::from_str("heroes"),
            Field::Id => String::from_str("id"),
            Field::LocalizedName => String::from_str("localized_name"),
            Field::GameMode => String::from_str("game_mode"),
            Field::DireScore => String::from_str("dire_score"),
            Field::RadiantScore => String::from_str("radiant_score"),
            Field::RadiantWin => String::from_str("radiant_win"),
            Field::MatchId => String::from_str("match_id"),
            Field::Players => String::from_str("players"),
            Field::AccountId => String::from_str("account_id"),
            Field::HeroId => String::from_str("hero_id"),
            Field::Kills => String::from_str("kills"),
            Field::Deaths => String::from_str("deaths"),
            Field::Assists => String::from_str("assists"),
            Field::GoldPerMin => String::from_str("gold_per_min"),
            Field::XpPerMin => String::from_str("xp_per_min"),
            Field::LastHits => String::from_str("last_hits"),
            Field::Denies => String::from_str("denies"),
            Field::HeroDamage => String::from_str("hero_damage"),
            Field::TowerDamage => String::from_str("tower_damage"),
            Field::HeroHealing => String::from_str("hero_healing"),
            Field::Level => String::from_str("level"),
            Field::Gold => String::from_str("gold"),
            Field::GoldSpent => String::from_str("gold_spent"),
            Field::TeamNumber => String::from_str("team_number"),
            Field::Item(slot) => {
                let mut name = String::from_str("item_");
                push_decimal(&mut name, slot as u64);
                name
            },
            Field::ItemNeutral => String::from_str("item_neutral"),
        }
    }
}

/// Why a call to the upstream API gave no usable answer.
#[derive(Clone, Copy, Debug, PartialEq, Eq, Structural)]
pub enum UpstreamFailure {
    /// The request could not be sent or the answer could not be read.
    Network,
    /// The upstream answered with a status other than success.
    Status { code: u16 },
    /// The answer is not a JSON document.
    Body,
    /// The answer lacks a member of its envelope, or holds it in another
    /// type than expected.
    Envelope { field: Field },
}

impl UpstreamFailure {
    /// Whether `code` is an HTTP status of success: one from 200 to 299.
    pub open spec fn is_success(code: u16) -> bool {
        200 <= code <= 299
    }

    /// The failure that an answer with the HTTP status `code` amounts to:
    /// none for a status of success.
    pub fn of_status(code: u16) -> (failure: Option<UpstreamFailure>)
        ensures
            failure == if UpstreamFailure::is_success(code) {
                None
            } else {
                Some(UpstreamFailure::Status { code })
            },
    {
        if 200 <= code && code <= 299 {
            None
        } else {
            Some(UpstreamFailure::Status { code })
        }
    }
}

/// The failures of the library.
#[derive(Clone, Copy, Debug, PartialEq, Eq, Structural)]
pub enum Error {
    /// The upstream API could not be reached or answered out of form.
    Upstream { failure: UpstreamFailure },
    /// The upstream API does not know the match.
    NotFound,
    /// No player of the match has the account id asked for.
    PlayerNotFound,
    /// The match was played in a mode the library does not know.
    InvalidGameMode { code: u64 },
    /// The player is on neither of the two sides.
    InvalidTeamNumber { number: u64 },
    /// A member of the match document is missing, has another type than
    /// expected or does not fit its range.
    MalformedMatchData { field: Field },
    /// The hero catalogue has no name for the hero.
    UnknownHero { hero_id: u32 },
    /// The account has no recorded match.
    NoMatchHistory,
}

impl Error {
    /// The description of the failure, as shown to people.  That of
    /// [`Error::PlayerNotFound`] does not print the match document: the
    /// failure does not carry it, and the library reads a document by its
    /// members, not as text.
    pub open spec fn message(self) -> Seq<char> {
        match self {
            Error::Upstream { failure: UpstreamFailure::Network } =>
                "Upstream request failed: no answer"@,
            Error::Upstream { failure: UpstreamFailure::Status { code } } =>
                "Upstream request failed: status "@ + decimal(code as nat),
            Error::Upstream { failure: UpstreamFailure::Body } =>
                "Upstream request failed: the answer is not JSON"@,
            Error::Upstream { failure: UpstreamFailure::Envelope { field } } =>
                "Upstream request failed: missing or mistyped field "@ + field.key(),
            Error::NotFound => "Match not found upstream"@,
            Error::PlayerNotFound => "Failed to parse PlayerPerformance from value"@,
            Error::InvalidGameMode { code } => "Unsupported game mode found: "@ + decimal(
                code as nat,
            ),
            Error::InvalidTeamNumber { number: _ } =>
                "Unexpected team number when parse player performance"@,
            Error::MalformedMatchData { field } => "Missing or mistyped field in match data: "@
                + field.key(),
            Error::UnknownHero { hero_id } => "Unknown hero id: "@ + decimal(hero_id as nat),
            Error::NoMatchHistory => "No match history found for the account"@,
        }
    }

    /// The description of the failure, as shown to people.
    pub fn describe(&self) -> (text: String)
        ensures
            text@ == self.message(),
    {
        match *self {
            Error::Upstream { failure: UpstreamFailure::Network } => String::from_str(
                "Upstream request failed: no answer",
            ),
            Error::Upstream { failure: UpstreamFailure::Status { code } } => {
                let mut text = String::from_str("Upstream request failed: status ");
                push_decimal(&mut text, code as u64);
                text
            },
            Error::Upstream { failure: UpstreamFailure::Body } => String::from_str(
                "Upstream request failed: the answer is not JSON",
            ),
            Error::Upstream { failure: UpstreamFailure::Envelope { field } } => {
                let mut text = String::from_str(
                    "Upstream request failed: missing or mistyped field ",
                );
                let name = field.name();
                text.append(name.as_str());
                text
            },
            Error::NotFound => String::from_str("Match not found upstream"),
            Error::PlayerNotFound => String::from_str(
                "Failed to parse PlayerPerformance from value",
            ),
            Error::InvalidGameMode { code } => {
                let mut text = String::from_str("Unsupported game mode found: ");
                push_decimal(&mut text, code);
                text
            },
            Error::InvalidTeamNumber { number: _ } => String::from_str(
                "Unexpected team number when parse player performance",
            ),
            Error::MalformedMatchData { field } => {
                let mut text = String::from_str("Missing or mistyped field in match data: ");
                let name = field.name();
                text.append(name.as_str());
                text
            },
            Error::UnknownHero { hero_id } => {
                let mut text = String::from_str("Unknown hero id: ");
                push_decimal(&mut text, hero_id as u64);
                text
            },
            Error::NoMatchHistory => String::from_str("No match history found for the account"),
        }
    }
}

/// A failure on its way to the caller of the service: every failure of the
/// library is answered with the same status and a body that carries its
/// description.
#[derive(Clone, Copy, Debug, PartialEq, Eq, Structural)]
pub struct AppError(pub Error);

impl AppError {
    /// The HTTP status of the answer: internal server error.
    pub fn status(&self) -> (code: u16)
        ensures
            code == 500,
    {
        500
    }

    /// The body of the answer.
    pub fn body(&self) -> (text: String)
        ensures
            text@ == "Something went wrong: "@ + self.0.message(),
    {
        let mut text = String::from_str("Something went wrong: ");
        let description = self.0.describe();
        text.append(description.as_str());
        text
    }
}

impl From<Error> for AppError {
    fn from(value: Error) -> (wrapped: AppError) {
        AppError(value)
    }
}

impl vstd::std_specs::convert::FromSpecImpl<Error> for AppError {
    open spec fn obeys_from_spec() -> bool {
        true
    }

    open spec fn from_spec(value: Error) -> AppError {
        AppError(value)
    }
}

} // verus!
