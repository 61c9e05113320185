//! One player's performance in one match, read out of the upstream match
//! document.

use crate::decode::{
    flag_at, label_at, list_at, number_at, read_flag, read_label, read_list, read_number,
};
use crate::error::{Error, Field};
use crate::json::{json_view, json_views, Json};
use crate::text::{decimal, decimal_string, lemma_decimal_is_injective, push_decimal};
use serde_json::Value;
use std::collections::HashMap;
use vstd::prelude::*;
use vstd::string::StringExecFns;

verus! {

/// The number of numbered equipment slots of a player.
pub const EQUIPPED_SLOTS: u8 = 6;

/// The number of entries of an item list: the numbered slots, then the
/// neutral item.
pub const ITEM_SLOTS: usize = 7;

/// The game modes the library knows.
#[derive(Clone, Copy, Debug, PartialEq, Eq, Structural)]
pub enum GameMode {
    AllPick,
    RandomDraft,
    RankedMatchmaking,
    TurboMode,
}

impl GameMode {
    /// The mode that the upstream API writes as `code`, if there is one.
    pub open spec fn of_code(code: int) -> Option<GameMode> {
        if code == 1 {
            Some(GameMode::AllPick)
        } else if code == 3 {
            Some(GameMode::RandomDraft)
        } else if code == 22 {
            Some(GameMode::RankedMatchmaking)
        } else if code == 23 {
            Some(GameMode::TurboMode)
        } else {
            None
        }
    }

    /// The number that the upstream API writes for this mode.
    pub open spec fn spec_code(self) -> u8 {
        match self {
            GameMode::AllPick => 1,
            GameMode::RandomDraft => 3,
            GameMode::RankedMatchmaking => 22,
            GameMode::TurboMode => 23,
        }
    }

    /// Decodes a game mode; any code but the four known ones is refused.
    pub fn from_u8(mode: u8) -> (decoded: Result<GameMode, Error>)
        ensures
            decoded == match GameMode::of_code(mode as int) {
                Some(known) => Ok::<GameMode, Error>(known),
                None => Err(Error::InvalidGameMode { code: mode as u64 }),
            },
    {
        match mode {
            1 => Ok(GameMode::AllPick),
            3 => Ok(GameMode::RandomDraft),
            22 => Ok(GameMode::RankedMatchmaking),
            23 => Ok(GameMode::TurboMode),
            _ => Err(Error::InvalidGameMode { code: mode as u64 }),
        }
    }

    /// The number that the upstream API writes for this mode.
    #[verifier::when_used_as_spec(spec_code)]
    pub fn code(self) -> (code: u8)
        ensures
            code == self.spec_code(),
    {
        match self {
            GameMode::AllPick => 1,
            GameMode::RandomDraft => 3,
            GameMode::RankedMatchmaking => 22,
            GameMode::TurboMode => 23,
        }
    }

    /// The name of the mode, as shown to people.
    pub open spec fn label(self) -> Seq<char> {
        match self {
            GameMode::AllPick => "AllPick"@,
            GameMode::RandomDraft => "RandomDraft"@,
            GameMode::RankedMatchmaking => "RankedMatchmaking"@,
            GameMode::TurboMode => "TurboMode"@,
        }
    }

    /// The name of the mode, as shown to people.
    pub fn name(&self) -> (name: &'static str)
        ensures
            name@ == self.label(),
    {
        match *self {
            GameMode::AllPick => "AllPick",
            GameMode::RandomDraft => "RandomDraft",
            GameMode::RankedMatchmaking => "RankedMatchmaking",
            GameMode::TurboMode => "TurboMode",
        }
    }

    /// Decoding the code of a mode gives the mode back.
    pub proof fn lemma_code_round_trip(mode: GameMode)
        ensures
            GameMode::of_code(mode.spec_code() as int) == Some(mode),
    {
    }

    /// A code is known exactly when it is the code of a mode.
    pub proof fn lemma_known_codes(code: int)
        ensures
            GameMode::of_code(code) is Some <==> (code == 1 || code == 3 || code == 22 || code
                == 23),
            GameMode::of_code(code) matches Some(mode) ==> mode.spec_code() == code,
    {
    }
}

/// The share of a side's kills in which a player had a hand, as an exact
/// fraction.
///
/// A side that scored no kill has no share to take part in: the rate is then
/// zero, written `0 / 1`, so the denominator of a computed rate is never zero.
#[derive(Clone, Copy, Debug, PartialEq, Eq, Structural)]
pub struct ParticipationRate {
    pub numerator: u16,
    pub denominator: u32,
}

impl ParticipationRate {
    /// The rate of a player with `kills` and `assists` on a side that scored
    /// `side_score` kills.
    pub open spec fn of(kills: u8, assists: u8, side_score: u32) -> ParticipationRate {
        if side_score == 0 {
            ParticipationRate { numerator: 0, denominator: 1 }
        } else {
            ParticipationRate { numerator: (kills + assists) as u16, denominator: side_score }
        }
    }

    /// A computed rate has a denominator, and it is at most one exactly
    /// when the player's kills and assists do not exceed the score of the
    /// side.
    pub proof fn lemma_rate_within_one(kills: u8, assists: u8, side_score: u32)
        ensures
            ParticipationRate::of(kills, assists, side_score).denominator > 0,
            ParticipationRate::of(kills, assists, side_score).numerator <= ParticipationRate::of(
                kills,
                assists,
                side_score,
            ).denominator <==> (side_score == 0 || kills + assists <= side_score),
    {
    }

    /// Computes the rate of a player with `kills` and `assists` on a side
    /// that scored `side_score` kills.
    pub fn new(kills: u8, assists: u8, side_score: u32) -> (rate: ParticipationRate)
        ensures
            rate == ParticipationRate::of(kills, assists, side_score),
            rate.denominator > 0,
            side_score > 0 ==> rate.numerator == kills + assists && rate.denominator == side_score,
            side_score == 0 ==> rate.numerator == 0 && rate.denominator == 1,
    {
        if side_score == 0 {
            ParticipationRate { numerator: 0, denominator: 1 }
        } else {
            ParticipationRate { numerator: kills as u16 + assists as u16, denominator: side_score }
        }
    }
}

/// Record of the important fields of one player in one match.
#[derive(Debug)]
pub struct PlayerPerformance {
    pub account_id: String,
    pub match_id: String,
    pub hero_id: u32,
    /// Items list, from left to right, top to bottom; the neutral item last.
    pub item_list: Vec<u32>,
    pub kills: u8,
    pub deaths: u8,
    pub assists: u8,
    pub participation_rate: ParticipationRate,
    pub last_hits: u32,
    pub denies: u32,
    pub gpm: u32,
    /// Unspent gold plus gold spent: all the gold earned in the match.
    pub gold: u32,
    pub xpm: u32,
    /// True if the player's side won the game.
    pub win: bool,
    /// True if the player was on the Radiant side.
    pub radiant: bool,
    pub game_mode: GameMode,
    pub hero_damage: u32,
    pub tower_damage: u32,
    pub hero_healing: u32,
    pub level: u8,
    pub dire_score: u32,
    pub radiant_score: u32,
}

/// The mathematical content of a [`PlayerPerformance`].
pub struct PerformanceView {
    pub account_id: Seq<char>,
    pub match_id: Seq<char>,
    pub hero_id: u32,
    pub item_list: Seq<u32>,
    pub kills: u8,
    pub deaths: u8,
    pub assists: u8,
    pub participation_rate: ParticipationRate,
    pub last_hits: u32,
    pub denies: u32,
    pub gpm: u32,
    pub gold: u32,
    pub xpm: u32,
    pub win: bool,
    pub radiant: bool,
    pub game_mode: GameMode,
    pub hero_damage: u32,
    pub tower_damage: u32,
    pub hero_healing: u32,
    pub level: u8,
    pub dire_score: u32,
    pub radiant_score: u32,
}

impl PerformanceView {
    /// The kills scored by the player's own side.
    pub open spec fn own_side_score(self) -> u32 {
        if self.radiant {
            self.radiant_score
        } else {
            self.dire_score
        }
    }

    /// What holds of every record read out of a match document: the item
    /// list has its seven entries, and the participation rate is the one of
    /// the player's kills and assists against the score of the player's side.
    pub open spec fn well_formed(self) -> bool {
        &&& self.item_list.len() == ITEM_SLOTS
        &&& self.participation_rate == ParticipationRate::of(
            self.kills,
            self.assists,
            self.own_side_score(),
        )
    }
}

impl View for PlayerPerformance {
    type V = PerformanceView;

    open spec fn view(&self) -> PerformanceView {
        PerformanceView {
            account_id: self.account_id@,
            match_id: self.match_id@,
            hero_id: self.hero_id,
            item_list: self.item_list@,
            kills: self.kills,
            deaths: self.deaths,
            assists: self.assists,
            participation_rate: self.participation_rate,
            last_hits: self.last_hits,
            denies: self.denies,
            gpm: self.gpm,
            gold: self.gold,
            xpm: self.xpm,
            win: self.win,
            radiant: self.radiant,
            game_mode: self.game_mode,
            hero_damage: self.hero_damage,
            tower_damage: self.tower_damage,
            hero_healing: self.hero_healing,
            level: self.level,
            dire_score: self.dire_score,
            radiant_score: self.radiant_score,
        }
    }
}

/// The failure that names a member of the match document.
pub open spec fn malformed(field: Field) -> Error {
    Error::MalformedMatchData { field }
}

/// What is wrong with the top-level members of a match document, read in
/// their order: the game mode first.
pub open spec fn header_fault(doc: Json) -> Option<Error> {
    if number_at(doc, Field::GameMode) is None {
        Some(malformed(Field::GameMode))
    } else if GameMode::of_code(number_at(doc, Field::GameMode)->0 as int) is None {
        Some(Error::InvalidGameMode { code: number_at(doc, Field::GameMode)->0 })
    } else if number_at(doc, Field::DireScore) is None {
        Some(malformed(Field::DireScore))
    } else if number_at(doc, Field::RadiantScore) is None {
        Some(malformed(Field::RadiantScore))
    } else if flag_at(doc, Field::RadiantWin) is None {
        Some(malformed(Field::RadiantWin))
    } else if label_at(doc, Field::MatchId) is None {
        Some(malformed(Field::MatchId))
    } else if list_at(doc, Field::Players) is None {
        Some(malformed(Field::Players))
    } else {
        None
    }
}

/// Whether a player entry belongs to the account `id`: its account id,
/// written in decimal, is `id`.
pub open spec fn belongs_to(entry: Json, id: Seq<char>) -> bool {
    number_at(entry, Field::AccountId) matches Some(n) && decimal(n as nat) == id
}

/// Comparing account ids in decimal notation compares the accounts: two
/// entries that belong to the same `id` carry the same account number.
pub proof fn lemma_same_account(first: Json, second: Json, id: Seq<char>)
    requires
        belongs_to(first, id),
        belongs_to(second, id),
    ensures
        number_at(first, Field::AccountId) == number_at(second, Field::AccountId),
{
    lemma_decimal_is_injective(
        number_at(first, Field::AccountId)->0 as nat,
        number_at(second, Field::AccountId)->0 as nat,
    );
}

/// The place of the first entry at or after `from` that belongs to the
/// account `id`.  The scan fails at an entry without a readable account id,
/// and at the end of the list.
pub open spec fn locate(players: Seq<Json>, id: Seq<char>, from: int) -> Result<int, Error>
    decreases players.len() - from,
{
    if from < 0 || from >= players.len() {
        Err(Error::PlayerNotFound)
    } else if number_at(players[from], Field::AccountId) is None {
        Err(malformed(Field::AccountId))
    } else if belongs_to(players[from], id) {
        Ok(from)
    } else {
        locate(players, id, from + 1)
    }
}

/// Whether every entry of a player list has a readable account id, and none
/// belongs to the account `id`.
pub open spec fn no_entry_of(players: Seq<Json>, id: Seq<char>) -> bool {
    forall|j: int|
        0 <= j < players.len() ==> number_at(#[trigger] players[j], Field::AccountId) is Some
            && !belongs_to(players[j], id)
}

/// What a scan from `from` on comes to.  It finds the first entry of the
/// account where every entry before that one has a readable account id; it
/// names the account id where an entry without a readable one comes
/// earlier; and it finds no player where every entry has a readable account
/// id and none belongs to the account.
pub proof fn lemma_locate(players: Seq<Json>, id: Seq<char>, from: int)
    requires
        0 <= from,
    ensures
        match locate(players, id, from) {
            Ok(place) => {
                &&& from <= place < players.len()
                &&& belongs_to(players[place], id)
                &&& forall|j: int|
                    from <= j < place ==> number_at(#[trigger] players[j], Field::AccountId)
                        is Some && !belongs_to(players[j], id)
            },
            Err(e) => {
                ||| {
                    &&& e == Error::PlayerNotFound
                    &&& forall|j: int|
                        from <= j < players.len() ==> number_at(
                            #[trigger] players[j],
                            Field::AccountId,
                        ) is Some && !belongs_to(players[j], id)
                }
                ||| {
                    &&& e == malformed(Field::AccountId)
                    &&& exists|k: int|
                        {
                            &&& from <= k < players.len()
                            &&& number_at(#[trigger] players[k], Field::AccountId) is None
                            &&& forall|j: int|
                                from <= j < k ==> number_at(
                                    #[trigger] players[j],
                                    Field::AccountId,
                                ) is Some && !belongs_to(players[j], id)
                        }
                }
            },
        },
    decreases players.len() - from,
{
    if from < players.len() && number_at(players[from], Field::AccountId) is Some && !belongs_to(
        players[from],
        id,
    ) {
        lemma_locate(players, id, from + 1);
    }
}

/// A match document that holds exactly one entry of the account yields that
/// entry's record, where its top-level members, the account ids of its
/// player list and the members of that entry can be read.  The record has
/// seven item slots, and sits on the Radiant side exactly when the entry
/// says team 0.
pub proof fn lemma_single_entry(doc: Json, id: Seq<char>, place: int)
    requires
        header_fault(doc) is None,
        0 <= place < list_at(doc, Field::Players)->0.len(),
        belongs_to(list_at(doc, Field::Players)->0[place], id),
        forall|j: int|
            0 <= j < list_at(doc, Field::Players)->0.len() && j != place ==> number_at(
                #[trigger] list_at(doc, Field::Players)->0[j],
                Field::AccountId,
            ) is Some && !belongs_to(list_at(doc, Field::Players)->0[j], id),
        entry_fault(list_at(doc, Field::Players)->0[place]) is None,
    ensures
        fault(doc, id) is None,
        entry_of(doc, id) == list_at(doc, Field::Players)->0[place],
        performance(doc, id).item_list.len() == 7,
        performance(doc, id).radiant <==> number_at(entry_of(doc, id), Field::TeamNumber) == Some(
            0u64,
        ),
        !performance(doc, id).radiant <==> number_at(entry_of(doc, id), Field::TeamNumber)
            == Some(1u64),
{
    lemma_locate(list_at(doc, Field::Players)->0, id, 0);
}

/// What is wrong with the numbered equipment slots of a player entry from
/// slot `from` on, and then with its neutral item.
pub open spec fn items_fault(entry: Json, from: int) -> Option<Error>
    decreases EQUIPPED_SLOTS - from,
{
    if from < 0 || from >= EQUIPPED_SLOTS {
        if number_at(entry, Field::ItemNeutral) is None {
            Some(malformed(Field::ItemNeutral))
        } else {
            None
        }
    } else if number_at(entry, Field::Item(from as u8)) is None {
        Some(malformed(Field::Item(from as u8)))
    } else {
        items_fault(entry, from + 1)
    }
}

/// The item list of a player entry: the numbered slots in their order, then
/// the neutral item.
pub open spec fn item_list_of(entry: Json) -> Seq<u32> {
    Seq::new(
        ITEM_SLOTS as nat,
        |slot: int|
            if slot < EQUIPPED_SLOTS {
                number_at(entry, Field::Item(slot as u8))->0 as u32
            } else {
                number_at(entry, Field::ItemNeutral)->0 as u32
            },
    )
}

/// What is wrong with the entry of the player, its members read in their
/// order.
pub open spec fn entry_fault(entry: Json) -> Option<Error> {
    if number_at(entry, Field::HeroId) is None {
        Some(malformed(Field::HeroId))
    } else if number_at(entry, Field::Kills) is None {
        Some(malformed(Field::Kills))
    } else if number_at(entry, Field::Deaths) is None {
        Some(malformed(Field::Deaths))
    } else if number_at(entry, Field::Assists) is None {
        Some(malformed(Field::Assists))
    } else if number_at(entry, Field::GoldPerMin) is None {
        Some(malformed(Field::GoldPerMin))
    } else if number_at(entry, Field::XpPerMin) is None {
        Some(malformed(Field::XpPerMin))
    } else if number_at(entry, Field::LastHits) is None {
        Some(malformed(Field::LastHits))
    } else if number_at(entry, Field::Denies) is None {
        Some(malformed(Field::Denies))
    } else if number_at(entry, Field::HeroDamage) is None {
        Some(malformed(Field::HeroDamage))
    } else if number_at(entry, Field::TowerDamage) is None {
        Some(malformed(Field::TowerDamage))
    } else if number_at(entry, Field::HeroHealing) is None {
        Some(malformed(Field::HeroHealing))
    } else if number_at(entry, Field::Level) is None {
        Some(malformed(Field::Level))
    } else if number_at(entry, Field::Gold) is None {
        Some(malformed(Field::Gold))
    } else if number_at(entry, Field::GoldSpent) is None {
        Some(malformed(Field::GoldSpent))
    } else if number_at(entry, Field::Gold)->0 + number_at(entry, Field::GoldSpent)->0
        > u32::MAX {
        Some(malformed(Field::GoldSpent))
    } else if number_at(entry, Field::TeamNumber) is None {
        Some(malformed(Field::TeamNumber))
    } else if number_at(entry, Field::TeamNumber)->0 > 1 {
        Some(Error::InvalidTeamNumber { number: number_at(entry, Field::TeamNumber)->0 })
    } else {
        items_fault(entry, 0)
    }
}

/// The first thing that keeps a match document from yielding the record of
/// the account `id`; `None` where the record can be read.
pub open spec fn fault(doc: Json, id: Seq<char>) -> Option<Error> {
    if header_fault(doc) is Some {
        header_fault(doc)
    } else {
        match locate(list_at(doc, Field::Players)->0, id, 0) {
            Err(e) => Some(e),
            Ok(place) => entry_fault(list_at(doc, Field::Players)->0[place]),
        }
    }
}

/// The entry of the account `id` in a match document.
pub open spec fn entry_of(doc: Json, id: Seq<char>) -> Json {
    list_at(doc, Field::Players)->0[locate(list_at(doc, Field::Players)->0, id, 0)->Ok_0]
}

/// The record that a match document without fault holds for the account
/// `id`.
pub open spec fn performance(doc: Json, id: Seq<char>) -> PerformanceView {
    let entry = entry_of(doc, id);
    let radiant = number_at(entry, Field::TeamNumber) == Some(0u64);
    let radiant_win = flag_at(doc, Field::RadiantWin)->0;
    let kills = number_at(entry, Field::Kills)->0 as u8;
    let assists = number_at(entry, Field::Assists)->0 as u8;
    let dire_score = number_at(doc, Field::DireScore)->0 as u32;
    let radiant_score = number_at(doc, Field::RadiantScore)->0 as u32;
    PerformanceView {
        account_id: id,
        match_id: label_at(doc, Field::MatchId)->0,
        hero_id: number_at(entry, Field::HeroId)->0 as u32,
        item_list: item_list_of(entry),
        kills,
        deaths: number_at(entry, Field::Deaths)->0 as u8,
        assists,
        participation_rate: ParticipationRate::of(
            kills,
            assists,
            if radiant {
                radiant_score
            } else {
                dire_score
            },
        ),
        last_hits: number_at(entry, Field::LastHits)->0 as u32,
        denies: number_at(entry, Field::Denies)->0 as u32,
        gpm: number_at(entry, Field::GoldPerMin)->0 as u32,
        gold: (number_at(entry, Field::Gold)->0 + number_at(entry, Field::GoldSpent)->0) as u32,
        xpm: number_at(entry, Field::XpPerMin)->0 as u32,
        win: radiant == radiant_win,
        radiant,
        game_mode: GameMode::of_code(number_at(doc, Field::GameMode)->0 as int)->0,
        hero_damage: number_at(entry, Field::HeroDamage)->0 as u32,
        tower_damage: number_at(entry, Field::TowerDamage)->0 as u32,
        hero_healing: number_at(entry, Field::HeroHealing)->0 as u32,
        level: number_at(entry, Field::Level)->0 as u8,
        dire_score,
        radiant_score,
    }
}

/// The top-level members of a match document.
struct Header<'a> {
    game_mode: GameMode,
    dire_score: u32,
    radiant_score: u32,
    radiant_win: bool,
    match_id: String,
    players: &'a Vec<Value>,
}

/// Reads the number stored for `field`, or names the member.
fn need_number(doc: &Value, field: Field) -> (number: Result<u64, Error>)
    ensures
        number == match number_at(json_view(*doc), field) {
            Some(n) => Ok::<u64, Error>(n),
            None => Err(malformed(field)),
        },
{
    match read_number(doc, field) {
        Some(n) => Ok(n),
        None => Err(Error::MalformedMatchData { field }),
    }
}

/// Reads the top-level members of a match document, the game mode first.
fn read_header<'a>(doc: &'a Value) -> (header: Result<Header<'a>, Error>)
    ensures
        match header {
            Ok(h) => {
                &&& header_fault(json_view(*doc)) is None
                &&& Some(h.game_mode) == GameMode::of_code(
                    number_at(json_view(*doc), Field::GameMode)->0 as int,
                )
                &&& h.dire_score == number_at(json_view(*doc), Field::DireScore)->0
                &&& h.radiant_score == number_at(json_view(*doc), Field::RadiantScore)->0
                &&& h.radiant_win == flag_at(json_view(*doc), Field::RadiantWin)->0
                &&& h.match_id@ == label_at(json_view(*doc), Field::MatchId)->0
                &&& json_views(h.players@) == list_at(json_view(*doc), Field::Players)->0
            },
            Err(e) => header_fault(json_view(*doc)) == Some(e),
        },
{
    let code = need_number(doc, Field::GameMode)?;
    if code > 0xff {
        return Err(Error::InvalidGameMode { code });
    }
    let game_mode = GameMode::from_u8(code as u8)?;
    let dire_score = need_number(doc, Field::DireScore)? as u32;
    let radiant_score = need_number(doc, Field::RadiantScore)? as u32;
    let radiant_win = match read_flag(doc, Field::RadiantWin) {
        Some(flag) => flag,
        None => return Err(Error::MalformedMatchData { field: Field::RadiantWin }),
    };
    let match_id = match read_label(doc, Field::MatchId) {
        Some(label) => label,
        None => return Err(Error::MalformedMatchData { field: Field::MatchId }),
    };
    let players = match read_list(doc, Field::Players) {
        Some(list) => list,
        None => return Err(Error::MalformedMatchData { field: Field::Players }),
    };
    Ok(Header { game_mode, dire_score, radiant_score, radiant_win, match_id, players })
}

/// Scans the player list for the first entry of the account.
fn find_player(players: &Vec<Value>, account_id: &str) -> (place: Result<usize, Error>)
    ensures
        match place {
            Ok(i) => i < players.len() && locate(json_views(players@), account_id@, 0) == Ok::<
                int,
                Error,
            >(i as int),
            Err(e) => locate(json_views(players@), account_id@, 0) == Err::<int, Error>(e),
        },
{
    let wanted = account_id.to_owned();
    let mut i: usize = 0;
    while i < players.len()
        invariant
            i <= players.len(),
            wanted@ == account_id@,
            locate(json_views(players@), account_id@, 0) == locate(
                json_views(players@),
                account_id@,
                i as int,
            ),
        decreases players.len() - i,
    {
        let number = need_number(&players[i], Field::AccountId)?;
        let written = decimal_string(number);
        if written == wanted {
            return Ok(i);
        }
        i += 1;
    }
    Err(Error::PlayerNotFound)
}

/// Reads the item list of a player entry: the numbered slots in their
/// order, then the neutral item.
fn read_items(entry: &Value) -> (items: Result<Vec<u32>, Error>)
    ensures
        match items {
            Ok(list) => items_fault(json_view(*entry), 0) is None && list@ == item_list_of(
                json_view(*entry),
            ),
            Err(e) => items_fault(json_view(*entry), 0) == Some(e),
        },
{
    let mut items: Vec<u32> = Vec::with_capacity(ITEM_SLOTS);
    let mut slot: u8 = 0;
    while slot < EQUIPPED_SLOTS
        invariant
            slot <= EQUIPPED_SLOTS,
            items@.len() == slot,
            items_fault(json_view(*entry), 0) == items_fault(json_view(*entry), slot as int),
            forall|i: int|
                0 <= i < slot ==> #[trigger] items@[i] == number_at(
                    json_view(*entry),
                    Field::Item(i as u8),
                )->0,
        decreases EQUIPPED_SLOTS - slot,
    {
        let item = need_number(entry, Field::Item(slot))?;
        items.push(item as u32);
        slot += 1;
    }
    let neutral = need_number(entry, Field::ItemNeutral)?;
    items.push(neutral as u32);
    Ok(items)
}

impl PlayerPerformance {
    /// Reads the record of the account `account_id` out of a match document.
    ///
    /// The top-level members are read first, the game mode before the
    /// others; then the player list is scanned for the first entry whose
    /// account id, written in decimal, is `account_id`; then the members of
    /// that entry are read.  The first member that is missing, of another
    /// type than expected or out of its range ends the extraction with a
    /// failure that names it.
    pub fn from_value(value: Value, account_id: &str) -> (extracted: Result<Self, Error>)
        ensures
            match extracted {
                Ok(record) => fault(json_view(value), account_id@) is None && record@
                    == performance(json_view(value), account_id@),
                Err(e) => fault(json_view(value), account_id@) == Some(e),
            },
            extracted matches Ok(record) ==> {
                let entry = entry_of(json_view(value), account_id@);
                &&& record@.well_formed()
                &&& record.item_list@.len() == 7
                &&& record.radiant <==> number_at(entry, Field::TeamNumber) == Some(0u64)
                &&& !record.radiant <==> number_at(entry, Field::TeamNumber) == Some(1u64)
                &&& record.win == (record.radiant == flag_at(
                    json_view(value),
                    Field::RadiantWin,
                )->0)
                &&& record.gold == number_at(entry, Field::Gold)->0 + number_at(
                    entry,
                    Field::GoldSpent,
                )->0
                &&& record.participation_rate == ParticipationRate::of(
                    record.kills,
                    record.assists,
                    if record.radiant {
                        record.radiant_score
                    } else {
                        record.dire_score
                    },
                )
            },
            number_at(json_view(value), Field::GameMode) matches Some(code) ==> (GameMode::of_code(
                code as int,
            ) is None ==> extracted == Err::<Self, Error>(Error::InvalidGameMode { code })),
            header_fault(json_view(value)) is None && no_entry_of(
                list_at(json_view(value), Field::Players)->0,
                account_id@,
            ) ==> extracted == Err::<Self, Error>(Error::PlayerNotFound),
    {
        proof {
            lemma_locate(list_at(json_view(value), Field::Players)->0, account_id@, 0);
        }
        let header = read_header(&value)?;
        let place = find_player(header.players, account_id)?;
        let entry = &header.players[place];
        let hero_id = need_number(entry, Field::HeroId)? as u32;
        let kills = need_number(entry, Field::Kills)? as u8;
        let deaths = need_number(entry, Field::Deaths)? as u8;
        let assists = need_number(entry, Field::Assists)? as u8;
        let gpm = need_number(entry, Field::GoldPerMin)? as u32;
        let xpm = need_number(entry, Field::XpPerMin)? as u32;
        let last_hits = need_number(entry, Field::LastHits)? as u32;
        let denies = need_number(entry, Field::Denies)? as u32;
        let hero_damage = need_number(entry, Field::HeroDamage)? as u32;
        let tower_damage = need_number(entry, Field::TowerDamage)? as u32;
        let hero_healing = need_number(entry, Field::HeroHealing)? as u32;
        let level = need_number(entry, Field::Level)? as u8;
        let unspent = need_number(entry, Field::Gold)?;
        let spent = need_number(entry, Field::GoldSpent)?;
        if unspent + spent > 0xffff_ffff {
            return Err(Error::MalformedMatchData { field: Field::GoldSpent });
        }
        let gold = (unspent + spent) as u32;
        let team_number = need_number(entry, Field::TeamNumber)?;
        if team_number > 1 {
            return Err(Error::InvalidTeamNumber { number: team_number });
        }
        let radiant = team_number == 0;
        let win = radiant == header.radiant_win;
        let side_score = if radiant {
            header.radiant_score
        } else {
            header.dire_score
        };
        let participation_rate = ParticipationRate::new(kills, assists, side_score);
        let item_list = read_items(entry)?;
        Ok(
            PlayerPerformance {
                account_id: account_id.to_owned(),
                match_id: header.match_id,
                hero_id,
                item_list,
                kills,
                deaths,
                assists,
                participation_rate,
                last_hits,
                denies,
                gpm,
                gold,
                xpm,
                win,
                radiant,
                game_mode: header.game_mode,
                hero_damage,
                tower_damage,
                hero_healing,
                level,
                dire_score: header.dire_score,
                radiant_score: header.radiant_score,
            },
        )
    }
}

/// The summary of a record for people: a greeting, the game mode, the hero
/// by name, the outcome, and the figures of the player.  `rate_text` is the
/// participation rate as the caller writes it; it stands in the summary as
/// it is given.
pub open spec fn summary(record: PerformanceView, hero_name: Seq<char>, rate_text: Seq<char>)
    -> Seq<char> {
    "欢迎使用看光光功能，下面是本次查询结果:\n比赛模式："@
        + record.game_mode.label()
        + "\n使用英雄："@
        + hero_name
        + outcome_line(record.win)
        + decimal(record.kills as nat)
        + "/"@
        + decimal(record.deaths as nat)
        + "/"@
        + decimal(record.assists as nat)
        + ", 参战率: "@
        + rate_text
        + ", gpm："@
        + decimal(record.gpm as nat)
        + ", xpm: "@
        + decimal(record.xpm as nat)
        + ", 等级："@
        + decimal(record.level as nat)
        + ", 总经济："@
        + decimal(record.gold as nat)
        + "\n英雄伤害："@
        + decimal(record.hero_damage as nat)
        + ", 建筑伤害："@
        + decimal(record.tower_damage as nat)
        + ", 治疗："@
        + decimal(record.hero_healing as nat)
}

/// The line of a summary that tells the outcome, with the opening of the
/// line of figures that follows it.
pub open spec fn outcome_line(win: bool) -> Seq<char> {
    if win {
        "\n比赛结果: 胜利，可惜了\n本场表现: "@
    } else {
        "\n比赛结果：失败！好好好\n本场表现: "@
    }
}

impl PlayerPerformance {
    /// Renders the record for people, with the hero's name taken from `map`
    /// and the participation rate written as `rate_text`: the rate is a
    /// fraction here, and how its quotient is written is the caller's.  A
    /// hero that `map` does not know is refused: no name is made up.
    pub fn to_wechat_string(
        &self,
        map: &HashMap<u32, String>,
        rate_text: &str,
    ) -> (rendered: Result<String, Error>)
        ensures
            match rendered {
                Ok(text) => map@.contains_key(self.hero_id) && text@ == summary(
                    self@,
                    map@[self.hero_id]@,
                    rate_text@,
                ),
                Err(e) => !map@.contains_key(self.hero_id) && e == (Error::UnknownHero {
                    hero_id: self.hero_id,
                }),
            },
    {
        let hero_name = match map.get(&self.hero_id) {
            Some(name) => name,
            None => return Err(Error::UnknownHero { hero_id: self.hero_id }),
        };
        let mut text = String::from_str("欢迎使用看光光功能，下面是本次查询结果:\n比赛模式：");
        text.append(self.game_mode.name());
        text.append("\n使用英雄：");
        text.append(hero_name.as_str());
        if self.win {
            text.append("\n比赛结果: 胜利，可惜了\n本场表现: ");
        } else {
            text.append("\n比赛结果：失败！好好好\n本场表现: ");
        }
        push_decimal(&mut text, self.kills as u64);
        text.append("/");
        push_decimal(&mut text, self.deaths as u64);
        text.append("/");
        push_decimal(&mut text, self.assists as u64);
        text.append(", 参战率: ");
        text.append(rate_text);
        text.append(", gpm：");
        push_decimal(&mut text, self.gpm as u64);
        text.append(", xpm: ");
        push_decimal(&mut text, self.xpm as u64);
        text.append(", 等级：");
        push_decimal(&mut text, self.level as u64);
        text.append(", 总经济：");
        push_decimal(&mut text, self.gold as u64);
        text.append("\n英雄伤害：");
        push_decimal(&mut text, self.hero_damage as u64);
        text.append(", 建筑伤害：");
        push_decimal(&mut text, self.tower_damage as u64);
        text.append(", 治疗：");
        push_decimal(&mut text, self.hero_healing as u64);
        Ok(text)
    }
}

impl Clone for PlayerPerformance {
    fn clone(&self) -> (copy: Self)
        ensures
            copy@ == self@,
    {
        let item_list = self.item_list.clone();
        PlayerPerformance {
            account_id: self.account_id.clone(),
            match_id: self.match_id.clone(),
            hero_id: self.hero_id,
            item_list,
            kills: self.kills,
            deaths: self.deaths,
            assists: self.assists,
            participation_rate: self.participation_rate,
            last_hits: self.last_hits,
            denies: self.denies,
            gpm: self.gpm,
            gold: self.gold,
            xpm: self.xpm,
            win: self.win,
            radiant: self.radiant,
            game_mode: self.game_mode,
            hero_damage: self.hero_damage,
            tower_damage: self.tower_damage,
            hero_healing: self.hero_healing,
            level: self.level,
            dire_score: self.dire_score,
            radiant_score: self.radiant_score,
        }
    }
}

} // verus!
