//! The three calls to the upstream statistics API: the requests to send, and
//! what their answers hold.
//!
//! Sending a request is left to the caller.  A [`Courier`] describes each
//! request as a [`Request`] and takes the parsed JSON answer back.

use crate::config::Config;
use crate::decode::{
    label_at, list_at, member_at, number_at, read_label, read_list, read_member, read_number,
    read_text, text_at,
};
use crate::error::{Error, Field, UpstreamFailure};
use crate::json::{json_view, json_views, Json};
use crate::lookup::{lemma_place_is_index, position, texts};
use crate::text::{decimal, decimal_string};
use serde_json::Value;
use std::collections::HashMap;
use vstd::prelude::*;
use vstd::string::StringExecFns;

pub use crate::performance::{GameMode, PlayerPerformance};

verus! {

/// More info: https://wiki.teamfortress.com/wiki/WebAPI/GetMatchHistory
pub const MATCH_HISTORY: &'static str =
    "http://api.steampowered.com/IDOTA2Match_570/GetMatchHistory/v1";

/// More info: https://wiki.teamfortress.com/wiki/WebAPI/GetMatchDetails
pub const MATCH_DETAILS: &'static str =
    "http://api.steampowered.com/IDOTA2Match_570/GetMatchDetails/v1";

pub const ALL_HEROES: &'static str = "http://api.steampowered.com/IEconDOTA2_570/GetHeroes/v1";

/// A GET request: the address, and the query parameters in their order.
#[derive(Debug)]
pub struct Request {
    pub url: String,
    pub query: Vec<(String, String)>,
}

/// The mathematical content of a [`Request`].
pub struct RequestView {
    pub url: Seq<char>,
    pub query: Seq<(Seq<char>, Seq<char>)>,
}

impl View for Request {
    type V = RequestView;

    open spec fn view(&self) -> RequestView {
        RequestView {
            url: self.url@,
            query: self.query@.map_values(|pair: (String, String)| (pair.0@, pair.1@)),
        }
    }
}

/// The request for the details of the match `match_id`, sent with the API
/// key `key`.
pub open spec fn detail_request(key: Seq<char>, match_id: Seq<char>) -> RequestView {
    RequestView { url: MATCH_DETAILS@, query: seq![("key"@, key), ("match_id"@, match_id)] }
}

/// The request for the `matches_requested` most recent matches of the
/// account `account_id`, sent with the API key `key`.
pub open spec fn history_request(key: Seq<char>, account_id: Seq<char>, matches_requested: u32)
    -> RequestView {
    RequestView {
        url: MATCH_HISTORY@,
        query: seq![
            ("key"@, key),
            ("account_id"@, account_id),
            ("matches_requested"@, decimal(matches_requested as nat)),
        ],
    }
}

/// The request for the hero catalogue with the names in Chinese, sent with
/// the API key `key`.
pub open spec fn heroes_request(key: Seq<char>) -> RequestView {
    RequestView { url: ALL_HEROES@, query: seq![("key"@, key), ("language"@, "zh"@)] }
}

/// The client of the upstream API.
#[derive(Debug)]
pub struct Courier {
    /// Steam API key
    pub key: String,
}

impl Courier {
    /// A client that sends its requests with the API key of `config`.
    pub fn new(config: &Config) -> (courier: Courier)
        ensures
            courier.key@ == config.api@,
    {
        Courier { key: config.api.clone() }
    }

    /// The request for the details of the match `match_id`.
    pub fn match_detail_request(&self, match_id: &str) -> (request: Request)
        ensures
            request@ == detail_request(self.key@, match_id@),
    {
        let mut query: Vec<(String, String)> = Vec::new();
        query.push((String::from_str("key"), self.key.clone()));
        query.push((String::from_str("match_id"), match_id.to_owned()));
        let request = Request { url: String::from_str(MATCH_DETAILS), query };
        assert(request@.query =~= seq![("key"@, self.key@), ("match_id"@, match_id@)]);
        request
    }

    /// The request for the `matches_requested` most recent matches of the
    /// account `account_id`.
    pub fn match_history_request(&self, account_id: &str, matches_requested: u32) -> (request:
        Request)
        ensures
            request@ == history_request(self.key@, account_id@, matches_requested),
    {
        let mut query: Vec<(String, String)> = Vec::new();
        query.push((String::from_str("key"), self.key.clone()));
        query.push((String::from_str("account_id"), account_id.to_owned()));
        query.push(
            (String::from_str("matches_requested"), decimal_string(matches_requested as u64)),
        );
        let request = Request { url: String::from_str(MATCH_HISTORY), query };
        assert(request@.query =~= seq![
            ("key"@, self.key@),
            ("account_id"@, account_id@),
            ("matches_requested"@, decimal(matches_requested as nat)),
        ]);
        request
    }

    /// The request for the hero catalogue, with the names in Chinese.
    pub fn all_heroes_request(&self) -> (request: Request)
        ensures
            request@ == heroes_request(self.key@),
    {
        let mut query: Vec<(String, String)> = Vec::new();
        query.push((String::from_str("key"), self.key.clone()));
        query.push((String::from_str("language"), String::from_str("zh")));
        let request = Request { url: String::from_str(ALL_HEROES), query };
        assert(request@.query =~= seq![("key"@, self.key@), ("language"@, "zh"@)]);
        request
    }
}

/// The failure that names a member of an answer's envelope.
pub open spec fn envelope(field: Field) -> Error {
    Error::Upstream { failure: UpstreamFailure::Envelope { field } }
}

/// The match ids of a list of history entries, in their order.
pub open spec fn match_ids(entries: Seq<(Seq<char>, Seq<char>)>) -> Seq<Seq<char>> {
    entries.map_values(|entry: (Seq<char>, Seq<char>)| entry.0)
}

/// A list of history entries after the start time `time` was recorded for
/// the match `id`: a match already listed keeps its place and takes the new
/// start time; another match goes to the end.
pub open spec fn recorded(entries: Seq<(Seq<char>, Seq<char>)>, id: Seq<char>, time: Seq<char>)
    -> Seq<(Seq<char>, Seq<char>)> {
    if match_ids(entries).contains(id) {
        entries.update(match_ids(entries).index_of(id), (id, time))
    } else {
        entries.push((id, time))
    }
}

/// The recent matches of an account, most recent first: each match id with
/// the start time of the match.  No match id stands twice.
#[derive(Debug)]
pub struct MatchHistory {
    ids: Vec<String>,
    times: Vec<String>,
}

impl View for MatchHistory {
    type V = Seq<(Seq<char>, Seq<char>)>;

    closed spec fn view(&self) -> Seq<(Seq<char>, Seq<char>)> {
        Seq::new(self.ids@.len(), |i: int| (self.ids@[i]@, self.times@[i]@))
    }
}

impl MatchHistory {
    #[verifier::type_invariant]
    spec fn well_formed(self) -> bool {
        &&& self.ids@.len() == self.times@.len()
        &&& texts(self.ids@).no_duplicates()
    }

    /// A history without matches.
    pub fn new() -> (history: MatchHistory)
        ensures
            history@ == Seq::<(Seq<char>, Seq<char>)>::empty(),
    {
        let history = MatchHistory { ids: Vec::new(), times: Vec::new() };
        history
    }

    /// The number of matches.
    pub fn len(&self) -> (len: usize)
        ensures
            len == self@.len(),
            match_ids(self@).no_duplicates(),
    {
        proof {
            use_type_invariant(self);
            assert(match_ids(self@) =~= texts(self.ids@));
        }
        self.ids.len()
    }

    /// The match id and the start time at place `i`, counted from the most
    /// recent match.
    pub fn entry(&self, i: usize) -> (entry: Option<(&str, &str)>)
        ensures
            match entry {
                Some((id, time)) => i < self@.len() && self@[i as int] == (id@, time@),
                None => i >= self@.len(),
            },
    {
        proof {
            use_type_invariant(self);
        }
        if i < self.ids.len() {
            Some((self.ids[i].as_str(), self.times[i].as_str()))
        } else {
            None
        }
    }

    /// The id of the most recent match.
    pub fn latest(&self) -> (id: Option<&str>)
        ensures
            match id {
                Some(first) => self@.len() > 0 && first@ == self@[0].0,
                None => self@.len() == 0,
            },
    {
        match self.entry(0) {
            Some((id, _)) => Some(id),
            None => None,
        }
    }

    /// The start time of the match `match_id`, if the history lists it.
    pub fn start_time(&self, match_id: &str) -> (time: Option<&str>)
        ensures
            match time {
                Some(t) => match_ids(self@).contains(match_id@) && t@ == self@[match_ids(
                    self@,
                ).index_of(match_id@)].1,
                None => !match_ids(self@).contains(match_id@),
            },
    {
        proof {
            use_type_invariant(self);
            assert(match_ids(self@) =~= texts(self.ids@));
        }
        match position(&self.ids, match_id) {
            Some(i) => {
                proof {
                    lemma_place_is_index(texts(self.ids@), match_id@, i as int);
                }
                Some(self.times[i].as_str())
            },
            None => None,
        }
    }

    /// Records the start time of a match: a match already listed keeps its
    /// place and takes the new start time; another match goes to the end.
    pub fn record(&mut self, match_id: String, start_time: String)
        ensures
            final(self)@ == recorded(old(self)@, match_id@, start_time@),
            match_ids(final(self)@).no_duplicates(),
    {
        proof {
            use_type_invariant(&*self);
            assert(match_ids(self@) =~= texts(self.ids@));
        }
        let mut taken = MatchHistory { ids: Vec::new(), times: Vec::new() };
        std::mem::swap(&mut taken, self);
        let MatchHistory { mut ids, mut times } = taken;
        match position(&ids, match_id.as_str()) {
            Some(i) => {
                proof {
                    lemma_place_is_index(texts(ids@), match_id@, i as int);
                }
                times.set(i, start_time);
            },
            None => {
                ids.push(match_id);
                times.push(start_time);
                assert(texts(ids@) =~= texts(old(self).ids@).push(match_id@));
            },
        }
        *self = MatchHistory { ids, times };
        assert(match_ids(self@) =~= texts(self.ids@));
    }
}

/// What the answer to a match-detail request holds: the member `result`.
/// The upstream API reports a match it does not know by an `error` member
/// inside `result`.
pub open spec fn detail_of(response: Json) -> Result<Json, Error> {
    match member_at(response, Field::Result) {
        None => Err(envelope(Field::Result)),
        Some(result) => if member_at(result, Field::Error) is Some {
            Err(Error::NotFound)
        } else {
            Ok(result)
        },
    }
}

/// The history that the first `n` elements of a list of matches give, each
/// recorded in its turn.  An element without a readable match id or start
/// time ends the reading.
pub open spec fn history_listed(list: Seq<Json>, n: int) -> Result<
    Seq<(Seq<char>, Seq<char>)>,
    Error,
>
    decreases n,
{
    if n <= 0 {
        Ok(Seq::empty())
    } else {
        match history_listed(list, n - 1) {
            Err(e) => Err(e),
            Ok(entries) => if label_at(list[n - 1], Field::MatchId) is None {
                Err(envelope(Field::MatchId))
            } else if label_at(list[n - 1], Field::StartTime) is None {
                Err(envelope(Field::StartTime))
            } else {
                Ok(
                    recorded(
                        entries,
                        label_at(list[n - 1], Field::MatchId)->0,
                        label_at(list[n - 1], Field::StartTime)->0,
                    ),
                )
            },
        }
    }
}

/// What the answer to a request for `matches_requested` matches holds: the
/// matches listed under `result.matches`, as many of them as were asked
/// for.
pub open spec fn history_of(response: Json, matches_requested: u32) -> Result<
    Seq<(Seq<char>, Seq<char>)>,
    Error,
> {
    match member_at(response, Field::Result) {
        None => Err(envelope(Field::Result)),
        Some(result) => match list_at(result, Field::Matches) {
            None => Err(envelope(Field::Matches)),
            Some(list) => history_listed(
                list,
                if list.len() <= matches_requested {
                    list.len() as int
                } else {
                    matches_requested as int
                },
            ),
        },
    }
}

/// A history read from `n` elements lists at most `n` matches, and no match
/// twice.
pub proof fn lemma_history_is_bounded(list: Seq<Json>, n: int)
    requires
        0 <= n,
    ensures
        history_listed(list, n) matches Ok(entries) ==> entries.len() <= n && match_ids(
            entries,
        ).no_duplicates(),
    decreases n,
{
    if n > 0 {
        lemma_history_is_bounded(list, n - 1);
        match history_listed(list, n - 1) {
            Ok(entries) => {
                if label_at(list[n - 1], Field::MatchId) is Some && label_at(
                    list[n - 1],
                    Field::StartTime,
                ) is Some {
                    let id = label_at(list[n - 1], Field::MatchId)->0;
                    let time = label_at(list[n - 1], Field::StartTime)->0;
                    lemma_recorded_keeps_ids_distinct(entries, id, time);
                }
            },
            Err(_) => {},
        }
    }
}

/// Recording a match in a list that names no match twice gives such a list
/// again, longer by one at most.
pub proof fn lemma_recorded_keeps_ids_distinct(
    entries: Seq<(Seq<char>, Seq<char>)>,
    id: Seq<char>,
    time: Seq<char>,
)
    requires
        match_ids(entries).no_duplicates(),
    ensures
        match_ids(recorded(entries, id, time)).no_duplicates(),
        recorded(entries, id, time).len() <= entries.len() + 1,
        match_ids(recorded(entries, id, time)).contains(id),
{
    let ids = match_ids(entries);
    if ids.contains(id) {
        let place = ids.index_of(id);
        assert(match_ids(recorded(entries, id, time)) =~= ids);
    } else {
        assert(match_ids(recorded(entries, id, time)) =~= ids.push(id));
        assert(ids.push(id)[ids.len() as int] == id);
    }
}

/// The catalogue that the first `n` elements of a list of heroes give: the
/// name of each hero under its id, a later element replacing an earlier one
/// of the same id.  An element without a readable id or name ends the
/// reading.
pub open spec fn heroes_listed(list: Seq<Json>, n: int) -> Result<Map<u32, Seq<char>>, Error>
    decreases n,
{
    if n <= 0 {
        Ok(Map::empty())
    } else {
        match heroes_listed(list, n - 1) {
            Err(e) => Err(e),
            Ok(names) => if number_at(list[n - 1], Field::Id) is None {
                Err(envelope(Field::Id))
            } else if text_at(list[n - 1], Field::LocalizedName) is None {
                Err(envelope(Field::LocalizedName))
            } else {
                Ok(
                    names.insert(
                        number_at(list[n - 1], Field::Id)->0 as u32,
                        text_at(list[n - 1], Field::LocalizedName)->0,
                    ),
                )
            },
        }
    }
}

/// What the answer to a hero-catalogue request holds: the heroes listed
/// under `result.heroes`.
pub open spec fn catalogue_of(response: Json) -> Result<Map<u32, Seq<char>>, Error> {
    match member_at(response, Field::Result) {
        None => Err(envelope(Field::Result)),
        Some(result) => match list_at(result, Field::Heroes) {
            None => Err(envelope(Field::Heroes)),
            Some(list) => heroes_listed(list, list.len() as int),
        },
    }
}

/// The names of a hero catalogue, as characters.
pub open spec fn hero_names(heroes: Map<u32, String>) -> Map<u32, Seq<char>> {
    heroes.map_values(|name: String| name@)
}

impl Courier {
    /// Takes the match document out of the answer to a match-detail
    /// request.
    pub fn match_detail(&self, response: &Value) -> (detail: Result<Value, Error>)
        ensures
            match detail {
                Ok(document) => detail_of(json_view(*response)) == Ok::<Json, Error>(
                    json_view(document),
                ),
                Err(e) => detail_of(json_view(*response)) == Err::<Json, Error>(e),
            },
    {
        let result = match read_member(response, Field::Result) {
            Some(result) => result,
            None => return Err(
                Error::Upstream { failure: UpstreamFailure::Envelope { field: Field::Result } },
            ),
        };
        match read_member(result, Field::Error) {
            Some(_) => Err(Error::NotFound),
            None => Ok(result.clone()),
        }
    }

    /// Return the match ids with their start times out of the answer to a
    /// request for `matches_requested` matches.  Matches listed beyond the
    /// number asked for are left out.
    pub fn match_history_with_account_id(
        &self,
        response: &Value,
        matches_requested: u32,
    ) -> (history: Result<MatchHistory, Error>)
        ensures
            match history {
                Ok(listed) => history_of(json_view(*response), matches_requested) == Ok::<
                    Seq<(Seq<char>, Seq<char>)>,
                    Error,
                >(listed@),
                Err(e) => history_of(json_view(*response), matches_requested) == Err::<
                    Seq<(Seq<char>, Seq<char>)>,
                    Error,
                >(e),
            },
            history matches Ok(listed) ==> listed@.len() <= matches_requested && match_ids(
                listed@,
            ).no_duplicates(),
    {
        let result = match read_member(response, Field::Result) {
            Some(result) => result,
            None => return Err(
                Error::Upstream { failure: UpstreamFailure::Envelope { field: Field::Result } },
            ),
        };
        let list = match read_list(result, Field::Matches) {
            Some(list) => list,
            None => return Err(
                Error::Upstream { failure: UpstreamFailure::Envelope { field: Field::Matches } },
            ),
        };
        let count = if list.len() <= matches_requested as usize {
            list.len()
        } else {
            matches_requested as usize
        };
        let mut history = MatchHistory::new();
        let mut i: usize = 0;
        while i < count
            invariant
                i <= count <= list.len(),
                history_of(json_view(*response), matches_requested) == history_listed(
                    json_views(list@),
                    count as int,
                ),
                history_listed(json_views(list@), i as int) == Ok::<
                    Seq<(Seq<char>, Seq<char>)>,
                    Error,
                >(history@),
            decreases count - i,
        {
            let id = match read_label(&list[i], Field::MatchId) {
                Some(id) => id,
                None => {
                    proof {
                        lemma_history_fails(json_views(list@), i as int + 1, count as int);
                    }
                    return Err(
                        Error::Upstream {
                            failure: UpstreamFailure::Envelope { field: Field::MatchId },
                        },
                    );
                },
            };
            let time = match read_label(&list[i], Field::StartTime) {
                Some(time) => time,
                None => {
                    proof {
                        lemma_history_fails(json_views(list@), i as int + 1, count as int);
                    }
                    return Err(
                        Error::Upstream {
                            failure: UpstreamFailure::Envelope { field: Field::StartTime },
                        },
                    );
                },
            };
            history.record(id, time);
            i += 1;
        }
        proof {
            lemma_history_is_bounded(json_views(list@), count as int);
        }
        Ok(history)
    }

    /// Return a map with all heroes id and name, out of the answer to a
    /// hero-catalogue request.
    pub fn all_heroes(&self, response: &Value) -> (heroes: Result<HashMap<u32, String>, Error>)
        ensures
            match heroes {
                Ok(catalogue) => catalogue_of(json_view(*response)) == Ok::<
                    Map<u32, Seq<char>>,
                    Error,
                >(hero_names(catalogue@)),
                Err(e) => catalogue_of(json_view(*response)) == Err::<Map<u32, Seq<char>>, Error>(
                    e,
                ),
            },
    {
        let result = match read_member(response, Field::Result) {
            Some(result) => result,
            None => return Err(
                Error::Upstream { failure: UpstreamFailure::Envelope { field: Field::Result } },
            ),
        };
        let list = match read_list(result, Field::Heroes) {
            Some(list) => list,
            None => return Err(
                Error::Upstream { failure: UpstreamFailure::Envelope { field: Field::Heroes } },
            ),
        };
        let mut heroes: HashMap<u32, String> = HashMap::new();
        assert(hero_names(heroes@) =~= Map::<u32, Seq<char>>::empty());
        let mut i: usize = 0;
        while i < list.len()
            invariant
                i <= list.len(),
                catalogue_of(json_view(*response)) == heroes_listed(
                    json_views(list@),
                    list.len() as int,
                ),
                heroes_listed(json_views(list@), i as int) == Ok::<Map<u32, Seq<char>>, Error>(
                    hero_names(heroes@),
                ),
            decreases list.len() - i,
        {
            let id = match read_number(&list[i], Field::Id) {
                Some(id) => id as u32,
                None => {
                    proof {
                        lemma_heroes_fail(json_views(list@), i as int + 1, list.len() as int);
                    }
                    return Err(
                        Error::Upstream {
                            failure: UpstreamFailure::Envelope { field: Field::Id },
                        },
                    );
                },
            };
            let name = match read_text(&list[i], Field::LocalizedName) {
                Some(name) => name.to_owned(),
                None => {
                    proof {
                        lemma_heroes_fail(json_views(list@), i as int + 1, list.len() as int);
                    }
                    return Err(
                        Error::Upstream {
                            failure: UpstreamFailure::Envelope { field: Field::LocalizedName },
                        },
                    );
                },
            };
            let ghost before = heroes@;
            heroes.insert(id, name);
            assert(hero_names(heroes@) =~= hero_names(before).insert(id, name@));
            i += 1;
        }
        Ok(heroes)
    }

    /// The item catalogue.  The upstream API serves none: the catalogue is
    /// empty.
    pub fn all_items(&self) -> (items: HashMap<u32, String>)
        ensures
            items@ == Map::<u32, String>::empty(),
    {
        HashMap::new()
    }
}

/// A reading of matches that has failed stays failed, however many more
/// elements are read.
proof fn lemma_history_fails(list: Seq<Json>, n: int, m: int)
    requires
        history_listed(list, n) is Err,
        n <= m,
    ensures
        history_listed(list, m) == history_listed(list, n),
    decreases m - n,
{
    if n < m {
        lemma_history_fails(list, n, m - 1);
    }
}

/// A reading of heroes that has failed stays failed, however many more
/// elements are read.
proof fn lemma_heroes_fail(list: Seq<Json>, n: int, m: int)
    requires
        heroes_listed(list, n) is Err,
        n <= m,
    ensures
        heroes_listed(list, m) == heroes_listed(list, n),
    decreases m - n,
{
    if n < m {
        lemma_heroes_fail(list, n, m - 1);
    }
}

} // verus!
