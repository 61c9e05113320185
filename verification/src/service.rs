//! The state of the service and the decisions it takes: the watch lists of
//! its subscribers, the cache of records, and the steps of a request for the
//! latest match of an account.
//!
//! The two stores are plain values.  A server that shares one between
//! requests puts it behind a lock and calls one operation of this module at a
//! time: each operation reads and writes the store in one step.

use crate::client::{detail_of, detail_request, history_of, history_request, Courier, Request};
use crate::error::{Error, UpstreamFailure};
use crate::json::json_view;
use crate::lookup::{lemma_place_is_index, position, texts};
use crate::performance::{fault, performance, PerformanceView, PlayerPerformance};
use serde_json::Value;
use vstd::prelude::*;

verus! {

/// The watch list of `my_id` in a book of subscriptions: empty for one who
/// has not subscribed yet.
pub open spec fn watched_by(book: Map<Seq<char>, Seq<Seq<char>>>, my_id: Seq<char>) -> Seq<
    Seq<char>,
> {
    if book.contains_key(my_id) {
        book[my_id]
    } else {
        Seq::empty()
    }
}

/// A book of subscriptions after `my_id` subscribed to `target_id`: the
/// target stands at the end of the watch list of `my_id`; nothing else
/// changes.
pub open spec fn subscribed(
    book: Map<Seq<char>, Seq<Seq<char>>>,
    my_id: Seq<char>,
    target_id: Seq<char>,
) -> Map<Seq<char>, Seq<Seq<char>>> {
    book.insert(my_id, watched_by(book, my_id).push(target_id))
}

/// A book of subscriptions after `my_id` subscribed to each of `targets`,
/// one call after the other.
pub open spec fn subscribed_all(
    book: Map<Seq<char>, Seq<Seq<char>>>,
    my_id: Seq<char>,
    targets: Seq<Seq<char>>,
) -> Map<Seq<char>, Seq<Seq<char>>>
    decreases targets.len(),
{
    if targets.len() == 0 {
        book
    } else {
        subscribed(subscribed_all(book, my_id, targets.drop_last()), my_id, targets.last())
    }
}

/// No subscription is lost: after any number of calls for one subscriber,
/// made one at a time in whatever order they were served, the watch list
/// holds what it held before, then every target in the order served.  Its
/// length has grown by the number of calls, and no other watch list has
/// changed.
pub proof fn lemma_subscriptions_accumulate(
    book: Map<Seq<char>, Seq<Seq<char>>>,
    my_id: Seq<char>,
    targets: Seq<Seq<char>>,
)
    ensures
        watched_by(subscribed_all(book, my_id, targets), my_id) == watched_by(book, my_id)
            + targets,
        watched_by(subscribed_all(book, my_id, targets), my_id).len() == watched_by(
            book,
            my_id,
        ).len() + targets.len(),
        forall|other: Seq<char>|
            other != my_id ==> watched_by(subscribed_all(book, my_id, targets), other)
                == watched_by(book, other),
        forall|other: Seq<char>|
            other != my_id ==> (subscribed_all(book, my_id, targets).contains_key(other)
                <==> book.contains_key(other)),
    decreases targets.len(),
{
    if targets.len() > 0 {
        lemma_subscriptions_accumulate(book, my_id, targets.drop_last());
    }
}

/// The watch lists of the subscribers: for each subscriber the accounts
/// watched, in the order subscribed.  An account may stand in a list more
/// than once.
#[derive(Debug)]
pub struct Subscriptions {
    subscribers: Vec<String>,
    watched: Vec<Vec<String>>,
}

impl View for Subscriptions {
    type V = Map<Seq<char>, Seq<Seq<char>>>;

    closed spec fn view(&self) -> Map<Seq<char>, Seq<Seq<char>>> {
        Map::new(
            |id: Seq<char>| texts(self.subscribers@).contains(id),
            |id: Seq<char>| texts(self.watched@[texts(self.subscribers@).index_of(id)]@),
        )
    }
}

impl Subscriptions {
    #[verifier::type_invariant]
    spec fn well_formed(self) -> bool {
        &&& self.subscribers@.len() == self.watched@.len()
        &&& texts(self.subscribers@).no_duplicates()
    }

    /// The subscribers, in the order of their first subscription.
    pub closed spec fn subscribers(&self) -> Seq<Seq<char>> {
        texts(self.subscribers@)
    }

    /// A book without subscribers.
    pub fn new() -> (book: Subscriptions)
        ensures
            book@ == Map::<Seq<char>, Seq<Seq<char>>>::empty(),
            book.subscribers() == Seq::<Seq<char>>::empty(),
    {
        let book = Subscriptions { subscribers: Vec::new(), watched: Vec::new() };
        book
    }

    /// The number of subscribers.
    pub fn len(&self) -> (len: usize)
        ensures
            len == self.subscribers().len(),
            self.subscribers().no_duplicates(),
            self.subscribers().to_set() == self@.dom(),
    {
        proof {
            use_type_invariant(self);
        }
        self.subscribers.len()
    }

    /// The subscriber at place `i` and the accounts watched.
    pub fn entry(&self, i: usize) -> (entry: Option<(&str, &Vec<String>)>)
        ensures
            match entry {
                Some((id, list)) => {
                    &&& i < self.subscribers().len()
                    &&& id@ == self.subscribers()[i as int]
                    &&& self@.contains_key(id@)
                    &&& self@[id@] == texts(list@)
                },
                None => i >= self.subscribers().len(),
            },
    {
        proof {
            use_type_invariant(self);
        }
        if i < self.subscribers.len() {
            Some((self.subscribers[i].as_str(), &self.watched[i]))
        } else {
            None
        }
    }

    /// The accounts that `my_id` watches, if `my_id` has subscribed.
    pub fn watched(&self, my_id: &str) -> (list: Option<&Vec<String>>)
        ensures
            match list {
                Some(targets) => self@.contains_key(my_id@) && self@[my_id@] == texts(targets@),
                None => !self@.contains_key(my_id@),
            },
    {
        proof {
            use_type_invariant(self);
        }
        match position(&self.subscribers, my_id) {
            Some(i) => {
                proof {
                    lemma_place_is_index(texts(self.subscribers@), my_id@, i as int);
                }
                Some(&self.watched[i])
            },
            None => None,
        }
    }
}

/// Subscribe `my_id` to `target_id`: the target goes to the end of the watch
/// list of `my_id`, which is made where there was none.  Nothing is removed
/// and nothing is checked for duplicates.
pub fn subscribe_player(subscriptions: &mut Subscriptions, my_id: &str, target_id: &str)
    ensures
        final(subscriptions)@ == subscribed(old(subscriptions)@, my_id@, target_id@),
        watched_by(final(subscriptions)@, my_id@).len() == watched_by(
            old(subscriptions)@,
            my_id@,
        ).len() + 1,
{
    proof {
        use_type_invariant(&*subscriptions);
    }
    let mut taken = Subscriptions { subscribers: Vec::new(), watched: Vec::new() };
    std::mem::swap(&mut taken, subscriptions);
    let Subscriptions { mut subscribers, mut watched } = taken;
    let ghost before = texts(subscribers@);
    match position(&subscribers, my_id) {
        Some(i) => {
            proof {
                lemma_place_is_index(before, my_id@, i as int);
            }
            let mut list: Vec<String> = Vec::new();
            std::mem::swap(&mut list, &mut watched[i]);
            list.push(target_id.to_owned());
            watched.set(i, list);
        },
        None => {
            subscribers.push(my_id.to_owned());
            let mut list: Vec<String> = Vec::new();
            list.push(target_id.to_owned());
            watched.push(list);
            assert(texts(subscribers@) =~= before.push(my_id@));
            proof {
                lemma_place_is_index(texts(subscribers@), my_id@, before.len() as int);
            }
        },
    }
    let ghost after = texts(subscribers@);
    *subscriptions = Subscriptions { subscribers, watched };
    proof {
        let goal = subscribed(old(subscriptions)@, my_id@, target_id@);
        assert forall|id: Seq<char>| goal.contains_key(id) <==> subscriptions@.contains_key(
            id,
        ) by {
            if before.contains(id) {
                let j = before.index_of(id);
                assert(after[j] == id);
            }
        }
        assert forall|id: Seq<char>| goal.contains_key(id) implies goal[id]
            == subscriptions@[id] by {
            if id != my_id@ {
                let j = before.index_of(id);
                assert(after[j] == id);
            }
        }
    }
}

/// The key under which the cache keeps a record: the account and the match.
pub open spec fn cache_key(record: PerformanceView) -> (Seq<char>, Seq<char>) {
    (record.account_id, record.match_id)
}

/// A cache after `record` was offered to it: a record already kept under
/// the same key stays, and the offer is dropped; otherwise the record is
/// kept.
pub open spec fn kept(
    cache: Map<(Seq<char>, Seq<char>), PerformanceView>,
    record: PerformanceView,
) -> Map<(Seq<char>, Seq<char>), PerformanceView> {
    if cache.contains_key(cache_key(record)) {
        cache
    } else {
        cache.insert(cache_key(record), record)
    }
}

/// A key of the cache is filled once: whatever is offered under it later,
/// the cache holds the record that came first.
pub proof fn lemma_cache_fills_once(
    cache: Map<(Seq<char>, Seq<char>), PerformanceView>,
    first: PerformanceView,
    second: PerformanceView,
)
    requires
        cache_key(first) == cache_key(second),
    ensures
        kept(kept(cache, first), second) == kept(cache, first),
        kept(cache, first).contains_key(cache_key(first)),
        !cache.contains_key(cache_key(first)) ==> kept(kept(cache, first), second)[cache_key(
            first,
        )] == first,
        cache.contains_key(cache_key(first)) ==> kept(kept(cache, first), second) == cache,
{
}

/// The keys of a list of records, in their order.
pub open spec fn record_keys(records: Seq<PlayerPerformance>) -> Seq<(Seq<char>, Seq<char>)> {
    records.map_values(|record: PlayerPerformance| cache_key(record@))
}

/// The records computed so far, each under its account and its match.  The
/// cache has no size bound and drops nothing.
#[derive(Debug)]
pub struct PerformanceCache {
    records: Vec<PlayerPerformance>,
}

impl View for PerformanceCache {
    type V = Map<(Seq<char>, Seq<char>), PerformanceView>;

    closed spec fn view(&self) -> Map<(Seq<char>, Seq<char>), PerformanceView> {
        Map::new(
            |key: (Seq<char>, Seq<char>)| record_keys(self.records@).contains(key),
            |key: (Seq<char>, Seq<char>)| self.records@[record_keys(self.records@).index_of(key)]@,
        )
    }
}

/// The place of the record of `account_id` in `match_id` among `records`.
fn find_record(records: &Vec<PlayerPerformance>, account_id: &str, match_id: &str) -> (place:
    Option<usize>)
    ensures
        match place {
            Some(i) => i < records.len() && record_keys(records@)[i as int] == (
                account_id@,
                match_id@,
            ),
            None => !record_keys(records@).contains((account_id@, match_id@)),
        },
{
    let account = account_id.to_owned();
    let played = match_id.to_owned();
    let mut i: usize = 0;
    while i < records.len()
        invariant
            i <= records.len(),
            account@ == account_id@,
            played@ == match_id@,
            forall|j: int| 0 <= j < i ==> record_keys(records@)[j] != (account_id@, match_id@),
        decreases records.len() - i,
    {
        if records[i].account_id == account && records[i].match_id == played {
            return Some(i);
        }
        i += 1;
    }
    None
}

impl PerformanceCache {
    #[verifier::type_invariant]
    spec fn well_formed(self) -> bool {
        record_keys(self.records@).no_duplicates()
    }

    /// The keys of the records kept, in the order they came.
    pub closed spec fn keys(&self) -> Seq<(Seq<char>, Seq<char>)> {
        record_keys(self.records@)
    }

    /// A cache without records.
    pub fn new() -> (cache: PerformanceCache)
        ensures
            cache@ == Map::<(Seq<char>, Seq<char>), PerformanceView>::empty(),
            cache.keys() == Seq::<(Seq<char>, Seq<char>)>::empty(),
    {
        let cache = PerformanceCache { records: Vec::new() };
        cache
    }

    /// The number of records kept: one for each key.
    pub fn len(&self) -> (len: usize)
        ensures
            len == self.keys().len(),
            self.keys().no_duplicates(),
            self.keys().to_set() == self@.dom(),
    {
        proof {
            use_type_invariant(self);
        }
        self.records.len()
    }

    /// The record at place `i`, in the order the records came.
    pub fn entry(&self, i: usize) -> (entry: Option<&PlayerPerformance>)
        ensures
            match entry {
                Some(record) => {
                    &&& i < self.keys().len()
                    &&& cache_key(record@) == self.keys()[i as int]
                    &&& self@.contains_key(cache_key(record@))
                    &&& self@[cache_key(record@)] == record@
                },
                None => i >= self.keys().len(),
            },
    {
        proof {
            use_type_invariant(self);
        }
        if i < self.records.len() {
            Some(&self.records[i])
        } else {
            None
        }
    }

    /// The record of `account_id` in `match_id`, if the cache keeps one.
    pub fn get(&self, account_id: &str, match_id: &str) -> (found: Option<&PlayerPerformance>)
        ensures
            match found {
                Some(record) => {
                    &&& self@.contains_key((account_id@, match_id@))
                    &&& self@[(account_id@, match_id@)] == record@
                    &&& cache_key(record@) == (account_id@, match_id@)
                },
                None => !self@.contains_key((account_id@, match_id@)),
            },
    {
        proof {
            use_type_invariant(self);
        }
        match find_record(&self.records, account_id, match_id) {
            Some(i) => Some(&self.records[i]),
            None => None,
        }
    }

    /// Offers a record to the cache.  A record already kept for the same
    /// account and match stays, and the offer is dropped: the result says
    /// whether the offer was taken.
    pub fn insert(&mut self, record: PlayerPerformance) -> (taken: bool)
        ensures
            final(self)@ == kept(old(self)@, record@),
            taken == !old(self)@.contains_key(cache_key(record@)),
            final(self)@.contains_key(cache_key(record@)),
    {
        proof {
            use_type_invariant(&*self);
        }
        let mut emptied = PerformanceCache { records: Vec::new() };
        std::mem::swap(&mut emptied, self);
        let PerformanceCache { mut records } = emptied;
        let ghost before = record_keys(records@);
        let ghost key = cache_key(record@);
        let found = find_record(&records, record.account_id.as_str(), record.match_id.as_str());
        let taken = match found {
            Some(_) => false,
            None => {
                records.push(record);
                assert(record_keys(records@) =~= before.push(key));
                proof {
                    lemma_place_is_index(record_keys(records@), key, before.len() as int);
                }
                true
            },
        };
        let ghost after = record_keys(records@);
        *self = PerformanceCache { records };
        proof {
            let goal = kept(old(self)@, record@);
            assert forall|k: (Seq<char>, Seq<char>)| goal.contains_key(k) <==> self@.contains_key(
                k,
            ) by {
                if before.contains(k) {
                    let j = before.index_of(k);
                    assert(after[j] == k);
                }
            }
            assert forall|k: (Seq<char>, Seq<char>)| goal.contains_key(k) implies goal[k]
                == self@[k] by {
                if before.contains(k) {
                    let j = before.index_of(k);
                    assert(after[j] == k);
                }
            }
        }
        taken
    }
}

/// Where a request for the latest match of an account stands.
#[derive(Debug)]
pub enum LatestMatch {
    /// The match history of the account was asked for.
    AwaitHistory { account_id: String },
    /// The details of the account's latest match were asked for.
    AwaitDetail { account_id: String },
    /// The request was answered.
    Finished,
}

/// What came back from the upstream API.
#[derive(Debug)]
pub enum Event {
    /// The parsed JSON answer.
    Answer(Value),
    /// No usable answer.
    Failure(UpstreamFailure),
}

/// What the caller is to do next.
#[derive(Debug)]
pub enum Action {
    /// Send the request and come back with what the upstream API answers.
    Send(Request),
    /// Answer the request with the record.
    Reply(PlayerPerformance),
    /// Answer the request with the failure.
    Fail(Error),
    /// Nothing: the request was answered before.
    Idle,
}

/// The number of matches asked for: the latest one.
pub const MATCHES_REQUESTED: u32 = 1;

/// Whether `next`, `action` and `cache_after` are what a request in `state`
/// comes to when `event` arrives, with `key` the key of the upstream API and
/// `cache` the cache before.
///
/// A request that was answered stays so.  A failure of the upstream API
/// ends the request with that failure.  The answer with the match history
/// ends the request where it cannot be read or lists no match, and where
/// the cache keeps the record of the account in the first match listed;
/// otherwise the details of that match are asked for.  The answer with the
/// match details ends the request, with the record read out of it or with
/// the failure to read it; the record is offered to the cache, and the
/// reply is what the cache then keeps.
pub open spec fn steps_to(
    state: LatestMatch,
    event: Event,
    key: Seq<char>,
    cache: Map<(Seq<char>, Seq<char>), PerformanceView>,
    next: LatestMatch,
    action: Action,
    cache_after: Map<(Seq<char>, Seq<char>), PerformanceView>,
) -> bool {
    match (state, event) {
        (LatestMatch::Finished, _) => {
            &&& next is Finished
            &&& action is Idle
            &&& cache_after == cache
        },
        (_, Event::Failure(failure)) => {
            &&& next is Finished
            &&& action == Action::Fail(Error::Upstream { failure })
            &&& cache_after == cache
        },
        (LatestMatch::AwaitHistory { account_id }, Event::Answer(answer)) => {
            &&& cache_after == cache
            &&& match history_of(json_view(answer), MATCHES_REQUESTED) {
                Err(e) => next is Finished && action == Action::Fail(e),
                Ok(history) => if history.len() == 0 {
                    next is Finished && action == Action::Fail(Error::NoMatchHistory)
                } else if cache.contains_key((account_id@, history[0].0)) {
                    &&& next is Finished
                    &&& action matches Action::Reply(record)
                    &&& record@ == cache[(account_id@, history[0].0)]
                } else {
                    &&& next matches LatestMatch::AwaitDetail { account_id: account }
                    &&& account@ == account_id@
                    &&& action matches Action::Send(request)
                    &&& request@ == detail_request(key, history[0].0)
                },
            }
        },
        (LatestMatch::AwaitDetail { account_id }, Event::Answer(answer)) => {
            &&& next is Finished
            &&& match detail_of(json_view(answer)) {
                Err(e) => action == Action::Fail(e) && cache_after == cache,
                Ok(document) => match fault(document, account_id@) {
                    Some(e) => action == Action::Fail(e) && cache_after == cache,
                    None => {
                        let read = performance(document, account_id@);
                        &&& cache_after == kept(cache, read)
                        &&& action matches Action::Reply(record)
                        &&& record@ == cache_after[cache_key(read)]
                    },
                },
            }
        },
    }
}

/// A match is read into the cache once.  When two requests of one account
/// come to the details of the same match one after the other, the second
/// leaves the cache as the first left it, and both are answered with the
/// record that the cache keeps: the answers never differ, whatever the
/// second answer of the upstream API holds.
pub proof fn lemma_repeated_requests_fill_once(
    first: LatestMatch,
    first_event: Event,
    second: LatestMatch,
    second_event: Event,
    key: Seq<char>,
    cache: Map<(Seq<char>, Seq<char>), PerformanceView>,
    first_next: LatestMatch,
    first_action: Action,
    between: Map<(Seq<char>, Seq<char>), PerformanceView>,
    second_next: LatestMatch,
    second_action: Action,
    after: Map<(Seq<char>, Seq<char>), PerformanceView>,
)
    requires
        first is AwaitDetail,
        second is AwaitDetail,
        first->AwaitDetail_account_id@ == second->AwaitDetail_account_id@,
        first_event is Answer,
        second_event is Answer,
        detail_of(json_view(first_event->Answer_0)) is Ok,
        detail_of(json_view(second_event->Answer_0)) is Ok,
        fault(
            detail_of(json_view(first_event->Answer_0))->Ok_0,
            first->AwaitDetail_account_id@,
        ) is None,
        fault(
            detail_of(json_view(second_event->Answer_0))->Ok_0,
            second->AwaitDetail_account_id@,
        ) is None,
        performance(
            detail_of(json_view(first_event->Answer_0))->Ok_0,
            first->AwaitDetail_account_id@,
        ).match_id == performance(
            detail_of(json_view(second_event->Answer_0))->Ok_0,
            second->AwaitDetail_account_id@,
        ).match_id,
        steps_to(first, first_event, key, cache, first_next, first_action, between),
        steps_to(second, second_event, key, between, second_next, second_action, after),
    ensures
        after == between,
        first_action is Reply,
        second_action is Reply,
        first_action->Reply_0@ == second_action->Reply_0@,
        ({
            let read = performance(
                detail_of(json_view(first_event->Answer_0))->Ok_0,
                first->AwaitDetail_account_id@,
            );
            &&& between.contains_key(cache_key(read))
            &&& between[cache_key(read)] == first_action->Reply_0@
            &&& !cache.contains_key(cache_key(read)) ==> first_action->Reply_0@ == read
        }),
{
}

impl LatestMatch {
    /// Begins a request for the latest match of `account_id`: the history
    /// of the account is asked for, one match of it.
    pub fn begin(courier: &Courier, account_id: &str) -> (begun: (LatestMatch, Request))
        ensures
            begun.0 matches LatestMatch::AwaitHistory { account_id: account } && account@
                == account_id@,
            begun.1@ == history_request(courier.key@, account_id@, MATCHES_REQUESTED),
    {
        let request = courier.match_history_request(account_id, MATCHES_REQUESTED);
        (LatestMatch::AwaitHistory { account_id: account_id.to_owned() }, request)
    }
}

/// Takes a request for the latest match of an account one step further:
/// from where it stands and what came back from the upstream API to where
/// it stands next and what the caller is to do.
pub fn latest_match(
    state: LatestMatch,
    event: Event,
    courier: &Courier,
    cache: &mut PerformanceCache,
) -> (next: (LatestMatch, Action))
    ensures
        steps_to(state, event, courier.key@, old(cache)@, next.0, next.1, final(cache)@),
{
    match state {
        LatestMatch::Finished => (LatestMatch::Finished, Action::Idle),
        LatestMatch::AwaitHistory { account_id } => match event {
            Event::Failure(failure) => (
                LatestMatch::Finished,
                Action::Fail(Error::Upstream { failure }),
            ),
            Event::Answer(answer) => {
                let history = match courier.match_history_with_account_id(
                    &answer,
                    MATCHES_REQUESTED,
                ) {
                    Ok(history) => history,
                    Err(e) => return (LatestMatch::Finished, Action::Fail(e)),
                };
                let match_id = match history.latest() {
                    Some(match_id) => match_id,
                    None => return (LatestMatch::Finished, Action::Fail(Error::NoMatchHistory)),
                };
                match cache.get(account_id.as_str(), match_id) {
                    Some(record) => (LatestMatch::Finished, Action::Reply(record.clone())),
                    None => {
                        let request = courier.match_detail_request(match_id);
                        (LatestMatch::AwaitDetail { account_id }, Action::Send(request))
                    },
                }
            },
        },
        LatestMatch::AwaitDetail { account_id } => match event {
            Event::Failure(failure) => (
                LatestMatch::Finished,
                Action::Fail(Error::Upstream { failure }),
            ),
            Event::Answer(answer) => {
                let document = match courier.match_detail(&answer) {
                    Ok(document) => document,
                    Err(e) => return (LatestMatch::Finished, Action::Fail(e)),
                };
                let record = match PlayerPerformance::from_value(document, account_id.as_str()) {
                    Ok(record) => record,
                    Err(e) => return (LatestMatch::Finished, Action::Fail(e)),
                };
                match cache.get(record.account_id.as_str(), record.match_id.as_str()) {
                    Some(first) => (LatestMatch::Finished, Action::Reply(first.clone())),
                    None => {
                        let fresh = record.clone();
                        cache.insert(record);
                        (LatestMatch::Finished, Action::Reply(fresh))
                    },
                }
            },
        },
    }
}

} // verus!
