use courier::client::{Courier, PlayerPerformance};
use courier::error::{Error, Field, UpstreamFailure};
use courier::performance::ParticipationRate;
use courier::service::{
    latest_match, subscribe_player, Action, Event, LatestMatch, PerformanceCache, Subscriptions,
};
use serde_json::Value;
use std::sync::{Arc, Mutex};

fn courier() -> Courier {
    Courier { key: "steam-key".to_string() }
}

fn parse(text: &str) -> Value {
    serde_json::from_str(text).unwrap()
}

fn history_answer() -> Value {
    parse(r#"{"result": {"matches": [{"match_id": 7131970019, "start_time": 1682171694}]}}"#)
}

fn detail_answer() -> Value {
    parse(
        r#"{"result": {
            "players": [
                {
                    "account_id": 417817047, "hero_id": 74, "kills": 10, "deaths": 3,
                    "assists": 5, "gold_per_min": 600, "xp_per_min": 700, "last_hits": 250,
                    "denies": 12, "hero_damage": 30000, "tower_damage": 4000,
                    "hero_healing": 150, "level": 25, "gold": 1200, "gold_spent": 21000,
                    "team_number": 0, "item_0": 1, "item_1": 48, "item_2": 63, "item_3": 0,
                    "item_4": 108, "item_5": 116, "item_neutral": 357
                }
            ],
            "game_mode": 22, "dire_score": 20, "radiant_score": 30, "radiant_win": false,
            "match_id": 7131970019
        }}"#,
    )
}

fn watched(book: &Subscriptions, my_id: &str) -> Vec<String> {
    book.watched(my_id).unwrap().clone()
}

fn run(
    account_id: &str,
    history: Event,
    detail: Event,
    cache: &mut PerformanceCache,
) -> (Result<PlayerPerformance, Error>, usize) {
    let courier = courier();
    let (mut state, request) = LatestMatch::begin(&courier, account_id);
    assert_eq!(
        request.url,
        "http://api.steampowered.com/IDOTA2Match_570/GetMatchHistory/v1"
    );
    let mut answers = vec![detail, history];
    let mut sent = 1;
    loop {
        let event = answers.pop().unwrap();
        let (next, action) = latest_match(state, event, &courier, cache);
        state = next;
        match action {
            Action::Send(_) => sent += 1,
            Action::Reply(record) => return (Ok(record), sent),
            Action::Fail(e) => return (Err(e), sent),
            Action::Idle => unreachable!(),
        }
    }
}

#[test]
fn latest_performance_end_to_end() {
    let mut cache = PerformanceCache::new();
    let (result, sent) = run(
        "417817047",
        Event::Answer(history_answer()),
        Event::Answer(detail_answer()),
        &mut cache,
    );
    let record = result.unwrap();
    assert_eq!(sent, 2);
    assert!(record.radiant);
    assert_eq!(record.participation_rate, ParticipationRate { numerator: 15, denominator: 30 });
    let rate = record.participation_rate.numerator as f32
        / record.participation_rate.denominator as f32;
    assert!((rate - 0.5).abs() < 1e-6);
    assert_eq!(record.win, false);
    assert_eq!(record.match_id, "7131970019");
    assert_eq!(record.account_id, "417817047");

    let mut won = detail_answer();
    won["result"]["radiant_win"] = Value::from(true);
    let mut cache = PerformanceCache::new();
    let (result, _) =
        run("417817047", Event::Answer(history_answer()), Event::Answer(won), &mut cache);
    assert_eq!(result.unwrap().win, true);
}

#[test]
fn the_steps_of_a_request() {
    let courier = courier();
    let mut cache = PerformanceCache::new();
    let (state, request) = LatestMatch::begin(&courier, "417817047");
    assert!(matches!(&state, LatestMatch::AwaitHistory { account_id } if account_id == "417817047"));
    let query: Vec<(&str, &str)> =
        request.query.iter().map(|(name, value)| (name.as_str(), value.as_str())).collect();
    assert_eq!(
        query,
        vec![("key", "steam-key"), ("account_id", "417817047"), ("matches_requested", "1")]
    );

    let (state, action) = latest_match(state, Event::Answer(history_answer()), &courier, &mut cache);
    assert!(matches!(&state, LatestMatch::AwaitDetail { account_id } if account_id == "417817047"));
    match action {
        Action::Send(request) => {
            assert_eq!(
                request.url,
                "http://api.steampowered.com/IDOTA2Match_570/GetMatchDetails/v1"
            );
            let query: Vec<(&str, &str)> = request
                .query
                .iter()
                .map(|(name, value)| (name.as_str(), value.as_str()))
                .collect();
            assert_eq!(query, vec![("key", "steam-key"), ("match_id", "7131970019")]);
        }
        _ => panic!("the details of the match are to be asked for"),
    }
    assert_eq!(cache.len(), 0);

    let (state, action) = latest_match(state, Event::Answer(detail_answer()), &courier, &mut cache);
    assert!(matches!(state, LatestMatch::Finished));
    assert!(matches!(&action, Action::Reply(record) if record.hero_id == 74));
    assert_eq!(cache.len(), 1);

    let (state, action) = latest_match(state, Event::Answer(detail_answer()), &courier, &mut cache);
    assert!(matches!(state, LatestMatch::Finished));
    assert!(matches!(action, Action::Idle));
    let (state, action) =
        latest_match(state, Event::Failure(UpstreamFailure::Network), &courier, &mut cache);
    assert!(matches!(state, LatestMatch::Finished));
    assert!(matches!(action, Action::Idle));
    assert_eq!(cache.len(), 1);
}

#[test]
fn only_the_latest_match_of_the_history_is_read() {
    let mut cache = PerformanceCache::new();
    let history = parse(
        r#"{"result": {"matches": [
            {"match_id": 7131970019, "start_time": 1682171694},
            {"match_id": 7124687646}
        ]}}"#,
    );
    let (result, sent) =
        run("417817047", Event::Answer(history), Event::Answer(detail_answer()), &mut cache);
    assert_eq!(sent, 2);
    assert_eq!(result.unwrap().match_id, "7131970019");
}

#[test]
fn account_without_matches_has_no_history() {
    let mut cache = PerformanceCache::new();
    let (result, sent) = run(
        "417817047",
        Event::Answer(parse(r#"{"result": {"matches": []}}"#)),
        Event::Answer(detail_answer()),
        &mut cache,
    );
    assert_eq!(result.unwrap_err(), Error::NoMatchHistory);
    assert_eq!(sent, 1);
    assert_eq!(cache.len(), 0);
}

#[test]
fn failures_end_the_request() {
    let mut cache = PerformanceCache::new();
    let (result, sent) = run(
        "417817047",
        Event::Failure(UpstreamFailure::Status { code: 503 }),
        Event::Answer(detail_answer()),
        &mut cache,
    );
    assert_eq!(
        result.unwrap_err(),
        Error::Upstream { failure: UpstreamFailure::Status { code: 503 } }
    );
    assert_eq!(sent, 1);

    let (result, sent) = run(
        "417817047",
        Event::Answer(parse(r#"{"status": 1}"#)),
        Event::Answer(detail_answer()),
        &mut cache,
    );
    assert_eq!(
        result.unwrap_err(),
        Error::Upstream { failure: UpstreamFailure::Envelope { field: Field::Result } }
    );
    assert_eq!(sent, 1);

    let (result, sent) = run(
        "417817047",
        Event::Answer(history_answer()),
        Event::Failure(UpstreamFailure::Network),
        &mut cache,
    );
    assert_eq!(result.unwrap_err(), Error::Upstream { failure: UpstreamFailure::Network });
    assert_eq!(sent, 2);

    let (result, _) = run(
        "417817047",
        Event::Answer(history_answer()),
        Event::Answer(parse(r#"{"result": {"error": "Match ID not found"}}"#)),
        &mut cache,
    );
    assert_eq!(result.unwrap_err(), Error::NotFound);

    let (result, _) = run(
        "417817047",
        Event::Answer(history_answer()),
        Event::Answer(parse(r#"{"nothing": 1}"#)),
        &mut cache,
    );
    assert_eq!(
        result.unwrap_err(),
        Error::Upstream { failure: UpstreamFailure::Envelope { field: Field::Result } }
    );

    let (result, _) = run(
        "1",
        Event::Answer(history_answer()),
        Event::Answer(detail_answer()),
        &mut cache,
    );
    assert_eq!(result.unwrap_err(), Error::PlayerNotFound);

    let mut turbo = detail_answer();
    turbo["result"]["game_mode"] = Value::from(99);
    let (result, _) =
        run("417817047", Event::Answer(history_answer()), Event::Answer(turbo), &mut cache);
    assert_eq!(result.unwrap_err(), Error::InvalidGameMode { code: 99 });

    let mut broken = detail_answer();
    broken["result"]["players"][0].as_object_mut().unwrap().remove("item_2");
    let (result, _) =
        run("417817047", Event::Answer(history_answer()), Event::Answer(broken), &mut cache);
    assert_eq!(result.unwrap_err(), Error::MalformedMatchData { field: Field::Item(2) });
    assert_eq!(cache.len(), 0);
}

#[test]
fn repeated_requests_fill_the_cache_once() {
    let mut cache = PerformanceCache::new();
    let (first, sent) = run(
        "417817047",
        Event::Answer(history_answer()),
        Event::Answer(detail_answer()),
        &mut cache,
    );
    assert_eq!(sent, 2);
    assert_eq!(cache.len(), 1);
    let first = first.unwrap();

    let mut changed = detail_answer();
    changed["result"]["players"][0]["kills"] = Value::from(99);
    for _ in 0..5 {
        let (again, sent) = run(
            "417817047",
            Event::Answer(history_answer()),
            Event::Answer(changed.clone()),
            &mut cache,
        );
        assert_eq!(sent, 1);
        assert_eq!(format!("{:?}", again.unwrap()), format!("{:?}", first));
        assert_eq!(cache.len(), 1);
    }
    let kept = cache.get("417817047", "7131970019").unwrap();
    assert_eq!(kept.kills, 10);
    assert!(cache.get("417817047", "7124687646").is_none());
    assert!(cache.get("7131970019", "417817047").is_none());
}

#[test]
fn two_requests_in_flight_reply_with_the_record_that_came_first() {
    let courier = courier();
    let mut cache = PerformanceCache::new();
    let (one, _) = LatestMatch::begin(&courier, "417817047");
    let (two, _) = LatestMatch::begin(&courier, "417817047");
    let (one, _) = latest_match(one, Event::Answer(history_answer()), &courier, &mut cache);
    let (two, _) = latest_match(two, Event::Answer(history_answer()), &courier, &mut cache);
    let mut later = detail_answer();
    later["result"]["players"][0]["kills"] = Value::from(99);
    let (_, first) = latest_match(one, Event::Answer(detail_answer()), &courier, &mut cache);
    let (_, second) = latest_match(two, Event::Answer(later), &courier, &mut cache);
    assert!(matches!(&first, Action::Reply(record) if record.kills == 10));
    assert!(matches!(&second, Action::Reply(record) if record.kills == 10));
    assert_eq!(cache.len(), 1);
}

#[test]
fn cache_keeps_the_first_record_of_a_key() {
    let answer = detail_answer();
    let first = PlayerPerformance::from_value(answer["result"].clone(), "417817047").unwrap();
    let mut second = first.clone();
    second.kills = 1;
    let mut other = first.clone();
    other.match_id = "7124687646".to_string();

    let mut cache = PerformanceCache::new();
    assert_eq!(cache.len(), 0);
    assert!(cache.entry(0).is_none());
    assert!(cache.insert(first));
    assert!(!cache.insert(second));
    assert!(cache.insert(other));
    assert!(!cache.insert(cache.get("417817047", "7124687646").unwrap().clone()));
    assert_eq!(cache.len(), 2);
    assert_eq!(cache.get("417817047", "7131970019").unwrap().kills, 10);
    assert_eq!(cache.get("417817047", "7124687646").unwrap().kills, 10);
    assert_eq!(cache.entry(0).unwrap().match_id, "7131970019");
    assert_eq!(cache.entry(1).unwrap().match_id, "7124687646");
    assert!(cache.entry(2).is_none());
}

#[test]
fn subscribing_appends_to_the_watch_list() {
    let mut book = Subscriptions::new();
    assert_eq!(book.len(), 0);
    assert!(book.watched("me").is_none());
    subscribe_player(&mut book, "me", "a");
    subscribe_player(&mut book, "you", "x");
    subscribe_player(&mut book, "me", "b");
    subscribe_player(&mut book, "me", "a");
    assert_eq!(book.len(), 2);
    assert_eq!(watched(&book, "me"), vec!["a", "b", "a"]);
    assert_eq!(watched(&book, "you"), vec!["x"]);
    assert!(book.watched("a").is_none());
    let (id, list) = book.entry(0).unwrap();
    assert_eq!(id, "me");
    assert_eq!(list.len(), 3);
    let (id, list) = book.entry(1).unwrap();
    assert_eq!(id, "you");
    assert_eq!(list, &vec!["x".to_string()]);
    assert!(book.entry(2).is_none());
}

#[test]
fn fifty_subscriptions_one_after_the_other_are_all_kept() {
    let mut book = Subscriptions::new();
    subscribe_player(&mut book, "other", "0");
    for target in 0..50 {
        subscribe_player(&mut book, "me", &target.to_string());
    }
    let expected: Vec<String> = (0..50).map(|target: u32| target.to_string()).collect();
    assert_eq!(watched(&book, "me"), expected);
    assert_eq!(watched(&book, "other"), vec!["0"]);
}

#[test]
fn fifty_concurrent_subscriptions_are_all_kept() {
    let runtime = tokio::runtime::Builder::new_multi_thread().worker_threads(4).build().unwrap();
    let book = Arc::new(Mutex::new(Subscriptions::new()));
    let mut tasks = Vec::new();
    for target in 0..50 {
        let book = Arc::clone(&book);
        tasks.push(runtime.spawn(async move {
            let mut guard = book.lock().unwrap();
            subscribe_player(&mut guard, "me", &target.to_string());
        }));
    }
    for task in tasks {
        runtime.block_on(task).unwrap();
    }
    let guard = book.lock().unwrap();
    let mut list = watched(&guard, "me");
    assert_eq!(list.len(), 50);
    list.sort_by_key(|target| target.parse::<u32>().unwrap());
    let expected: Vec<String> = (0..50).map(|target: u32| target.to_string()).collect();
    assert_eq!(list, expected);
    assert_eq!(guard.len(), 1);
}
