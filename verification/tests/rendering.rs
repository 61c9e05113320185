use courier::client::{GameMode, PlayerPerformance};
use courier::error::{AppError, Error, Field, UpstreamFailure};
use courier::performance::ParticipationRate;
use courier::text::decimal_string;
use std::collections::HashMap;

fn record() -> PlayerPerformance {
    PlayerPerformance {
        account_id: "417817047".to_string(),
        match_id: "7131970019".to_string(),
        hero_id: 74,
        item_list: vec![1, 48, 63, 0, 108, 116, 357],
        kills: 10,
        deaths: 3,
        assists: 5,
        participation_rate: ParticipationRate { numerator: 15, denominator: 30 },
        last_hits: 250,
        denies: 12,
        gpm: 600,
        gold: 22200,
        xpm: 700,
        win: true,
        radiant: true,
        game_mode: GameMode::RankedMatchmaking,
        hero_damage: 30000,
        tower_damage: 4000,
        hero_healing: 150,
        level: 25,
        dire_score: 20,
        radiant_score: 30,
    }
}

fn rate_text(record: &PlayerPerformance) -> String {
    let rate = record.participation_rate;
    format!("{}", rate.numerator as f32 / rate.denominator as f32)
}

fn render(record: &PlayerPerformance, map: &HashMap<u32, String>) -> Result<String, Error> {
    record.to_wechat_string(map, &rate_text(record))
}

fn heroes() -> HashMap<u32, String> {
    let mut map = HashMap::new();
    map.insert(74, "祈求者".to_string());
    map.insert(5, "水晶室女".to_string());
    map
}

#[test]
fn summary_of_a_win() {
    let text = render(&record(), &heroes()).unwrap();
    assert_eq!(
        text,
        "欢迎使用看光光功能，下面是本次查询结果:\n\
         比赛模式：RankedMatchmaking\n\
         使用英雄：祈求者\n\
         比赛结果: 胜利，可惜了\n\
         本场表现: 10/3/5, 参战率: 0.5, gpm：600, xpm: 700, 等级：25, 总经济：22200\n\
         英雄伤害：30000, 建筑伤害：4000, 治疗：150"
    );
}

#[test]
fn summary_of_a_loss() {
    let mut lost = record();
    lost.win = false;
    lost.hero_id = 5;
    lost.game_mode = GameMode::TurboMode;
    lost.kills = 0;
    lost.deaths = 255;
    lost.assists = 1;
    lost.participation_rate = ParticipationRate { numerator: 1, denominator: 3 };
    lost.gpm = 0;
    lost.xpm = 4294967295;
    lost.level = 1;
    lost.gold = 0;
    lost.hero_damage = 7;
    lost.tower_damage = 0;
    lost.hero_healing = 4294967295;
    let text = render(&lost, &heroes()).unwrap();
    assert_eq!(
        text,
        "欢迎使用看光光功能，下面是本次查询结果:\n\
         比赛模式：TurboMode\n\
         使用英雄：水晶室女\n\
         比赛结果：失败！好好好\n\
         本场表现: 0/255/1, 参战率: 0.33333334, gpm：0, xpm: 4294967295, 等级：1, 总经济：0\n\
         英雄伤害：7, 建筑伤害：0, 治疗：4294967295"
    );
}

#[test]
fn summary_of_a_dire_win() {
    let played = PlayerPerformance {
        account_id: "5".to_string(),
        match_id: "7".to_string(),
        hero_id: 2,
        item_list: vec![1, 2, 3, 4, 5, 6, 7],
        kills: 3,
        deaths: 1,
        assists: 6,
        participation_rate: ParticipationRate { numerator: 9, denominator: 12 },
        last_hits: 50,
        denies: 4,
        gpm: 400,
        gold: 1000,
        xpm: 500,
        win: true,
        radiant: false,
        game_mode: GameMode::RankedMatchmaking,
        hero_damage: 10,
        tower_damage: 20,
        hero_healing: 30,
        level: 25,
        dire_score: 12,
        radiant_score: 36,
    };
    let mut map = HashMap::new();
    map.insert(2, "Axe".to_string());
    assert_eq!(rate_text(&played), "0.75");
    assert_eq!(
        render(&played, &map).unwrap(),
        "欢迎使用看光光功能，下面是本次查询结果:\n\
         比赛模式：RankedMatchmaking\n\
         使用英雄：Axe\n\
         比赛结果: 胜利，可惜了\n\
         本场表现: 3/1/6, 参战率: 0.75, gpm：400, xpm: 500, 等级：25, 总经济：1000\n\
         英雄伤害：10, 建筑伤害：20, 治疗：30"
    );
}

#[test]
fn summary_holds_the_rate_text_as_given() {
    let text = record().to_wechat_string(&heroes(), "").unwrap();
    assert_eq!(
        text.lines().nth(4).unwrap(),
        "本场表现: 10/3/5, 参战率: , gpm：600, xpm: 700, 等级：25, 总经济：22200"
    );
    let text = record().to_wechat_string(&heroes(), "一半").unwrap();
    assert!(text.contains(", 参战率: 一半, gpm：600,"));
    assert_eq!(
        record().to_wechat_string(&HashMap::new(), "0.5").unwrap_err(),
        Error::UnknownHero { hero_id: 74 }
    );
}

#[test]
fn summary_names_every_game_mode() {
    for (mode, name) in [
        (GameMode::AllPick, "AllPick"),
        (GameMode::RandomDraft, "RandomDraft"),
        (GameMode::RankedMatchmaking, "RankedMatchmaking"),
        (GameMode::TurboMode, "TurboMode"),
    ] {
        let mut played = record();
        played.game_mode = mode;
        let text = render(&played, &heroes()).unwrap();
        assert_eq!(text.lines().nth(1).unwrap(), format!("比赛模式：{}", name));
    }
}

#[test]
fn summary_refuses_an_unknown_hero() {
    let mut unknown = record();
    unknown.hero_id = 1000;
    assert_eq!(
        render(&unknown, &heroes()).unwrap_err(),
        Error::UnknownHero { hero_id: 1000 }
    );
    assert_eq!(
        render(&record(), &HashMap::new()).unwrap_err(),
        Error::UnknownHero { hero_id: 74 }
    );
}

#[test]
fn decimal_notation() {
    assert_eq!(decimal_string(0), "0");
    assert_eq!(decimal_string(7), "7");
    assert_eq!(decimal_string(10), "10");
    assert_eq!(decimal_string(1234567890), "1234567890");
    assert_eq!(decimal_string(18446744073709551615), "18446744073709551615");
    for n in [0u64, 9, 10, 99, 100, 101, 65535, 4294967296] {
        assert_eq!(decimal_string(n), n.to_string());
    }
}

#[test]
fn field_names() {
    assert_eq!(Field::Result.name(), "result");
    assert_eq!(Field::Error.name(), "error");
    assert_eq!(Field::Matches.name(), "matches");
    assert_eq!(Field::StartTime.name(), "start_time");
    assert_eq!(Field::Heroes.name(), "heroes");
    assert_eq!(Field::Id.name(), "id");
    assert_eq!(Field::LocalizedName.name(), "localized_name");
    assert_eq!(Field::GameMode.name(), "game_mode");
    assert_eq!(Field::DireScore.name(), "dire_score");
    assert_eq!(Field::RadiantScore.name(), "radiant_score");
    assert_eq!(Field::RadiantWin.name(), "radiant_win");
    assert_eq!(Field::MatchId.name(), "match_id");
    assert_eq!(Field::Players.name(), "players");
    assert_eq!(Field::AccountId.name(), "account_id");
    assert_eq!(Field::HeroId.name(), "hero_id");
    assert_eq!(Field::Kills.name(), "kills");
    assert_eq!(Field::Deaths.name(), "deaths");
    assert_eq!(Field::Assists.name(), "assists");
    assert_eq!(Field::GoldPerMin.name(), "gold_per_min");
    assert_eq!(Field::XpPerMin.name(), "xp_per_min");
    assert_eq!(Field::LastHits.name(), "last_hits");
    assert_eq!(Field::Denies.name(), "denies");
    assert_eq!(Field::HeroDamage.name(), "hero_damage");
    assert_eq!(Field::TowerDamage.name(), "tower_damage");
    assert_eq!(Field::HeroHealing.name(), "hero_healing");
    assert_eq!(Field::Level.name(), "level");
    assert_eq!(Field::Gold.name(), "gold");
    assert_eq!(Field::GoldSpent.name(), "gold_spent");
    assert_eq!(Field::TeamNumber.name(), "team_number");
    assert_eq!(Field::Item(0).name(), "item_0");
    assert_eq!(Field::Item(5).name(), "item_5");
    assert_eq!(Field::Item(12).name(), "item_12");
    assert_eq!(Field::ItemNeutral.name(), "item_neutral");
}

#[test]
fn field_limits() {
    assert_eq!(Field::Kills.max_number(), 255);
    assert_eq!(Field::Deaths.max_number(), 255);
    assert_eq!(Field::Assists.max_number(), 255);
    assert_eq!(Field::Level.max_number(), 255);
    assert_eq!(Field::HeroId.max_number(), 4294967295);
    assert_eq!(Field::Item(3).max_number(), 4294967295);
    assert_eq!(Field::AccountId.max_number(), 18446744073709551615);
    assert_eq!(Field::GameMode.max_number(), 18446744073709551615);
    assert_eq!(Field::TeamNumber.max_number(), 18446744073709551615);
}

#[test]
fn failures_describe_themselves() {
    assert_eq!(
        Error::Upstream { failure: UpstreamFailure::Network }.describe(),
        "Upstream request failed: no answer"
    );
    assert_eq!(
        Error::Upstream { failure: UpstreamFailure::Status { code: 503 } }.describe(),
        "Upstream request failed: status 503"
    );
    assert_eq!(
        Error::Upstream { failure: UpstreamFailure::Body }.describe(),
        "Upstream request failed: the answer is not JSON"
    );
    assert_eq!(
        Error::Upstream { failure: UpstreamFailure::Envelope { field: Field::Matches } }
            .describe(),
        "Upstream request failed: missing or mistyped field matches"
    );
    assert_eq!(Error::NotFound.describe(), "Match not found upstream");
    assert_eq!(Error::PlayerNotFound.describe(), "Failed to parse PlayerPerformance from value");
    assert_eq!(
        Error::InvalidGameMode { code: 99 }.describe(),
        "Unsupported game mode found: 99"
    );
    assert_eq!(
        Error::InvalidTeamNumber { number: 2 }.describe(),
        "Unexpected team number when parse player performance"
    );
    assert_eq!(
        Error::MalformedMatchData { field: Field::Item(4) }.describe(),
        "Missing or mistyped field in match data: item_4"
    );
    assert_eq!(Error::UnknownHero { hero_id: 130 }.describe(), "Unknown hero id: 130");
    assert_eq!(Error::NoMatchHistory.describe(), "No match history found for the account");
}

#[test]
fn app_error_is_a_500_with_the_description() {
    let error = AppError::from(Error::InvalidGameMode { code: 99 });
    assert_eq!(error, AppError(Error::InvalidGameMode { code: 99 }));
    assert_eq!(error.status(), 500);
    assert_eq!(error.body(), "Something went wrong: Unsupported game mode found: 99");
    let error: AppError = Error::PlayerNotFound.into();
    assert_eq!(error.status(), 500);
    assert_eq!(
        error.body(),
        "Something went wrong: Failed to parse PlayerPerformance from value"
    );
}

#[test]
fn only_a_status_of_success_is_no_failure() {
    for code in [200u16, 201, 204, 250, 299] {
        assert_eq!(UpstreamFailure::of_status(code), None);
    }
    for code in [0u16, 100, 199, 300, 301, 404, 500, 503, 65535] {
        assert_eq!(UpstreamFailure::of_status(code), Some(UpstreamFailure::Status { code }));
    }
}
