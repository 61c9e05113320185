use courier::decode::{read_flag, read_label, read_list, read_member, read_number, read_text};
use courier::error::Field;
use courier::lookup::position;
use serde_json::Value;

fn document() -> Value {
    serde_json::from_str(
        r#"{
            "kills": 255, "deaths": 256, "assists": -1, "level": 2.5,
            "hero_id": 4294967295, "gold": 4294967296,
            "account_id": 18446744073709551615,
            "radiant_win": false, "match_id": "7131970019", "start_time": 1682171694,
            "localized_name": "祈求者", "players": [1, "two", null], "item_3": 0,
            "error": null
        }"#,
    )
    .unwrap()
}

#[test]
fn members_are_found_by_their_key() {
    let doc = document();
    assert_eq!(read_member(&doc, Field::Kills), Some(&Value::from(255)));
    assert_eq!(read_member(&doc, Field::Item(3)), Some(&Value::from(0)));
    assert_eq!(read_member(&doc, Field::Error), Some(&Value::Null));
    assert_eq!(read_member(&doc, Field::Item(4)), None);
    assert_eq!(read_member(&doc, Field::Denies), None);
    assert_eq!(read_member(&doc["players"], Field::Kills), None);
    assert_eq!(read_member(&Value::from("kills"), Field::Kills), None);
}

#[test]
fn numbers_are_read_within_the_limit_of_the_member() {
    let doc = document();
    assert_eq!(read_number(&doc, Field::Kills), Some(255));
    assert_eq!(read_number(&doc, Field::Deaths), None);
    assert_eq!(read_number(&doc, Field::Assists), None);
    assert_eq!(read_number(&doc, Field::Level), None);
    assert_eq!(read_number(&doc, Field::HeroId), Some(4294967295));
    assert_eq!(read_number(&doc, Field::Gold), None);
    assert_eq!(read_number(&doc, Field::AccountId), Some(18446744073709551615));
    assert_eq!(read_number(&doc, Field::Item(3)), Some(0));
    assert_eq!(read_number(&doc, Field::MatchId), None);
    assert_eq!(read_number(&doc, Field::RadiantWin), None);
    assert_eq!(read_number(&doc, Field::Denies), None);
}

#[test]
fn flags_lists_and_strings_are_read_by_type() {
    let doc = document();
    assert_eq!(read_flag(&doc, Field::RadiantWin), Some(false));
    assert_eq!(read_flag(&doc, Field::Kills), None);
    assert_eq!(read_flag(&doc, Field::Error), None);
    assert_eq!(read_flag(&doc, Field::Denies), None);
    assert_eq!(
        read_list(&doc, Field::Players),
        Some(&vec![Value::from(1), Value::from("two"), Value::Null])
    );
    assert_eq!(read_list(&doc, Field::MatchId), None);
    assert_eq!(read_list(&doc, Field::Heroes), None);
    assert_eq!(read_text(&doc, Field::LocalizedName), Some("祈求者"));
    assert_eq!(read_text(&doc, Field::MatchId), Some("7131970019"));
    assert_eq!(read_text(&doc, Field::StartTime), None);
    assert_eq!(read_text(&doc, Field::Id), None);
}

#[test]
fn labels_are_numbers_in_decimal_or_strings() {
    let doc = document();
    assert_eq!(read_label(&doc, Field::MatchId), Some("7131970019".to_string()));
    assert_eq!(read_label(&doc, Field::StartTime), Some("1682171694".to_string()));
    assert_eq!(read_label(&doc, Field::AccountId), Some("18446744073709551615".to_string()));
    assert_eq!(read_label(&doc, Field::Item(3)), Some("0".to_string()));
    assert_eq!(read_label(&doc, Field::LocalizedName), Some("祈求者".to_string()));
    assert_eq!(read_label(&doc, Field::Assists), None);
    assert_eq!(read_label(&doc, Field::Level), None);
    assert_eq!(read_label(&doc, Field::RadiantWin), None);
    assert_eq!(read_label(&doc, Field::Players), None);
    assert_eq!(read_label(&doc, Field::Error), None);
    assert_eq!(read_label(&doc, Field::Denies), None);
}

#[test]
fn position_is_the_first_place_of_a_key() {
    let keys = vec!["b".to_string(), "a".to_string(), "".to_string(), "a".to_string()];
    assert_eq!(position(&keys, "b"), Some(0));
    assert_eq!(position(&keys, "a"), Some(1));
    assert_eq!(position(&keys, ""), Some(2));
    assert_eq!(position(&keys, "c"), None);
    assert_eq!(position(&Vec::new(), "a"), None);
}
