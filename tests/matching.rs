use price_resolver::json::{get_member, get_number_price, get_text, get_text_price, Json};
use price_resolver::quote::{classify, Price};
use price_resolver::sources::{label_with_brand, pick_station};
use price_resolver::text::{contains, matches_folded, matches_station};

fn text(s: &str) -> Json {
    Json::Text(s.to_string())
}

fn num(s: &str) -> Json {
    Json::Number(s.to_string())
}

fn obj(members: Vec<(&str, Json)>) -> Json {
    Json::Object(members.into_iter().map(|(k, v)| (k.to_string(), v)).collect())
}

fn station(name: &str, brand: &str, e5: &str) -> Json {
    obj(vec![("name", text(name)), ("brand", text(brand)), ("e5", num(e5))])
}

#[test]
fn matching_ignores_case_on_all_sides() {
    assert!(matches_station("lenz", "Lenz Energie", "Lenz"));
    assert!(matches_station("LENZ", "lenz energie", ""));
    assert!(matches_station("Energie", "", "LENZ ENERGIE AG"));
    assert!(!matches_station("lenz", "Esso", "Esso"));
}

#[test]
fn folded_matching_is_exact_on_case() {
    assert!(matches_folded("lenz", "lenz energie", ""));
    assert!(!matches_folded("lenz", "Lenz Energie", "LENZ"));
    assert!(matches_folded("", "", ""));
}

#[test]
fn filter_picks_second_station() {
    let stations = vec![station("Esso", "Esso", "1.8"), station("Lenz Energie", "Lenz", "1.7")];
    let f = "lenz".to_string();
    assert_eq!(pick_station(Some(&f), &stations), Some(1));
}

#[test]
fn filter_pick_does_not_depend_on_order() {
    let stations = vec![station("Lenz Energie", "Lenz", "1.7"), station("Esso", "Esso", "1.8")];
    let f = "lenz".to_string();
    assert_eq!(pick_station(Some(&f), &stations), Some(0));
}

#[test]
fn filter_matches_brand_alone() {
    let stations = vec![station("Esso", "Esso", "1.8"), station("Tankstelle Nord", "LENZ", "1.7")];
    let f = "Lenz".to_string();
    assert_eq!(pick_station(Some(&f), &stations), Some(1));
}

#[test]
fn no_filter_picks_nearest() {
    let stations = vec![station("Esso", "Esso", "1.8"), station("Lenz Energie", "Lenz", "1.7")];
    assert_eq!(pick_station(None, &stations), Some(0));
    assert_eq!(pick_station(None, &vec![]), None);
}

#[test]
fn unmatched_filter_picks_nothing() {
    let stations = vec![station("Esso", "Esso", "1.8"), obj(vec![("e5", num("1.7"))])];
    let f = "aral".to_string();
    assert_eq!(pick_station(Some(&f), &stations), None);
}

#[test]
fn first_member_of_a_key_counts() {
    let j = obj(vec![("e5", num("1.5")), ("e5", num("1.6")), ("name", text("A"))]);
    assert_eq!(get_number_price(&j, "e5"), 1500);
    assert_eq!(get_text(&j, "name").map(|s| s.as_str()), Some("A"));
    assert!(get_member(&j, "e10").is_none());
    assert!(get_member(&text("x"), "e5").is_none());
}

#[test]
fn number_prices_read_numbers_only() {
    let j = obj(vec![
        ("a", num("1.799")),
        ("b", text("1.739")),
        ("c", Json::Bool(false)),
        ("d", num("-1.5")),
        ("e", Json::Null),
    ]);
    assert_eq!(get_number_price(&j, "a"), 1799);
    assert_eq!(get_number_price(&j, "b"), 0);
    assert_eq!(get_number_price(&j, "c"), 0);
    assert_eq!(get_number_price(&j, "d"), 0);
    assert_eq!(get_number_price(&j, "e"), 0);
    assert_eq!(get_number_price(&j, "missing"), 0);
}

#[test]
fn text_prices_read_strings_only() {
    let j = obj(vec![("a", num("1.799")), ("b", text("1.739")), ("c", text("n/a"))]);
    assert_eq!(get_text_price(&j, "a"), 0);
    assert_eq!(get_text_price(&j, "b"), 1739);
    assert_eq!(get_text_price(&j, "c"), 0);
    assert_eq!(get_text_price(&j, "missing"), 0);
}

#[test]
fn contains_finds_contiguous_runs() {
    assert!(contains("lenz energie", "lenz"));
    assert!(contains("lenz energie", "energie"));
    assert!(contains("lenz", "lenz"));
    assert!(contains("abc", ""));
    assert!(contains("", ""));
    assert!(contains("tankstelle süd", "süd"));
    assert!(!contains("lenz", "lenz energie"));
    assert!(!contains("l e n z", "lenz"));
    assert!(!contains("", "a"));
}

#[test]
fn labels_join_brand_and_name() {
    assert_eq!(label_with_brand("Lenz", "Lenz Energie"), "Lenz Lenz Energie");
    assert_eq!(label_with_brand("", "Lenz Energie"), "Lenz Energie");
    assert_eq!(label_with_brand("Lenz", ""), "Lenz");
    assert_eq!(label_with_brand("", ""), "");
}

#[test]
fn prices_are_classified() {
    assert_eq!(classify(1799), Price::Available(1799));
    assert_eq!(classify(0), Price::Unavailable);
}
