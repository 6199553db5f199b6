use data_backs::date::utc_date;
use data_backs::filename::{build_dated_filename, build_named_filename, relative_path};
use data_backs::json::pretty_text;
use serde_json::Value;

fn json(text: &str) -> Value {
    serde_json::from_str(text).unwrap()
}

#[test]
fn a_payload_is_written_indented() {
    assert_eq!(pretty_text(&json("{\"cpu\":0.5}")), Some("{\n  \"cpu\": 0.5\n}".to_string()));
    assert_eq!(pretty_text(&json("{\"a\":1}")), Some("{\n  \"a\": 1\n}".to_string()));
    assert_eq!(pretty_text(&json("[1,2]")), Some("[\n  1,\n  2\n]".to_string()));
    assert_eq!(pretty_text(&json("null")), Some("null".to_string()));
    assert_eq!(pretty_text(&json("\"a\\\"b\"")), Some("\"a\\\"b\"".to_string()));
}

#[test]
fn the_text_of_a_payload_depends_on_the_value_alone() {
    let spaced = json(" { \"b\" : [ 1 , 2 ] , \"a\" : null } ");
    let dense = json("{\"b\":[1,2],\"a\":null}");
    assert_eq!(spaced, dense);
    assert_eq!(pretty_text(&spaced), pretty_text(&dense));
}

#[test]
fn a_payload_stored_under_the_date_alone() {
    let payload = json("{\"cpu\":0.5}");
    let date = utc_date(1_704_067_200).unwrap();
    let filename = build_dated_filename(&date);
    assert_eq!(filename, "2024-01-01.json");
    assert_eq!(relative_path(&filename), "data/2024-01-01.json");
    let content = pretty_text(&payload).unwrap();
    assert_eq!(json(&content), payload);
}

#[test]
fn a_payload_stored_under_name_and_date() {
    let payload = json("{\"cpu\":0.5}");
    let date = utc_date(1_704_067_200).unwrap();
    let filename = build_named_filename("metrics", &date);
    assert_eq!(relative_path(&filename), "data/metrics-2024-01-01.json");
    assert_eq!(json(&pretty_text(&payload).unwrap()), payload);
}
