use data_backs::handler::{
    display_address, finish_save, home, plan_write, save_data, Response, SaveError, WritePlan,
    STATUS_BAD_REQUEST, STATUS_INTERNAL_SERVER_ERROR, STATUS_OK,
};
use serde_json::Value;
use std::collections::HashMap;

const NEW_YEAR_2024: u64 = 1_704_067_200;

fn json(text: &str) -> Value {
    serde_json::from_str(text).unwrap()
}

fn carry_out(files: &mut HashMap<String, String>, plan: &WritePlan) {
    files.insert(plan.path.clone(), plan.content.clone());
}

#[test]
fn the_root_serves_the_usage_text() {
    let response = home();
    assert_eq!(response.status, 200);
    assert_eq!(
        response.body,
        "this is a home page of data backs. pass data to /data/:name with JSON body to save it"
    );
}

#[test]
fn status_codes_are_those_of_http() {
    assert_eq!(STATUS_OK, 200);
    assert_eq!(STATUS_BAD_REQUEST, 400);
    assert_eq!(STATUS_INTERNAL_SERVER_ERROR, 500);
    assert_eq!(Response::ok("x".to_string()), Response { status: 200, body: "x".to_string() });
}

#[test]
fn a_valid_request_plans_its_file() {
    let payload = json("{\"cpu\":0.5}");
    let plan = save_data("metrics", "203.0.113.5", &payload, NEW_YEAR_2024).unwrap();
    assert_eq!(plan.filename, "metrics-2024-01-01-203_0_113_5.json");
    assert_eq!(plan.path, "data/metrics-2024-01-01-203_0_113_5.json");
    assert_eq!(plan.content, "{\n  \"cpu\": 0.5\n}");
    assert_eq!(json(&plan.content), payload);
}

#[test]
fn a_written_file_is_confirmed_by_its_name() {
    let payload = json("{\"cpu\":0.5}");
    let plan = save_data("metrics", "203.0.113.5", &payload, NEW_YEAR_2024).unwrap();
    let response = finish_save(&plan.filename, true);
    assert_eq!(response.status, 200);
    assert_eq!(response.body, "{\"filename\":\"metrics-2024-01-01-203_0_113_5.json\"}");
    assert_eq!(
        json(&response.body).get("filename").and_then(Value::as_str),
        Some("metrics-2024-01-01-203_0_113_5.json")
    );
}

#[test]
fn a_file_name_is_escaped_in_the_confirmation() {
    let response = finish_save("a\"b\\c\n.json", true);
    assert_eq!(response.status, 200);
    assert_eq!(response.body, "{\"filename\":\"a\\\"b\\\\c\\n.json\"}");
    assert_eq!(json(&response.body).get("filename").and_then(Value::as_str), Some("a\"b\\c\n.json"));
}

#[test]
fn a_file_that_was_not_written_is_a_server_error() {
    let response = finish_save("metrics-2024-01-01-203_0_113_5.json", false);
    assert_eq!(response.status, 500);
    assert_eq!(response.body, "Internal Server Error");
    assert_eq!(response, SaveError::Write.response());
}

#[test]
fn an_invalid_name_is_a_bad_request() {
    let payload = json("{\"cpu\":0.5}");
    let plan = save_data("bad name!", "203.0.113.5", &payload, NEW_YEAR_2024);
    assert_eq!(plan, Err(SaveError::InvalidName));
    let response = SaveError::InvalidName.response();
    assert_eq!(response.status, 400);
    assert_eq!(response.body, "Invalid name");
}

#[test]
fn an_invalid_name_is_rejected_whatever_else_fails() {
    let payload = json("null");
    assert_eq!(save_data("a/b", "", &payload, i64::MAX as u64), Err(SaveError::InvalidName));
    assert_eq!(save_data("a.b", "x", &payload, 0), Err(SaveError::InvalidName));
    assert_eq!(save_data("../etc", "x", &payload, 0), Err(SaveError::InvalidName));
}

#[test]
fn an_instant_without_a_date_is_a_timestamp_error() {
    let payload = json("{}");
    let plan = save_data("metrics", "203.0.113.5", &payload, i64::MAX as u64);
    assert_eq!(plan, Err(SaveError::Timestamp));
    let response = SaveError::Timestamp.response();
    assert_eq!(response.status, 500);
    assert_eq!(response.body, "Internal Server Error");
}

#[test]
fn a_plan_needs_file_name_and_content() {
    assert_eq!(plan_write(None, Some("{}".to_string())), Err(SaveError::Timestamp));
    assert_eq!(plan_write(None, None), Err(SaveError::Timestamp));
    assert_eq!(plan_write(Some("a.json".to_string()), None), Err(SaveError::Serialize));
    assert_eq!(
        plan_write(Some("a.json".to_string()), Some("{}".to_string())),
        Ok(WritePlan {
            filename: "a.json".to_string(),
            path: "data/a.json".to_string(),
            content: "{}".to_string(),
        })
    );
    let response = SaveError::Serialize.response();
    assert_eq!(response.status, 500);
    assert_eq!(response.body, "Internal Server Error");
}

#[test]
fn the_stored_text_reads_back_as_the_payload() {
    let payload = json("{\"a\":1}");
    let plan = save_data("widget", "198.51.100.7", &payload, NEW_YEAR_2024).unwrap();
    assert_eq!(plan.filename, "widget-2024-01-01-198_51_100_7.json");
    assert_eq!(plan.content, "{\n  \"a\": 1\n}");
    assert_eq!(json(&plan.content), payload);
}

#[test]
fn payloads_of_any_shape_read_back_as_they_were() {
    let texts = [
        "null",
        "true",
        "12",
        "-0.25",
        "\"text with \\\"quotes\\\" and \\n\"",
        "[]",
        "{}",
        "[1,[2,[3,{\"k\":[null,false]}]]]",
        "{\"b\":{\"c\":[1,2,3]},\"a\":\"é\"}",
    ];
    for text in texts {
        let payload = json(text);
        let plan = save_data("any", "::1", &payload, NEW_YEAR_2024).unwrap();
        assert_eq!(json(&plan.content), payload, "{}", text);
    }
}

#[test]
fn payloads_are_indented_by_two_spaces() {
    let payload = json("{\"b\":{\"c\":[1,2]},\"a\":\"x\"}");
    let plan = save_data("any", "::1", &payload, NEW_YEAR_2024).unwrap();
    assert_eq!(
        plan.content,
        "{\n  \"a\": \"x\",\n  \"b\": {\n    \"c\": [\n      1,\n      2\n    ]\n  }\n}"
    );
    assert_eq!(save_data("any", "::1", &json("[]"), 0).unwrap().content, "[]");
    assert_eq!(save_data("any", "::1", &json("\"s\""), 0).unwrap().content, "\"s\"");
}

#[test]
fn a_later_save_on_the_same_date_replaces_the_earlier() {
    let earlier = json("{\"cpu\":0.5}");
    let later = json("{\"cpu\":0.75,\"mem\":[1,2]}");
    let first = save_data("metrics", "203.0.113.5", &earlier, NEW_YEAR_2024 + 10).unwrap();
    let second = save_data("metrics", "203.0.113.5", &later, NEW_YEAR_2024 + 80_000).unwrap();
    assert_eq!(first.path, second.path);
    assert_eq!(first.filename, second.filename);

    let mut files = HashMap::new();
    carry_out(&mut files, &first);
    carry_out(&mut files, &second);
    assert_eq!(files.len(), 1);
    assert_eq!(json(&files[&second.path]), later);
    assert_eq!(files[&second.path], "{\n  \"cpu\": 0.75,\n  \"mem\": [\n    1,\n    2\n  ]\n}");
}

#[test]
fn saves_on_different_dates_are_kept_apart() {
    let earlier = json("{\"cpu\":0.5}");
    let later = json("{\"cpu\":0.75}");
    let first = save_data("metrics", "203.0.113.5", &earlier, NEW_YEAR_2024).unwrap();
    let second = save_data("metrics", "203.0.113.5", &later, NEW_YEAR_2024 + 86_400).unwrap();
    assert_eq!(first.path, "data/metrics-2024-01-01-203_0_113_5.json");
    assert_eq!(second.path, "data/metrics-2024-01-02-203_0_113_5.json");

    let mut files = HashMap::new();
    carry_out(&mut files, &first);
    carry_out(&mut files, &second);
    assert_eq!(files.len(), 2);
    assert_eq!(json(&files[&first.path]), earlier);
    assert_eq!(json(&files[&second.path]), later);
}

#[test]
fn saves_from_different_addresses_are_kept_apart() {
    let payload = json("1");
    let first = save_data("metrics", "203.0.113.5", &payload, NEW_YEAR_2024).unwrap();
    let second = save_data("metrics", "203.0.113.6", &payload, NEW_YEAR_2024).unwrap();
    assert_ne!(first.path, second.path);
}

#[test]
fn the_shown_address_is_the_forwarded_one_or_none() {
    assert_eq!(display_address(Some("203.0.113.5")), "203.0.113.5");
    assert_eq!(display_address(Some("203.0.113.5, 70.41.3.18")), "203.0.113.5, 70.41.3.18");
    assert_eq!(display_address(Some("")), "");
    assert_eq!(display_address(None), "none");
}
