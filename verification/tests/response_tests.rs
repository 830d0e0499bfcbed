use cider_rpc::response::bad_request;
use cider_rpc::response::get_rating_outcome;
use cider_rpc::response::info_body;
use cider_rpc::response::json_ok;
use cider_rpc::response::no_content;
use cider_rpc::response::not_found;
use cider_rpc::response::opt_bool_body;
use cider_rpc::response::set_rating_outcome;
use cider_rpc::response::value_body;
use cider_rpc::response::value_status;
use cider_rpc::response::Body;
use serde_json::Value;

fn json(text: &str) -> Value {
    serde_json::from_str(text).expect("test value must parse")
}

#[test]
fn plain_outcomes_have_their_statuses() {
    let r = no_content();
    assert_eq!(r.status, 204);
    assert!(matches!(r.body, Body::Empty));
    assert!(!r.cors);
    let r = not_found();
    assert_eq!(r.status, 404);
    assert!(matches!(r.body, Body::Empty));
    let r = bad_request();
    assert_eq!(r.status, 400);
    let r = json_ok("{}".to_string());
    assert_eq!(r.status, 200);
    assert!(r.cors);
    assert!(matches!(r.body, Body::Json { ref text } if text == "{}"));
}

#[test]
fn value_body_renders_compact_json() {
    let v = json("{\"a\": 1, \"b\": [true, null]}");
    assert_eq!(value_body(&v), "{\"a\":1,\"b\":[true,null]}");
}

#[test]
fn info_body_wraps_the_value() {
    let v = json("{\"name\": \"x\"}");
    assert_eq!(info_body(&v), "{\"info\":{\"name\":\"x\"}}");
    let n = json("5");
    assert_eq!(info_body(&n), "{\"info\":5}");
}

#[test]
fn opt_bool_body_renders_all_three_cases() {
    assert_eq!(opt_bool_body("is_playing", Some(true)), "{\"is_playing\":true}");
    assert_eq!(opt_bool_body("is_playing", Some(false)), "{\"is_playing\":false}");
    assert_eq!(opt_bool_body("autoplay", None), "{\"autoplay\":null}");
}

#[test]
fn value_status_reads_the_code_member() {
    assert_eq!(value_status(&json("{\"code\": 404}")), 404);
    assert_eq!(value_status(&json("{\"code\": 204, \"x\": 1}")), 204);
    assert_eq!(value_status(&json("{}")), 200);
    assert_eq!(value_status(&json("{\"code\": \"hi\"}")), 200);
    assert_eq!(value_status(&json("{\"code\": -3}")), 200);
    assert_eq!(value_status(&json("[1, 2]")), 200);
    assert_eq!(value_status(&json("null")), 200);
}

#[test]
fn value_status_truncates_large_codes() {
    assert_eq!(value_status(&json("{\"code\": 65737}")), 201);
    assert_eq!(value_status(&json("{\"code\": 65536}")), 0);
}

#[test]
fn set_rating_passes_the_code_through() {
    let v = json("{\"code\": 418, \"detail\": \"rated\"}");
    let r = set_rating_outcome(5, Some(&v));
    assert_eq!(r.status, 418);
    assert!(r.cors);
    assert!(matches!(r.body, Body::Json { ref text } if *text == v.to_string()));
}

#[test]
fn set_rating_without_code_answers_ok() {
    let v = json("{\"detail\": \"rated\"}");
    let r = set_rating_outcome(1, Some(&v));
    assert_eq!(r.status, 200);
}

#[test]
fn set_rating_unset_without_result_is_no_content() {
    let r = set_rating_outcome(0, None);
    assert_eq!(r.status, 204);
    assert!(matches!(r.body, Body::Empty));
    assert!(!r.cors);
}

#[test]
fn set_rating_nonzero_without_result_fails() {
    for rating in [1i8, -1, 5, -128, 127] {
        let r = set_rating_outcome(rating, None);
        assert_eq!(r.status, 500);
        assert!(matches!(r.body, Body::Text { ref text } if text == "Unable to Set Rating"));
        assert!(!r.cors);
    }
}

#[test]
fn get_rating_passes_the_result_through() {
    let v = json("{\"code\": 200, \"rating\": 3}");
    let r = get_rating_outcome(Some(&v));
    assert_eq!(r.status, 200);
    assert!(r.cors);
    assert!(matches!(r.body, Body::Json { ref text } if *text == v.to_string()));
}

#[test]
fn get_rating_without_result_fails() {
    let r = get_rating_outcome(None);
    assert_eq!(r.status, 500);
    assert!(matches!(r.body, Body::Text { ref text } if text == "Unable to Get Rating"));
    assert!(!r.cors);
}
