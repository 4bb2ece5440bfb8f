use http_api_problem::problem::HttpApiProblem;
use http_api_problem::problem::ParseProblemError;
use http_api_problem::status::StatusCode;

#[test]
fn should_serialize_status_present_correctly() {
    let prob = HttpApiProblem::with_title_from_status(StatusCode::from_u16(404));

    let sample: serde_json::Value = serde_json::from_str(&prob.json_string()).unwrap();
    let expected: serde_json::Value =
        serde_json::from_str(r#"{"title": "Not Found", "status": 404}"#).unwrap();

    assert_eq!(sample, expected);
}

#[test]
fn should_serialize_status_apsent_correctly() {
    let prob = HttpApiProblem::new("foo");

    let sample: serde_json::Value = serde_json::from_str(&prob.json_string()).unwrap();
    let expected: serde_json::Value = serde_json::from_str(r#"{"title": "foo"}"#).unwrap();

    assert_eq!(sample, expected);
}

#[test]
fn deserialize_status_present() {
    let json = r#"{"title": "foo", "status": 500}"#;

    let prob = HttpApiProblem::from_json_str(json).unwrap();

    assert_eq!(prob.status, Some(StatusCode::from_u16(500)));
}

#[test]
fn deserialize_status_apsent() {
    let json = r#"{"title": "foo"}"#;

    let prob = HttpApiProblem::from_json_str(json).unwrap();

    assert_eq!(prob.status, None);
}

#[test]
fn deserialize_status_null() {
    let json = r#"{"title": "foo", "status": null}"#;

    let prob = HttpApiProblem::from_json_str(json).unwrap();

    assert_eq!(prob.status, None);
}

#[test]
fn serialize_title_only_is_exactly_one_member() {
    let prob = HttpApiProblem::new("foo");
    assert_eq!(prob.json_string(), r#"{"title":"foo"}"#);
}

#[test]
fn serialize_bytes_match_text() {
    let prob = HttpApiProblem::new("foo").set_detail("why");
    let text = prob.json_string();
    let parsed_from_bytes: serde_json::Value =
        serde_json::from_slice(&prob.json_bytes()).unwrap();
    let parsed_from_text: serde_json::Value = serde_json::from_str(&text).unwrap();
    assert_eq!(parsed_from_bytes, parsed_from_text);
}

#[test]
fn deserialize_unregistered_status_round_trips() {
    let prob = HttpApiProblem::from_json_str(r#"{"title": "foo", "status": 99}"#).unwrap();
    assert_eq!(prob.status, Some(StatusCode::from_u16(99)));
}

#[test]
fn deserialize_out_of_range_status_falls_back_to_500() {
    let prob = HttpApiProblem::from_json_str(r#"{"title": "foo", "status": 70000}"#).unwrap();
    assert_eq!(prob.status, Some(StatusCode::from_u16(500)));
}

#[test]
fn deserialize_negative_status_falls_back_to_500() {
    let prob = HttpApiProblem::from_json_str(r#"{"title": "foo", "status": -5}"#).unwrap();
    assert_eq!(prob.status, Some(StatusCode::from_u16(500)));
}

#[test]
fn deserialize_non_numeric_status_is_an_error() {
    let r = HttpApiProblem::from_json_str(r#"{"title": "foo", "status": "broken"}"#);
    assert!(matches!(r, Err(ParseProblemError::InvalidStatus)));
}

#[test]
fn deserialize_float_status_is_an_error() {
    let r = HttpApiProblem::from_json_str(r#"{"title": "foo", "status": 4.5}"#);
    assert!(matches!(r, Err(ParseProblemError::InvalidStatus)));
}

#[test]
fn deserialize_missing_title_is_an_error() {
    let r = HttpApiProblem::from_json_str(r#"{"status": 404}"#);
    assert!(matches!(r, Err(ParseProblemError::MissingTitle)));
}

#[test]
fn deserialize_non_string_title_is_an_error() {
    let r = HttpApiProblem::from_json_str(r#"{"title": 5}"#);
    assert!(matches!(r, Err(ParseProblemError::InvalidTitle)));
}

#[test]
fn deserialize_non_string_type_is_an_error() {
    let r = HttpApiProblem::from_json_str(r#"{"title": "foo", "type": 1}"#);
    assert!(matches!(r, Err(ParseProblemError::InvalidTypeUrl)));
}

#[test]
fn deserialize_non_string_detail_is_an_error() {
    let r = HttpApiProblem::from_json_str(r#"{"title": "foo", "detail": false}"#);
    assert!(matches!(r, Err(ParseProblemError::InvalidDetail)));
}

#[test]
fn deserialize_non_string_instance_is_an_error() {
    let r = HttpApiProblem::from_json_str(r#"{"title": "foo", "instance": 3}"#);
    assert!(matches!(r, Err(ParseProblemError::InvalidInstance)));
}

#[test]
fn deserialize_non_object_is_an_error() {
    let r = HttpApiProblem::from_json_str("[1, 2, 3]");
    assert!(matches!(r, Err(ParseProblemError::NotAnObject)));
}

#[test]
fn json_object_holds_exactly_the_wire_members() {
    let mut prob = HttpApiProblem::with_title_from_status(StatusCode::from_u16(400));
    prob.set_value("n", &1u64).unwrap();
    let obj = prob.to_json_object();
    assert_eq!(obj.len(), 3);
    assert_eq!(obj.get("title"), Some(&serde_json::Value::from("Bad Request")));
    assert_eq!(obj.get("status"), Some(&serde_json::Value::from(400u64)));
    assert_eq!(obj.get("n"), Some(&serde_json::Value::from(1u64)));
}

#[test]
fn problem_can_be_read_from_a_json_object() {
    let mut obj = serde_json::Map::new();
    obj.insert("title".to_string(), serde_json::Value::from("foo"));
    obj.insert("count".to_string(), serde_json::Value::from(2u64));
    let prob = HttpApiProblem::from_json_object(obj).unwrap();
    assert_eq!(prob.title, "foo");
    assert_eq!(prob.value::<u64>("count"), Some(2));
    assert_eq!(prob.status, None);
}

#[test]
fn round_trip_keeps_every_field() {
    let mut prob = HttpApiProblem::with_title_and_type_from_status(StatusCode::from_u16(422))
        .set_detail("three fields were missing")
        .set_instance("/imports/77");
    prob.set_value("error_count", &3u64).unwrap();
    prob.set_value("hint", &"send all three").unwrap();

    let text = prob.json_string();
    let back = HttpApiProblem::from_json_str(&text).unwrap();

    assert_eq!(back.title, "Unprocessable Entity");
    assert_eq!(back.status, Some(StatusCode::from_u16(422)));
    assert_eq!(back.type_url, Some("https://httpstatuses.com/422".to_string()));
    assert_eq!(back.detail, Some("three fields were missing".to_string()));
    assert_eq!(back.instance, Some("/imports/77".to_string()));
    assert_eq!(back.value::<u64>("error_count"), Some(3));
    assert_eq!(back.value::<String>("hint"), Some("send all three".to_string()));
    assert_eq!(back.json_string(), text);
}

fn nested_value(levels: usize) -> serde_json::Value {
    let mut v = serde_json::Value::from(0u64);
    for _ in 0..levels {
        v = serde_json::Value::Array(vec![v]);
    }
    v
}

#[test]
fn too_deeply_nested_values_are_rejected() {
    let mut p = HttpApiProblem::new("deep");
    let r = p.set_value("levels", &nested_value(130));
    assert_eq!(r.unwrap_err(), "value nests too deeply for the wire");
    assert!(p.keys().is_empty());
    assert!(!p.add_value("levels", &nested_value(200)));
}

#[test]
fn moderately_nested_values_round_trip() {
    let mut p = HttpApiProblem::new("deep");
    p.set_value("levels", &nested_value(50)).unwrap();
    let text = p.json_string();
    let back = HttpApiProblem::from_json_str(&text).unwrap();
    assert_eq!(back.json_value("levels"), Some(&nested_value(50)));
    assert_eq!(back.json_string(), text);
}

#[test]
fn float_values_round_trip_exactly() {
    let samples: Vec<f64> = vec![
        51.248178375505404,
        -93.31137037688033,
        -36.573994842753436,
        97.45365320034685,
        2.0030397744267762e-253,
        7.101215824554616e260,
        2.2250738585072014e-308,
    ];
    for (i, f) in samples.iter().enumerate() {
        let mut p = HttpApiProblem::new("floats");
        p.set_value("f", f).unwrap();
        let text = p.json_string();
        let back = HttpApiProblem::from_json_str(&text).unwrap();
        assert_eq!(back.value::<f64>("f"), Some(*f), "sample {}", i);
        assert_eq!(back.json_string(), text, "sample {}", i);
    }
}

#[test]
fn json_bytes_are_the_utf8_of_json_string() {
    let mut p = HttpApiProblem::new("b\u{00e4}m").set_detail("utf-8 \u{2713}");
    p.set_value("n", &1u64).unwrap();
    assert_eq!(p.json_bytes(), p.json_string().into_bytes());
}

#[test]
fn round_trip_keeps_absent_fields_absent() {
    let prob = HttpApiProblem::new("bare");
    let back = HttpApiProblem::from_json_str(&prob.json_string()).unwrap();
    assert_eq!(back.title, "bare");
    assert_eq!(back.status, None);
    assert_eq!(back.type_url, None);
    assert_eq!(back.detail, None);
    assert_eq!(back.instance, None);
    assert!(back.keys().is_empty());
}
