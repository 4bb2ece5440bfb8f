use http_api_problem::api_error::ApiError;
use http_api_problem::api_error::Cause;
use http_api_problem::status::StatusCode;

#[derive(Clone, Debug, PartialEq)]
struct TraceTag(u32);

#[test]
fn reserved_names_are_rejected_on_problems() {
    let mut p = http_api_problem::problem::HttpApiProblem::new("x");
    for name in ["type", "status", "title", "detail", "instance"] {
        let r = p.set_value(name, &1u64);
        let msg = r.unwrap_err();
        assert_eq!(msg, format!("'{}' is a reserved field name", name));
    }
    assert!(p.keys().is_empty());
}

#[test]
fn reserved_names_are_rejected_on_errors() {
    let mut e = ApiError::new(StatusCode::from_u16(400));
    for name in ["type", "status", "title", "detail", "instance"] {
        assert!(!e.add_field(name, &1u64));
        let msg = e.try_add_field(name, &true).unwrap_err();
        assert_eq!(msg, format!("'{}' is a reserved field name", name));
    }
    assert!(e.fields().is_empty());
}

#[test]
fn unauthorized_drops_every_extension_field() {
    let e = ApiError::builder(StatusCode::from_u16(401))
        .title("no entry")
        .message("token expired")
        .type_url("https://example.com/auth")
        .instance("/secrets/1")
        .field("user", &"mallory")
        .field("attempts", &3u64)
        .finish();
    assert_eq!(e.fields().len(), 2);

    let p = e.to_http_api_problem();
    assert!(p.keys().is_empty());
    assert_eq!(p.json_value("user"), None);
    assert_eq!(p.title, "no entry");
    assert_eq!(p.detail, Some("token expired".to_string()));
    assert_eq!(p.type_url, Some("https://example.com/auth".to_string()));
    assert_eq!(p.instance, Some("/secrets/1".to_string()));
    assert_eq!(p.status, Some(StatusCode::from_u16(401)));
}

#[test]
fn other_statuses_keep_extension_fields() {
    let e = ApiError::builder(StatusCode::from_u16(400))
        .field("user", &"mallory")
        .field("attempts", &3u64)
        .finish();
    let p = e.to_http_api_problem();
    assert_eq!(p.value::<String>("user"), Some("mallory".to_string()));
    assert_eq!(p.value::<u64>("attempts"), Some(3));
    assert_eq!(p.title, "Bad Request");
}

#[test]
fn detail_comes_from_the_cause_when_no_message_is_set() {
    let mut e = ApiError::new(StatusCode::from_u16(500));
    e.set_source(Cause::new("disk on fire"));
    assert_eq!(e.detail_message(), Some("disk on fire".to_string()));

    let p = e.to_http_api_problem();
    assert_eq!(p.detail, Some("disk on fire".to_string()));
}

#[test]
fn message_wins_over_the_cause() {
    let mut e = ApiError::new(StatusCode::from_u16(500));
    e.set_message("something broke");
    e.set_source(Cause::new("disk on fire"));
    assert_eq!(e.detail_message(), Some("something broke".to_string()));
}

#[test]
fn no_message_and_no_cause_means_no_detail() {
    let e = ApiError::new(StatusCode::from_u16(500));
    assert_eq!(e.detail_message(), None);
    let p = e.to_http_api_problem();
    assert_eq!(p.detail, None);
}

#[test]
fn display_prefers_title_and_detail_over_everything() {
    let e = ApiError::builder(StatusCode::from_u16(404))
        .title("Lost")
        .message("it is gone")
        .type_url("https://example.com/lost")
        .instance("/things/9")
        .finish();
    assert_eq!(e.display_string(), "404 Not Found - Lost - it is gone");
}

#[test]
fn display_falls_back_step_by_step() {
    let status = StatusCode::from_u16(404);
    let title_only = ApiError::builder(status).title("Lost").finish();
    assert_eq!(title_only.display_string(), "404 Not Found - Lost");

    let detail_only = ApiError::builder(status).message("it is gone").finish();
    assert_eq!(detail_only.display_string(), "404 Not Found - it is gone");

    let type_only = ApiError::builder(status).type_url("https://example.com/lost").finish();
    assert_eq!(type_only.display_string(), "404 Not Found of type https://example.com/lost");

    let instance_only = ApiError::builder(status).instance("/things/9").finish();
    assert_eq!(instance_only.display_string(), "404 Not Found on /things/9");

    let bare = ApiError::new(status);
    assert_eq!(bare.display_string(), "404 Not Found");
}

#[test]
fn display_message_falls_back_to_the_reason_phrase() {
    let mut e = ApiError::new(StatusCode::from_u16(404));
    assert_eq!(e.display_message(), "Not Found");
    e.set_message("it is gone");
    assert_eq!(e.display_message(), "it is gone");
}

#[test]
fn extensions_carry_typed_values_and_never_reach_the_problem() {
    let e = ApiError::builder(StatusCode::from_u16(500)).extension(TraceTag(7)).finish();
    assert_eq!(e.extensions().get::<TraceTag>(), Some(&TraceTag(7)));

    let p = e.to_http_api_problem();
    let text = p.json_string();
    assert!(!text.contains("TraceTag"));
    assert!(!text.contains("7"));
}

#[test]
fn builder_accumulates_every_attribute() {
    let e = ApiError::builder(StatusCode::from_u16(422))
        .title("Rejected")
        .message("three fields were missing")
        .type_url("https://example.com/rejected")
        .instance("/imports/77")
        .field("error_count", &3u64)
        .source(Cause::new("low level parse failure"))
        .finish();
    assert_eq!(e.status(), StatusCode::from_u16(422));
    assert_eq!(e.title(), Some("Rejected"));
    assert_eq!(e.message(), Some("three fields were missing"));
    assert_eq!(e.type_url(), Some("https://example.com/rejected"));
    assert_eq!(e.instance(), Some("/imports/77"));
    assert_eq!(e.fields().len(), 1);
    assert_eq!(e.source().unwrap().description, "low level parse failure");
}

#[test]
fn builder_field_replaces_same_name_and_drops_reserved() {
    let e = ApiError::builder(StatusCode::from_u16(400))
        .field("n", &1u64)
        .field("n", &2u64)
        .field("status", &9u64)
        .finish();
    let p = e.to_http_api_problem();
    assert_eq!(p.value::<u64>("n"), Some(2));
    assert_eq!(p.json_value("status"), None);
    assert_eq!(p.status, Some(StatusCode::from_u16(400)));
}

#[test]
fn try_builders_reject_wide_values() {
    assert!(ApiError::try_new(404).is_ok());
    assert!(ApiError::try_new(66000).is_err());
    assert!(ApiError::try_builder(500).is_ok());
    assert!(ApiError::try_builder(1 << 20).is_err());
    let b = ApiError::try_builder(200).unwrap();
    assert!(b.try_status(99999).is_err());
    let b2 = ApiError::try_builder(200).unwrap();
    assert_eq!(b2.try_status(503).unwrap().finish().status(), StatusCode::from_u16(503));
}

#[test]
fn setters_replace_fields_on_the_error() {
    let mut e = ApiError::new(StatusCode::from_u16(400));
    e.set_status(StatusCode::from_u16(410));
    e.set_title("Gone away");
    e.set_message("nothing here");
    e.set_type_url("https://example.com/gone");
    e.set_instance("/things/1");
    assert_eq!(e.status(), StatusCode::from_u16(410));
    assert_eq!(e.title(), Some("Gone away"));
    assert_eq!(e.message(), Some("nothing here"));
    assert_eq!(e.type_url(), Some("https://example.com/gone"));
    assert_eq!(e.instance(), Some("/things/1"));

    let p = e.into_http_api_problem();
    assert_eq!(p.title, "Gone away");
    assert_eq!(p.detail, Some("nothing here".to_string()));
    assert_eq!(p.type_url, Some("https://example.com/gone".to_string()));
    assert_eq!(p.instance, Some("/things/1".to_string()));
}

#[test]
fn fields_mut_allows_direct_edits() {
    let mut e = ApiError::new(StatusCode::from_u16(400));
    e.add_field("n", &1u64);
    e.fields_mut().clear();
    assert!(e.fields().is_empty());
}

#[test]
fn direct_constructors_preset_message_and_cause() {
    let status = StatusCode::from_u16(500);
    assert_eq!(ApiError::new(status).detail_message(), None);
    assert_eq!(
        ApiError::with_message(status, "broke").detail_message(),
        Some("broke".to_string())
    );
    assert_eq!(
        ApiError::with_source(status, Cause::new("root cause")).detail_message(),
        Some("root cause".to_string())
    );
    let both = ApiError::with_message_and_source(status, "broke", Cause::new("root cause"));
    assert_eq!(both.detail_message(), Some("broke".to_string()));
    assert_eq!(both.source().unwrap().description, "root cause");
}

#[test]
fn add_value_is_the_best_effort_problem_setter() {
    let mut p = http_api_problem::problem::HttpApiProblem::new("x");
    assert!(!p.add_value("status", &1u64));
    assert!(p.add_value("n", &1u64));
    assert_eq!(p.value::<u64>("n"), Some(1));
}

#[test]
fn unencodable_values_are_reported_or_skipped() {
    let mut bad_key_map: std::collections::HashMap<Vec<u8>, u64> = std::collections::HashMap::new();
    bad_key_map.insert(vec![1, 2], 3);

    let mut p = http_api_problem::problem::HttpApiProblem::new("x");
    assert!(p.set_value("m", &bad_key_map).is_err());
    assert!(!p.add_value("m", &bad_key_map));
    assert_eq!(p.json_value("m"), None);

    let mut e = ApiError::new(StatusCode::from_u16(500));
    assert!(e.try_add_field("m", &bad_key_map).is_err());
    assert!(!e.add_field("m", &bad_key_map));
    assert!(e.fields().is_empty());

    let e2 = ApiError::builder(StatusCode::from_u16(500)).field("m", &bad_key_map).finish();
    assert!(e2.fields().is_empty());
}

#[test]
fn too_deeply_nested_field_values_are_rejected_on_errors() {
    let mut v = serde_json::Value::from(0u64);
    for _ in 0..130 {
        v = serde_json::Value::Array(vec![v]);
    }
    let mut e = ApiError::new(StatusCode::from_u16(500));
    assert_eq!(
        e.try_add_field("levels", &v).unwrap_err(),
        "value nests too deeply for the wire"
    );
    assert!(!e.add_field("levels", &v));
    let b = ApiError::builder(StatusCode::from_u16(500)).field("levels", &v).finish();
    assert!(b.fields().is_empty());
}

#[test]
fn media_type_constant_is_problem_json() {
    assert_eq!(http_api_problem::PROBLEM_JSON_MEDIA_TYPE, "application/problem+json");
}
