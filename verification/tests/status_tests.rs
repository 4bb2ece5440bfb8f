use http_api_problem::problem::HttpApiProblem;
use http_api_problem::status::InvalidStatusCode;
use http_api_problem::status::StatusClass;
use http_api_problem::status::StatusCode;

#[test]
fn registered_codes_keep_their_value_and_phrase() {
    let samples: Vec<(u16, &str)> = vec![
        (100, "Continue"),
        (200, "OK"),
        (304, "Not Modified"),
        (404, "Not Found"),
        (418, "I'm a teapot"),
        (428, "Precondition Required"),
        (503, "Service Unavailable"),
    ];
    for (code, phrase) in samples {
        let status = StatusCode::from_u16(code);
        assert_eq!(status.as_u16(), code);
        assert_eq!(status.reason_phrase(), phrase);
    }
}

#[test]
fn unregistered_codes_get_a_class_phrase() {
    assert_eq!(StatusCode::from_u16(150).reason_phrase(), "Unregistered Informational");
    assert_eq!(StatusCode::from_u16(250).reason_phrase(), "Unregistered Success");
    assert_eq!(StatusCode::from_u16(306).reason_phrase(), "Unregistered Redirection");
    assert_eq!(StatusCode::from_u16(430).reason_phrase(), "Unregistered Client Error");
    assert_eq!(StatusCode::from_u16(599).reason_phrase(), "Unregistered Server Error");
    assert_eq!(StatusCode::from_u16(99).reason_phrase(), "Unregistered Status Code");
    assert_eq!(StatusCode::from_u16(700).reason_phrase(), "Unregistered Status Code");
}

#[test]
fn classification_follows_the_hundreds_digit() {
    assert_eq!(StatusCode::from_u16(101).class(), StatusClass::Informational);
    assert_eq!(StatusCode::from_u16(204).class(), StatusClass::Success);
    assert_eq!(StatusCode::from_u16(308).class(), StatusClass::Redirection);
    assert_eq!(StatusCode::from_u16(404).class(), StatusClass::ClientError);
    assert_eq!(StatusCode::from_u16(500).class(), StatusClass::ServerError);
    assert_eq!(StatusCode::from_u16(0).class(), StatusClass::Unclassified);
    assert_eq!(StatusCode::from_u16(999).class(), StatusClass::Unclassified);
}

#[test]
fn status_renders_value_and_phrase() {
    assert_eq!(StatusCode::from_u16(404).display_text(), "404 Not Found");
    assert_eq!(StatusCode::from_u16(65535).display_text(), "65535 Unregistered Status Code");
}

#[test]
fn try_from_u64_accepts_16_bit_values() {
    assert_eq!(StatusCode::try_from_u64(404), Ok(StatusCode::from_u16(404)));
    assert_eq!(StatusCode::try_from_u64(70000), Err(InvalidStatusCode { value: 70000 }));
}

#[test]
fn from_status_derives_title_and_type_url() {
    let p = HttpApiProblem::with_title_and_type_from_status(StatusCode::from_u16(404));
    assert_eq!(p.type_url, Some("https://httpstatuses.com/404".to_string()));
    assert_eq!(p.status, Some(StatusCode::from_u16(404)));
    assert_eq!(p.title, "Not Found");
    assert_eq!(p.detail, None);
    assert_eq!(p.instance, None);
}

#[test]
fn from_status_title_only_leaves_type_url_absent() {
    let p = HttpApiProblem::with_title_from_status(StatusCode::from_u16(404));
    assert_eq!(p.type_url, None);
    assert_eq!(p.status, Some(StatusCode::from_u16(404)));
    assert_eq!(p.title, "Not Found");
}

#[test]
fn chained_setters_replace_single_fields() {
    let p = HttpApiProblem::with_title_and_type_from_status(StatusCode::from_u16(503))
        .set_detail("detailed explanation")
        .set_instance("/on/1234/do/something");
    assert_eq!(p.type_url, Some("https://httpstatuses.com/503".to_string()));
    assert_eq!(p.status, Some(StatusCode::from_u16(503)));
    assert_eq!(p.title, "Service Unavailable");
    assert_eq!(p.detail, Some("detailed explanation".to_string()));
    assert_eq!(p.instance, Some("/on/1234/do/something".to_string()));

    let q = HttpApiProblem::new("Error").set_title("Another Error").set_status(
        StatusCode::from_u16(404),
    ).set_type_url("http://example.com/my/real_error");
    assert_eq!(q.title, "Another Error");
    assert_eq!(q.status, Some(StatusCode::from_u16(404)));
    assert_eq!(q.type_url, Some("http://example.com/my/real_error".to_string()));
}
