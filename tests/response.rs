use heroku_rs::framework::response::{
    body_reading, classify_response, is_success, payload_body, ApiResult, BodyReading, Empty, HerokuApiError, HerokuApiFailure,
    ResponseBody,
};

fn read_as_json(status: u16, body: &'static str) -> Result<serde_json::Value, reqwest::Error> {
    let raw = http::Response::builder().status(status).body(body).unwrap();
    reqwest::blocking::Response::from(raw).json::<serde_json::Value>()
}

fn envelope(id: &str, message: &str, url: Option<&str>) -> HerokuApiError {
    HerokuApiError { id: String::from(id), message: String::from(message), url: url.map(String::from) }
}

#[test]
fn success_range_bounds() {
    assert!(!is_success(199));
    assert!(is_success(200));
    assert!(is_success(204));
    assert!(is_success(299));
    assert!(!is_success(300));
    assert!(!is_success(404));
    assert!(!is_success(0));
    assert!(!is_success(u16::MAX));
}

#[test]
fn reading_follows_status() {
    assert_eq!(body_reading(200), BodyReading::Payload);
    assert_eq!(body_reading(201), BodyReading::Payload);
    assert_eq!(body_reading(199), BodyReading::ErrorEnvelope);
    assert_eq!(body_reading(300), BodyReading::ErrorEnvelope);
    assert_eq!(body_reading(500), BodyReading::ErrorEnvelope);
}

fn unreadable<T>(status: u16, body: &'static str) -> Result<T, reqwest::Error> {
    let parsed = read_as_json(status, body);
    assert!(parsed.is_err());
    parsed.map(|_| unreachable!())
}

fn raw_response(status: u16, body: &'static str) -> reqwest::blocking::Response {
    reqwest::blocking::Response::from(http::Response::builder().status(status).body(body).unwrap())
}

#[test]
fn success_with_parsed_body_gives_the_value() {
    let parsed: Result<Vec<Empty>, reqwest::Error> = Ok(vec![Empty {}, Empty {}, Empty {}]);
    let result = classify_response(200, ResponseBody::Payload(parsed));
    assert_eq!(result.unwrap().len(), 3);
}

#[test]
fn success_with_parsed_json_object_is_ok() {
    let parsed = read_as_json(200, "{\"name\":\"example\",\"id\":1}");
    assert!(parsed.is_ok());
    let result: Result<(), HerokuApiFailure> = classify_response(201, ResponseBody::Payload(parsed.map(|_| ())));
    assert!(result.is_ok());
}

#[test]
fn success_with_unparseable_body_is_invalid() {
    let result: Result<Empty, HerokuApiFailure> =
        classify_response(200, ResponseBody::Payload(unreadable(200, "this is not json")));
    assert!(matches!(result, Err(HerokuApiFailure::Invalid(_))));
}

#[test]
fn success_with_empty_body_gives_empty_marker() {
    let result: Result<Empty, HerokuApiFailure> = classify_response(200, ResponseBody::EmptyPayload(unreadable(200, "")));
    assert!(result.is_ok());
    let unit: Result<(), HerokuApiFailure> = classify_response(204, ResponseBody::EmptyPayload(unreadable(204, "")));
    assert!(unit.is_ok());
    let list: Result<Vec<Empty>, HerokuApiFailure> =
        classify_response(200, ResponseBody::EmptyPayload(unreadable(200, "")));
    assert_eq!(list.unwrap().len(), 0);
}

#[test]
fn empty_values_of_result_types() {
    assert!(<Empty as ApiResult>::empty_value().is_some());
    assert_eq!(<() as ApiResult>::empty_value(), Some(()));
    assert_eq!(<Vec<Empty> as ApiResult>::empty_value().unwrap().len(), 0);
    assert!(<reqwest::blocking::Response as ApiResult>::empty_value().is_none());
}

#[test]
fn empty_body_for_raw_response_keeps_the_read() {
    let result = classify_response(200, ResponseBody::EmptyPayload(Ok(raw_response(200, ""))));
    assert_eq!(result.unwrap().status().as_u16(), 200);
    let failed: Result<reqwest::blocking::Response, HerokuApiFailure> =
        classify_response(200, ResponseBody::EmptyPayload(unreadable(200, "")));
    assert!(matches!(failed, Err(HerokuApiFailure::Invalid(_))));
}

#[test]
fn raw_success_hands_back_the_response() {
    let result = classify_response(200, ResponseBody::Payload(Ok(raw_response(200, "{\"a\":1}"))));
    assert_eq!(result.unwrap().text().unwrap(), "{\"a\":1}");
}

#[test]
fn failure_with_envelope_carries_status_and_fields() {
    let result: Result<Empty, HerokuApiFailure> = classify_response(
        404,
        ResponseBody::ErrorEnvelope(Ok(envelope("not_found", "Couldn't find that app.", Some("https://devcenter.heroku.com")))),
    );
    match result {
        Err(HerokuApiFailure::Error(status, e)) => {
            assert_eq!(status, 404);
            assert_eq!(e.id, "not_found");
            assert_eq!(e.message, "Couldn't find that app.");
            assert_eq!(e.url.as_deref(), Some("https://devcenter.heroku.com"));
        },
        _ => panic!("expected an API failure"),
    }
}

#[test]
fn failure_with_malformed_envelope_is_blank() {
    let unreadable = read_as_json(500, "<html>oops</html>");
    assert!(unreadable.is_err());
    let result: Result<Empty, HerokuApiFailure> =
        classify_response(500, ResponseBody::ErrorEnvelope(unreadable.map(|_| HerokuApiError::default())));
    match result {
        Err(HerokuApiFailure::Error(status, e)) => {
            assert_eq!(status, 500);
            assert_eq!(e.id, "");
            assert_eq!(e.message, "");
            assert!(e.url.is_none());
        },
        _ => panic!("expected an API failure"),
    }
}

#[test]
fn failure_with_empty_envelope_is_blank() {
    let unreadable = read_as_json(401, "");
    assert!(unreadable.is_err());
    let result: Result<(), HerokuApiFailure> =
        classify_response(401, ResponseBody::ErrorEnvelope(unreadable.map(|_| HerokuApiError::default())));
    assert!(matches!(result, Err(HerokuApiFailure::Error(401, ref e)) if e.id.is_empty() && e.message.is_empty()));
}

#[test]
fn default_envelope_is_blank() {
    let e = HerokuApiError::default();
    assert_eq!(e.id, "");
    assert_eq!(e.message, "");
    assert!(e.url.is_none());
}

#[test]
fn payload_body_tells_empty_from_non_empty() {
    assert!(matches!(payload_body::<()>(0, Ok(())), ResponseBody::EmptyPayload(Ok(()))));
    assert!(matches!(payload_body::<()>(2, Ok(())), ResponseBody::Payload(Ok(()))));
    assert!(matches!(payload_body::<()>(1, unreadable(200, "x")), ResponseBody::Payload(Err(_))));
}
