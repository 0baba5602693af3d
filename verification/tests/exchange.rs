use rest_client::error::RestError;
use rest_client::exchange::{normalize, TransportOutcome};
use rest_client::response::Response;

#[test]
fn start_failure_is_a_request_error() {
    let r = normalize(TransportOutcome::StartFailed(String::from("refused")));
    assert!(matches!(r, Err(RestError::HttpRequestError(_))));
    assert!(!matches!(r, Err(RestError::HttpIoError(_))));
    let r = normalize(TransportOutcome::StartFailed(String::from("refused")));
    match r {
        Err(RestError::HttpRequestError(d)) => assert_eq!(d, "refused"),
        _ => panic!("start failure must map to the transport/request error"),
    }
}

#[test]
fn send_failure_is_a_request_error() {
    let r = normalize(TransportOutcome::SendFailed(String::from("reset")));
    assert!(matches!(r, Err(RestError::HttpRequestError(_))));
}

#[test]
fn body_write_failure_is_an_io_error() {
    let r = normalize(TransportOutcome::BodyWriteFailed(String::from("pipe")));
    assert!(matches!(r, Err(RestError::HttpIoError(_))));
}

#[test]
fn body_read_failure_is_an_io_error() {
    let r = normalize(TransportOutcome::BodyReadFailed(String::from("eof")));
    match r {
        Err(RestError::HttpIoError(d)) => assert_eq!(d, "eof"),
        _ => panic!("read failure must map to the I/O error"),
    }
}

#[test]
fn completed_outcome_round_trips() {
    let headers = vec![
        (String::from("content-type"), String::from("text/plain")),
        (String::from("server"), String::from("mock")),
    ];
    let r = normalize(TransportOutcome::Completed(
        201,
        headers.clone(),
        String::from("echoed payload"),
    ));
    let resp = r.unwrap();
    assert_eq!(resp.body, "echoed payload");
    assert_eq!(resp.status, 201);
    assert_eq!(resp.code, 201);
    assert_eq!(resp.headers, headers);
}

#[test]
fn errors_compare_by_phase_and_detail() {
    let a = RestError::HttpIoError(String::from("eof"));
    let b = RestError::HttpIoError(String::from("eof"));
    let c = RestError::HttpRequestError(String::from("eof"));
    let d = RestError::HttpIoError(String::from("pipe"));
    assert_eq!(a, b);
    assert!(a != c);
    assert!(a != d);
    let u = RestError::UrlParseError(String::from("bad"));
    assert_eq!(u.clone(), u);
}

#[test]
fn response_displays_as_its_body() {
    let resp = Response {
        code: 200,
        status: 200,
        headers: Vec::new(),
        body: String::from("the payload"),
    };
    assert_eq!(resp.display_string(), "the payload");
}
