use wick::api::error::{to_decimal, ApiError, Error, InvalidUri};
use wick::models;

#[test]
fn decimal_digits() {
    assert_eq!(to_decimal(0), "0");
    assert_eq!(to_decimal(7), "7");
    assert_eq!(to_decimal(10), "10");
    assert_eq!(to_decimal(204), "204");
    assert_eq!(to_decimal(1000), "1000");
    assert_eq!(to_decimal(u16::MAX), "65535");
}

#[test]
fn api_error_names_its_status() {
    let e = ApiError { code: 404, body: "gone".to_string(), fault: None };
    assert_eq!(e.to_string(), "Server returned HTTP status: 404");
    assert_eq!(e.fault_message(), None);
}

#[test]
fn every_kind_of_error_has_its_line() {
    let api = Error::Api(ApiError { code: 500, body: String::new(), fault: None });
    assert_eq!(api.to_string(), "API error");
    assert_eq!(Error::Transport("connection refused".to_string()).to_string(), "transport error: connection refused");
    assert_eq!(Error::Serialization("key must be a string".to_string()).to_string(), "serialization error: key must be a string");
    assert_eq!(Error::Deserialization("EOF".to_string()).to_string(), "deserialization error: EOF");
    assert_eq!(
        Error::UriError(InvalidUri::NotAbsolute).to_string(),
        "URI error: the path is not absolute"
    );
    assert_eq!(
        Error::UriError(InvalidUri::InvalidCharacter).to_string(),
        "URI error: invalid character in path"
    );
    assert_eq!(Error::UriError(InvalidUri::TooLong).to_string(), "URI error: too long");
}

#[test]
fn status_and_fault_message_are_there_for_api_errors_alone() {
    let fault = models::Error { fault_message: Some("bad state".to_string()) };
    let api = Error::Api(ApiError { code: 400, body: "{}".to_string(), fault: Some(fault) });
    assert_eq!(api.status(), Some(400));
    assert_eq!(api.fault_message(), Some(&"bad state".to_string()));
    let silent = Error::Api(ApiError {
        code: 400,
        body: "{}".to_string(),
        fault: Some(models::Error { fault_message: None }),
    });
    assert_eq!(silent.status(), Some(400));
    assert_eq!(silent.fault_message(), None);
    for e in [
        Error::Transport(String::new()),
        Error::Serialization(String::new()),
        Error::Deserialization(String::new()),
        Error::UriError(InvalidUri::TooLong),
    ] {
        assert_eq!(e.status(), None);
        assert_eq!(e.fault_message(), None);
    }
}

#[test]
fn deserialization_error_carries_the_parsers_message() {
    let request = wick::MicrovmClient::new("/s".to_string()).get_firecracker_version().into_request();
    match request.execute::<models::FirecrackerVersion>(200, b"{") {
        Err(Error::Deserialization(message)) => assert!(message.contains("EOF"), "{}", message),
        other => panic!("unexpected result: {:?}", other),
    }
    match request.execute::<models::FirecrackerVersion>(200, b"{}") {
        Err(Error::Deserialization(message)) => {
            assert_eq!(message, "the response body does not have the expected shape")
        }
        other => panic!("unexpected result: {:?}", other),
    }
}
