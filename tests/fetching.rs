use min_desk::fetch::{check_status, outcome_of, FetchError};

#[test]
fn success_statuses() {
    assert!(check_status(200, Some("OK".to_string())).is_ok());
    assert!(check_status(204, None).is_ok());
    assert!(check_status(299, None).is_ok());
}

#[test]
fn failing_statuses() {
    match check_status(404, Some("Not Found".to_string())) {
        Err(e) => assert_eq!(e.message(), "HTTP 404: Not Found"),
        Ok(()) => panic!("404 is no success"),
    }
    match check_status(599, None) {
        Err(e) => assert_eq!(e.message(), "HTTP 599: Unknown error"),
        Ok(()) => panic!("599 is no success"),
    }
    assert!(check_status(199, None).is_err());
    assert!(check_status(300, None).is_err());
    assert!(check_status(0, None).is_err());
}

#[test]
fn error_messages() {
    assert_eq!(
        FetchError::ClientConstruction("tls".to_string()).message(),
        "Failed to create HTTP client: tls"
    );
    assert_eq!(FetchError::Network("timed out".to_string()).message(), "Failed to fetch page: timed out");
    assert_eq!(FetchError::BodyRead("bad utf-8".to_string()).message(), "Failed to read response: bad utf-8");
    assert_eq!(
        FetchError::HttpStatus { code: 65535, reason: "x".to_string() }.message(),
        "HTTP 65535: x"
    );
    assert_eq!(FetchError::HttpStatus { code: 7, reason: "y".to_string() }.message(), "HTTP 7: y");
}

#[test]
fn outcomes() {
    assert_eq!(outcome_of(Ok("text".to_string())), Ok("text".to_string()));
    assert_eq!(
        outcome_of(Err(FetchError::Network("down".to_string()))),
        Err("Failed to fetch page: down".to_string())
    );
}
