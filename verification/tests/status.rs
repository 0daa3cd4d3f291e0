use unspeech::status::StatusCode;

#[test]
fn status_code_accepts_100_to_999() {
    assert!(StatusCode::from_u16(99).is_none());
    assert!(StatusCode::from_u16(0).is_none());
    assert_eq!(StatusCode::from_u16(100).unwrap().as_u16(), 100);
    assert_eq!(StatusCode::from_u16(999).unwrap().as_u16(), 999);
    assert!(StatusCode::from_u16(1000).is_none());
    assert!(StatusCode::from_u16(u16::MAX).is_none());
}

#[test]
fn success_is_the_2xx_class() {
    assert!(!StatusCode::from_u16(199).unwrap().is_success());
    assert!(StatusCode::from_u16(200).unwrap().is_success());
    assert!(StatusCode::from_u16(204).unwrap().is_success());
    assert!(StatusCode::from_u16(299).unwrap().is_success());
    assert!(!StatusCode::from_u16(300).unwrap().is_success());
    assert!(!StatusCode::from_u16(429).unwrap().is_success());
    assert!(!StatusCode::from_u16(500).unwrap().is_success());
}

#[test]
fn named_status_codes() {
    assert_eq!(StatusCode::bad_request().as_u16(), 400);
    assert_eq!(StatusCode::internal_server_error().as_u16(), 500);
    assert_eq!(StatusCode::bad_gateway().as_u16(), 502);
}

#[test]
fn display_is_code_and_reason() {
    assert_eq!(StatusCode::from_u16(200).unwrap().display(), "200 OK");
    assert_eq!(StatusCode::from_u16(429).unwrap().display(), "429 Too Many Requests");
    assert_eq!(StatusCode::bad_gateway().display(), "502 Bad Gateway");
}

#[test]
fn display_of_a_code_without_reason() {
    assert_eq!(StatusCode::from_u16(999).unwrap().display(), "999 <unknown status code>");
}
