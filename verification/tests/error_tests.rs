use ecommerce_api_client::error::is_success;
use ecommerce_api_client::Error;

#[test]
fn test_error_retryable() {
    assert!(Error::ServerError(500, "Internal Server Error".to_string()).is_retryable());
    assert!(Error::RateLimit("Too many requests".to_string()).is_retryable());
    assert!(!Error::BadRequest("Invalid request".to_string()).is_retryable());
    assert!(!Error::Unauthorized("Invalid token".to_string()).is_retryable());
}

#[test]
fn test_error_status_code() {
    assert_eq!(Error::BadRequest("test".to_string()).status_code(), Some(400));
    assert_eq!(Error::Unauthorized("test".to_string()).status_code(), Some(401));
    assert_eq!(Error::NotFound("test".to_string()).status_code(), Some(404));
    assert_eq!(Error::RateLimit("test".to_string()).status_code(), Some(429));
    assert_eq!(Error::ServerError(503, "test".to_string()).status_code(), Some(503));
    assert_eq!(Error::InvalidUrl("test".to_string()).status_code(), None);
}

#[test]
fn retryable_for_every_variant() {
    let text = || "x".to_string();
    assert!(Error::Http(text()).is_retryable());
    assert!(Error::ServerError(503, text()).is_retryable());
    assert!(Error::RateLimit(text()).is_retryable());
    assert!(!Error::Json(text()).is_retryable());
    assert!(!Error::InvalidUrl(text()).is_retryable());
    assert!(!Error::InvalidCredentials(text()).is_retryable());
    assert!(!Error::BadRequest(text()).is_retryable());
    assert!(!Error::Unauthorized(text()).is_retryable());
    assert!(!Error::NotFound(text()).is_retryable());
    assert!(!Error::UnexpectedStatus(418, text()).is_retryable());
}

#[test]
fn status_code_for_every_variant() {
    let text = || "x".to_string();
    assert_eq!(Error::Http(text()).status_code(), None);
    assert_eq!(Error::Json(text()).status_code(), None);
    assert_eq!(Error::InvalidUrl(text()).status_code(), None);
    assert_eq!(Error::InvalidCredentials(text()).status_code(), None);
    assert_eq!(Error::BadRequest(text()).status_code(), Some(400));
    assert_eq!(Error::Unauthorized(text()).status_code(), Some(401));
    assert_eq!(Error::NotFound(text()).status_code(), Some(404));
    assert_eq!(Error::RateLimit(text()).status_code(), Some(429));
    assert_eq!(Error::ServerError(500, text()).status_code(), Some(500));
    assert_eq!(Error::ServerError(599, text()).status_code(), Some(599));
    assert_eq!(Error::UnexpectedStatus(418, text()).status_code(), Some(418));
    assert_eq!(Error::UnexpectedStatus(0, text()).status_code(), Some(0));
}

#[test]
fn status_mapping() {
    let body = || "the body".to_string();
    assert_eq!(Error::from_status(400, body()), Error::BadRequest(body()));
    assert_eq!(
        Error::from_status(401, body()),
        Error::Unauthorized("Invalid credentials".to_string())
    );
    assert_eq!(Error::from_status(404, body()), Error::NotFound("Endpoint not found".to_string()));
    assert_eq!(
        Error::from_status(429, body()),
        Error::RateLimit("Rate limit exceeded".to_string())
    );
    assert_eq!(Error::from_status(500, body()), Error::ServerError(500, body()));
    assert_eq!(Error::from_status(503, body()), Error::ServerError(503, body()));
    assert_eq!(Error::from_status(418, body()), Error::UnexpectedStatus(418, body()));
}

#[test]
fn status_mapping_at_the_borders() {
    let body = || String::new();
    assert_eq!(Error::from_status(499, body()), Error::UnexpectedStatus(499, body()));
    assert_eq!(Error::from_status(599, body()), Error::ServerError(599, body()));
    assert_eq!(Error::from_status(600, body()), Error::UnexpectedStatus(600, body()));
    assert_eq!(Error::from_status(399, body()), Error::UnexpectedStatus(399, body()));
    assert_eq!(Error::from_status(402, body()), Error::UnexpectedStatus(402, body()));
    assert_eq!(Error::from_status(301, body()), Error::UnexpectedStatus(301, body()));
    assert_eq!(Error::from_status(100, body()), Error::UnexpectedStatus(100, body()));
    assert_eq!(Error::from_status(0, body()), Error::UnexpectedStatus(0, body()));
    assert_eq!(Error::from_status(65535, body()), Error::UnexpectedStatus(65535, body()));
}

#[test]
fn status_mapping_keeps_the_code_and_classifies_retries() {
    let mut code: u16 = 0;
    loop {
        let error = Error::from_status(code, "b".to_string());
        if !is_success(code) {
            assert_eq!(error.status_code(), Some(code));
        }
        assert_eq!(error.is_retryable(), code == 429 || (500..=599).contains(&code));
        if code == 1000 {
            break;
        }
        code += 1;
    }
}

#[test]
fn success_class() {
    assert!(!is_success(0));
    assert!(!is_success(199));
    assert!(is_success(200));
    assert!(is_success(201));
    assert!(is_success(204));
    assert!(is_success(299));
    assert!(!is_success(300));
    assert!(!is_success(400));
    assert!(!is_success(65535));
}
