use rcli::process::http_serve::{classify_request, is_likely_binary, ServeDecision};
use rcli::process::jwt::{expiry_from_now, jwt_expiry, Claims, DEFAULT_JWT_EXPIRY};

#[test]
fn test_is_likely_binary() {
    assert!(!is_likely_binary("text/html"));
    assert!(!is_likely_binary("text/plain"));
    assert!(!is_likely_binary("application/json"));
    assert!(!is_likely_binary("application/xml"));
    assert!(!is_likely_binary("image/svg+xml"));
    assert!(is_likely_binary("image/png"));
    assert!(is_likely_binary("application/octet-stream"));
    assert!(is_likely_binary("audio/mpeg"));
}

#[test]
fn test_classify_request() {
    assert_eq!(
        classify_request(false, false, false, "image/png"),
        ServeDecision::NotFound
    );
    assert_eq!(
        classify_request(true, true, false, "image/png"),
        ServeDecision::Directory
    );
    assert_eq!(
        classify_request(true, false, true, "image/png"),
        ServeDecision::BinaryFile
    );
    assert_eq!(
        classify_request(true, false, true, "text/html"),
        ServeDecision::TextFile
    );
    assert_eq!(
        classify_request(true, false, false, "text/html"),
        ServeDecision::Internal
    );
}

#[test]
fn test_claims_and_expiry() {
    let claims = Claims::new("user".to_string(), "device".to_string(), 14);
    assert_eq!(claims.sub, "user");
    assert_eq!(claims.aud, "device");
    assert_eq!(claims.exp, 14);

    assert_eq!(jwt_expiry(50, 100), 150);
    assert_eq!(jwt_expiry(0, 100), 100 + DEFAULT_JWT_EXPIRY);

    assert!(expiry_from_now(50).unwrap() >= 50);
    assert!(expiry_from_now(0).unwrap() >= DEFAULT_JWT_EXPIRY);
}
