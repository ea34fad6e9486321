use sommelier::auth::{verify_request, AuthError};

const KEY: &str = "d75a980182b10ab7d54bfed3c964073a0ee172f3daa62325af021a68f707511a";
const SIG: &str = "e5564300c360ac729086e2cc806e828a84877f1eb8e5d974d873e065224901555fb8821590a33bacc61e39701cf9b46bd25bf5f0595bbe24655141438e7a100b";

#[test]
fn a_valid_signature_passes() {
    assert_eq!(verify_request(KEY, Some(""), Some(SIG), ""), Ok(()));
    assert_eq!(verify_request(&KEY.to_uppercase(), Some(""), Some(SIG), ""), Ok(()));
}

#[test]
fn a_signature_that_does_not_verify_is_rejected() {
    assert_eq!(
        verify_request(KEY, Some(""), Some(SIG), "{\"type\":1}"),
        Err(AuthError::BadSignature)
    );
    assert_eq!(
        verify_request(KEY, Some("1700000000"), Some(SIG), ""),
        Err(AuthError::BadSignature)
    );
    let zeros = "0".repeat(128);
    assert_eq!(
        verify_request(KEY, Some(""), Some(&zeros), "not even json"),
        Err(AuthError::BadSignature)
    );
}

#[test]
fn missing_or_malformed_headers() {
    assert_eq!(verify_request(KEY, None, Some(SIG), ""), Err(AuthError::Malformed));
    assert_eq!(verify_request(KEY, Some(""), None, ""), Err(AuthError::Malformed));
    assert_eq!(verify_request(KEY, Some(""), Some("zz"), ""), Err(AuthError::Malformed));
    assert_eq!(verify_request(KEY, Some(""), Some(&SIG[..126]), ""), Err(AuthError::Malformed));
    assert_eq!(verify_request(KEY, Some(""), Some(&SIG[..127]), ""), Err(AuthError::Malformed));
}

#[test]
fn a_bad_key_is_a_configuration_fault() {
    assert_eq!(verify_request("", Some(""), Some(SIG), ""), Err(AuthError::BadKey));
    assert_eq!(verify_request("abc", Some(""), Some(SIG), ""), Err(AuthError::BadKey));
    assert_eq!(verify_request(&KEY[..62], Some(""), Some(SIG), ""), Err(AuthError::BadKey));
}

#[test]
fn status_codes() {
    assert_eq!(AuthError::BadKey.status(), 500);
    assert_eq!(AuthError::Malformed.status(), 400);
    assert_eq!(AuthError::BadSignature.status(), 401);
    assert_eq!(AuthError::BadPayload.status(), 500);
}
