use jade::hash_secret;
use jade::verify_secret;
use jade::ErrKind;

#[test]
fn digest_of_a_password_verifies_against_it() {
    let digest = hash_secret("pw1").unwrap();
    assert_eq!(verify_secret("pw1", &digest), Ok(true));
}

#[test]
fn digest_of_another_password_does_not_verify() {
    let digest = hash_secret("other").unwrap();
    assert_eq!(verify_secret("pw1", &digest), Ok(false));
}

#[test]
fn malformed_digest_is_a_hashing_error() {
    let e = verify_secret("pw1", "not a digest").unwrap_err();
    assert_eq!(e.kind, ErrKind::HashingError);
}

#[test]
fn digest_is_not_the_plain_text() {
    let digest = hash_secret("pw1").unwrap();
    assert_ne!(digest, "pw1");
    assert_eq!(digest.len(), 60);
}

#[test]
fn two_digests_of_one_password_differ_and_both_verify() {
    let a = hash_secret("pw1").unwrap();
    let b = hash_secret("pw1").unwrap();
    assert_ne!(a, b);
    assert_eq!(verify_secret("pw1", &a), Ok(true));
    assert_eq!(verify_secret("pw1", &b), Ok(true));
}

#[test]
fn empty_password_round_trips() {
    let digest = hash_secret("").unwrap();
    assert_eq!(verify_secret("", &digest), Ok(true));
    assert_eq!(verify_secret("x", &digest), Ok(false));
}

#[test]
fn derived_token_verifies_against_its_seed() {
    let token = jade::derive_token("2024-01-02/03:04:05:alice").unwrap();
    assert_eq!(verify_secret("2024-01-02/03:04:05:alice", &token), Ok(true));
    assert_eq!(verify_secret("2024-01-02/03:04:05:bob", &token), Ok(false));
}

#[test]
fn known_digest_verifies() {
    let digest = "$2b$04$EGdrhbKUv8Oc9vGiXX0HQOxSg445d458Muh7DAHskb6QbtCvdxcie";
    assert_eq!(verify_secret("correctbatteryhorsestapler", digest), Ok(true));
    assert_eq!(verify_secret("wrong", digest), Ok(false));
}
