use be::crypto::{hash_password, verify_password};

const PASSWORD_DIGEST: &str = "$2a$04$UuTkLRZZ6QofpDOlMz32MuuxEHA43WOemOYHPz6.SjsVsyO1tDU96";

#[test]
fn digest_verifies_against_its_password() {
    let digest = hash_password("p@ss").unwrap();
    assert_eq!(verify_password("p@ss", &digest), Ok(true));
    assert_eq!(verify_password("p@sS", &digest), Ok(false));
}

#[test]
fn digest_is_not_the_password() {
    let digest = hash_password("hunter2").unwrap();
    assert_ne!(digest, "hunter2");
    assert!(!digest.contains("hunter2"));
    assert_eq!(digest.len(), 60);
    assert!(digest.starts_with("$2b$12$"));
}

#[test]
fn two_digests_of_one_password_differ() {
    let first = hash_password("same").unwrap();
    let second = hash_password("same").unwrap();
    assert_ne!(first, second);
}

#[test]
fn empty_password_has_a_digest() {
    let digest = hash_password("").unwrap();
    assert_eq!(verify_password("", &digest), Ok(true));
}

#[test]
fn password_beyond_ascii_has_a_digest() {
    let digest = hash_password("密码🔑").unwrap();
    assert_eq!(verify_password("密码🔑", &digest), Ok(true));
}

#[test]
fn known_digest_accepts_its_password() {
    assert_eq!(verify_password("password", PASSWORD_DIGEST), Ok(true));
}

#[test]
fn known_digest_refuses_another_password() {
    assert_eq!(verify_password("Password", PASSWORD_DIGEST), Ok(false));
    assert_eq!(verify_password("", PASSWORD_DIGEST), Ok(false));
}

#[test]
fn verify_does_not_hand_back_its_argument() {
    // Neither argument is a truth value: the verdict is computed.
    let verdict = verify_password(
        "correctbatteryhorsestapler",
        "$2b$04$EGdrhbKUv8Oc9vGiXX0HQOxSg445d458Muh7DAHskb6QbtCvdxcie",
    );
    assert_eq!(verdict, Ok(true));
}

#[test]
fn malformed_digest_is_a_failure() {
    assert!(verify_password("password", "not a digest").is_err());
    assert!(verify_password("password", "").is_err());
    assert!(verify_password("password", "$2a$04$UuTkLRZZ6QofpDOlMz32Muu").is_err());
}

#[test]
fn digest_with_a_cost_out_of_range_is_a_failure() {
    let digest = "$2a$03$UuTkLRZZ6QofpDOlMz32MuuxEHA43WOemOYHPz6.SjsVsyO1tDU96";
    assert!(verify_password("password", digest).is_err());
}

#[test]
fn password_longer_than_the_hasher_reads_has_a_digest() {
    let long = "x".repeat(100);
    let digest = hash_password(&long).unwrap();
    assert_eq!(verify_password(&long, &digest), Ok(true));
    assert_eq!(verify_password("x", &digest), Ok(false));
}
