use auth_core::errors::AppError;
use auth_core::utils::password::{
    hash_passwrod, hash_with_salt, report_to_result, verdict_to_result, verify_password,
    KdfReport, KdfVerdict,
};

#[test]
fn hash_then_verify_is_true() {
    for p in ["correct horse battery staple", "", "pässwörd ✓", "a"] {
        let hash = hash_passwrod(p.to_string()).unwrap();
        assert_eq!(verify_password(&hash, p), Ok(true));
    }
}

#[test]
fn other_password_is_false_not_an_error() {
    let hash = hash_passwrod("first password".to_string()).unwrap();
    assert_eq!(verify_password(&hash, "second password"), Ok(false));
    assert_eq!(verify_password(&hash, "first password "), Ok(false));
}

#[test]
fn hashing_twice_gives_different_hashes_that_both_verify() {
    let a = hash_passwrod("same password".to_string()).unwrap();
    let b = hash_passwrod("same password".to_string()).unwrap();
    assert_ne!(a, b);
    assert_eq!(verify_password(&a, "same password"), Ok(true));
    assert_eq!(verify_password(&b, "same password"), Ok(true));
}

#[test]
fn malformed_stored_hash_is_a_hashing_error() {
    for stored in ["not a hash", "", "$argon2id$", "$argon2id$v=19$m=oops$abc$def"] {
        let out = verify_password(stored, "whatever");
        assert!(matches!(out, Err(AppError::PasswordHashError(_))), "{:?}", out);
        let status = out.unwrap_err().status_code();
        assert_eq!(status, 500);
    }
}

#[test]
fn hash_is_an_encoded_argon2id_string() {
    let hash = hash_passwrod("hunter22".to_string()).unwrap();
    assert!(hash.starts_with("$argon2id$v=19$m=19456,t=2,p=1$"), "{}", hash);
    assert!(!hash.contains("hunter22"));
}

#[test]
fn hash_with_salt_is_deterministic() {
    let a = hash_with_salt("hunter22", "c29tZXNhbHRzb21lc2FsdA").unwrap();
    let b = hash_with_salt("hunter22", "c29tZXNhbHRzb21lc2FsdA").unwrap();
    assert_eq!(a, b);
    assert!(a.starts_with("$argon2id$v=19$m=19456,t=2,p=1$c29tZXNhbHRzb21lc2FsdA$"), "{}", a);
    assert_eq!(a.len(), "$argon2id$v=19$m=19456,t=2,p=1$c29tZXNhbHRzb21lc2FsdA$".len() + 43);
    assert_eq!(verify_password(&a, "hunter22"), Ok(true));
    let c = hash_with_salt("hunter22", "b3RoZXJzYWx0b3RoZXJzYQ").unwrap();
    assert_ne!(a, c);
    let d = hash_with_salt("hunter23", "c29tZXNhbHRzb21lc2FsdA").unwrap();
    assert_ne!(a, d);
}

#[test]
fn hash_with_bad_salt_is_a_hashing_error() {
    let out = hash_with_salt("hunter22", "!!");
    assert!(matches!(out, Err(AppError::PasswordHashError(_))), "{:?}", out);
}

#[test]
fn verdicts_map_to_results() {
    assert_eq!(verdict_to_result(KdfVerdict::Accepted), Ok(true));
    assert_eq!(verdict_to_result(KdfVerdict::Mismatch), Ok(false));
    assert_eq!(
        verdict_to_result(KdfVerdict::Fault("bad".to_string())),
        Err(AppError::PasswordHashError("bad".to_string()))
    );
}

#[test]
fn stored_hash_without_salt_or_digest_is_a_hashing_error() {
    for stored in [
        "$argon2id$v=19$m=19456,t=2,p=1",
        "$argon2id$v=19$m=19456,t=2,p=1$c29tZXNhbHRzb21lc2FsdA",
        "$argon2id",
    ] {
        assert_eq!(
            verify_password(stored, "password123"),
            Err(AppError::PasswordHashError("password hash lacks salt or digest".to_string())),
            "{}",
            stored
        );
    }
}

#[test]
fn reports_are_decided_in_order() {
    let report = |salt: Option<&str>, digest_present: bool, verdict: KdfVerdict| {
        Ok(KdfReport { salt: salt.map(|s| s.to_string()), digest_present, verdict })
    };
    let incomplete =
        Err(AppError::PasswordHashError("password hash lacks salt or digest".to_string()));
    assert_eq!(report_to_result(report(Some("abcd"), true, KdfVerdict::Accepted)), Ok(true));
    assert_eq!(report_to_result(report(Some("abcd"), true, KdfVerdict::Mismatch)), Ok(false));
    assert_eq!(
        report_to_result(report(Some("abcd"), true, KdfVerdict::Fault("x".to_string()))),
        Err(AppError::PasswordHashError("x".to_string()))
    );
    assert_eq!(report_to_result(report(None, true, KdfVerdict::Mismatch)), incomplete);
    assert_eq!(report_to_result(report(Some("abcd"), false, KdfVerdict::Mismatch)), incomplete);
    assert_eq!(report_to_result(report(None, false, KdfVerdict::Accepted)), incomplete);
    assert_eq!(
        report_to_result(Err("unparsable".to_string())),
        Err(AppError::PasswordHashError("unparsable".to_string()))
    );
}

#[test]
fn hash_holds_the_salt_it_was_made_with() {
    let hash = hash_with_salt("hunter22", "c29tZXNhbHRzb21lc2FsdA").unwrap();
    let fields: Vec<&str> = hash.split('$').collect();
    assert_eq!(fields.len(), 6);
    assert_eq!(fields[4], "c29tZXNhbHRzb21lc2FsdA");
    let drawn = hash_passwrod("hunter22".to_string()).unwrap();
    let drawn_fields: Vec<&str> = drawn.split('$').collect();
    assert_eq!(drawn_fields[4].len(), 22);
    let again = hash_passwrod("hunter22".to_string()).unwrap();
    assert_ne!(again.split('$').nth(4), drawn.split('$').nth(4));
}
