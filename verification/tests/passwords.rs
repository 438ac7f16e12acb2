use lim_backend::passwords::{hash_password, hash_password_with_salt, verify_password};

#[test]
fn hash_accepts_its_password_and_no_other() {
    let hash = hash_password("abceasyas123").expect("the password can be hashed");
    assert_ne!(hash, "abceasyas123");
    assert!(verify_password("abceasyas123", &hash));
    assert!(!verify_password("abceasyas124", &hash));
    assert!(!verify_password("", &hash));
    assert!(!verify_password(&hash, &hash));
}

#[test]
fn hash_is_a_phc_string_of_argon2id_with_the_recommended_parameters() {
    let hash = hash_password_with_salt("abceasyas123", "c29tZXNhbHR2YWx1ZQ").expect("hashed");
    assert!(hash.starts_with("$argon2id$v=19$m=19456,t=2,p=1$c29tZXNhbHR2YWx1ZQ$"), "{hash}");
    let output = hash.rsplit('$').next().unwrap();
    assert_eq!(output.len(), 43);
    assert!(verify_password("abceasyas123", &hash));
}

#[test]
fn hash_is_fixed_by_password_and_salt() {
    let first = hash_password_with_salt("abceasyas123", "c29tZXNhbHR2YWx1ZQ");
    let again = hash_password_with_salt("abceasyas123", "c29tZXNhbHR2YWx1ZQ");
    let other_salt = hash_password_with_salt("abceasyas123", "b3RoZXJzYWx0dmFsdWU");
    let other_password = hash_password_with_salt("abceasyas124", "c29tZXNhbHR2YWx1ZQ");
    assert!(first.is_some());
    assert_eq!(first, again);
    assert_ne!(first, other_salt);
    assert_ne!(first, other_password);
}

#[test]
fn salt_that_is_no_b64_is_refused() {
    assert_eq!(hash_password_with_salt("abceasyas123", ""), None);
    assert_eq!(hash_password_with_salt("abceasyas123", "abc"), None);
    assert_eq!(hash_password_with_salt("abceasyas123", "not a salt!!"), None);
}

#[test]
fn fresh_salts_differ() {
    let first = hash_password("abceasyas123").unwrap();
    let second = hash_password("abceasyas123").unwrap();
    assert_ne!(first, second);
    assert!(verify_password("abceasyas123", &first));
    assert!(verify_password("abceasyas123", &second));
}

#[test]
fn text_that_is_no_hash_accepts_nothing() {
    assert!(!verify_password("abceasyas123", ""));
    assert!(!verify_password("abceasyas123", "abceasyas123"));
    assert!(!verify_password("", ""));
    assert!(!verify_password("abceasyas123", "$argon2id$v=19$m=19456,t=2,p=1$c29tZXNhbHR2YWx1ZQ"));
}
