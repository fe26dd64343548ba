use sdk_account::schema::{Password, PasswordError};

#[test]
fn password_pair_mismatch_regardless_of_length() {
    let r = Password::new("aaaaaaaa".to_string(), "bbbbbbbb".to_string());
    assert!(matches!(r, Err(PasswordError::PairMismatch)));
    let r = Password::new("a".to_string(), "b".to_string());
    assert!(matches!(r, Err(PasswordError::PairMismatch)));
    let r = Password::new(String::new(), "x".repeat(40));
    assert!(matches!(r, Err(PasswordError::PairMismatch)));
}

#[test]
fn password_length_half_open_boundaries() {
    let seven = "x".repeat(7);
    let r = Password::new(seven.clone(), seven);
    assert!(matches!(r, Err(PasswordError::RequirementsMismatch)));

    let thirty = "x".repeat(30);
    let r = Password::new(thirty.clone(), thirty);
    assert!(matches!(r, Err(PasswordError::RequirementsMismatch)));

    let eight = "x".repeat(8);
    assert!(Password::new(eight.clone(), eight).is_ok());

    let twenty_nine = "x".repeat(29);
    assert!(Password::new(twenty_nine.clone(), twenty_nine).is_ok());
}

#[test]
fn password_verify_round_trip() {
    let p = Password::new("secret123".to_string(), "secret123".to_string())
        .ok()
        .unwrap();
    assert!(p.verify("secret123"));
    assert!(!p.verify("wrong"));
}

#[test]
fn password_hash_is_self_describing() {
    let p = Password::new("secret123".to_string(), "secret123".to_string())
        .ok()
        .unwrap();
    let reloaded = Password::from_hash(p.as_hash_str().to_string());
    assert!(reloaded.verify("secret123"));
    assert!(!reloaded.verify("secret124"));
}

#[test]
fn password_hash_is_not_the_plaintext() {
    let p = Password::new("secret123".to_string(), "secret123".to_string())
        .ok()
        .unwrap();
    assert_ne!(p.as_hash_str(), "secret123");
}

#[test]
fn password_verify_malformed_hash_is_false() {
    let p = Password::from_hash("not a phc hash".to_string());
    assert!(!p.verify("anything"));
    let empty = Password::from_hash(String::new());
    assert!(!empty.verify("anything"));
}
