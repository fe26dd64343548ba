use sdk_account::schema::Username;

#[test]
fn username_accepts_and_round_trips() {
    let u = Username::parse("valid_user".to_string()).unwrap();
    assert_eq!(u.as_str(), "valid_user");
}

#[test]
fn username_accepts_all_special_chars() {
    let u = Username::parse("a.b_c@d-e1".to_string()).unwrap();
    assert_eq!(u.as_str(), "a.b_c@d-e1");
}

#[test]
fn username_rejects_too_short() {
    assert!(Username::parse("ab".to_string()).is_none());
    assert!(Username::parse("abcde".to_string()).is_none());
    assert!(Username::parse(String::new()).is_none());
}

#[test]
fn username_length_boundaries() {
    assert!(Username::parse("abcdef".to_string()).is_some());
    let longest = "a".repeat(25);
    assert!(Username::parse(longest).is_some());
    let too_long = "a".repeat(26);
    assert!(Username::parse(too_long).is_none());
}

#[test]
fn username_rejects_bad_charset() {
    assert!(Username::parse("bad space name".to_string()).is_none());
    assert!(Username::parse("abcde!".to_string()).is_none());
    assert!(Username::parse("tabbed\tname".to_string()).is_none());
    assert!(Username::parse("abcdé éé".to_string()).is_none());
}
