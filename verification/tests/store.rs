use sdk_account::database::DbContext;
use sdk_account::schema::{Password, Username};

fn credentials(name: &str) -> (Username, Password) {
    let u = Username::parse(name.to_string()).unwrap();
    let p = Password::new("secret123".to_string(), "secret123".to_string())
        .ok()
        .unwrap();
    (u, p)
}

#[test]
fn create_account_on_empty_store() {
    let mut db = DbContext::new();
    let (u, p) = credentials("player_one");
    let row = db.create_account(u, p).ok().unwrap().unwrap();
    assert_eq!(row.uid, 1);
    assert_eq!(row.username.as_str(), "player_one");
    assert_eq!(row.token.len(), 64);
    assert!(row.token.chars().all(|c| c.is_ascii_alphanumeric()));
    assert!(row.password.verify("secret123"));
}

#[test]
fn create_account_assigns_increasing_uids() {
    let mut db = DbContext::new();
    let (u1, p1) = credentials("player_one");
    let (u2, p2) = credentials("player_two");
    assert_eq!(db.create_account(u1, p1).ok().unwrap().unwrap().uid, 1);
    assert_eq!(db.create_account(u2, p2).ok().unwrap().unwrap().uid, 2);
}

#[test]
fn duplicate_username_is_refused() {
    let mut db = DbContext::new();
    let (u1, p1) = credentials("player_one");
    assert!(db.create_account(u1, p1).ok().unwrap().is_some());
    let (u2, p2) = credentials("player_one");
    assert!(db.create_account(u2, p2).ok().unwrap().is_none());
    let found = db
        .get_account_by_name("player_one".to_string())
        .ok()
        .unwrap()
        .unwrap();
    assert_eq!(found.uid, 1);
}

#[test]
fn get_account_by_name_missing_is_none() {
    let db = DbContext::new();
    assert!(db
        .get_account_by_name("player_one".to_string())
        .ok()
        .unwrap()
        .is_none());
}

#[test]
fn get_account_by_uid_missing_is_none() {
    let mut db = DbContext::new();
    let (u, p) = credentials("player_one");
    db.create_account(u, p).ok().unwrap();
    assert!(db.get_account_by_uid(42).ok().unwrap().is_none());
    let found = db.get_account_by_uid(1).ok().unwrap().unwrap();
    assert_eq!(found.username.as_str(), "player_one");
}

fn sample_rows() -> Vec<(i32, String, String, String)> {
    vec![
        (
            1,
            "A".repeat(64),
            "alice_a".to_string(),
            "$pbkdf2-sha256$i=600000$c2FsdA$AAAA".to_string(),
        ),
        (
            2,
            "B".repeat(64),
            "bobby_b".to_string(),
            "$pbkdf2-sha256$i=600000$c2FsdA$BBBB".to_string(),
        ),
    ]
}

#[test]
fn from_rows_rebuilds_the_store() {
    let db = DbContext::from_rows(sample_rows()).unwrap();
    let row = db.get_account_by_uid(2).ok().unwrap().unwrap();
    assert_eq!(row.username.as_str(), "bobby_b");
    assert_eq!(row.token, "B".repeat(64));
    let row = db
        .get_account_by_name("alice_a".to_string())
        .ok()
        .unwrap()
        .unwrap();
    assert_eq!(row.uid, 1);
}

#[test]
fn from_rows_then_create_continues_uids() {
    let mut db = DbContext::from_rows(sample_rows()).unwrap();
    let (u, p) = credentials("player_one");
    let row = db.create_account(u, p).ok().unwrap().unwrap();
    assert_eq!(row.uid, 3);
}

#[test]
fn from_rows_refuses_duplicate_usernames() {
    let mut rows = sample_rows();
    rows[1].2 = "alice_a".to_string();
    assert!(DbContext::from_rows(rows).is_none());
}

#[test]
fn from_rows_refuses_gapped_uids() {
    let mut rows = sample_rows();
    rows[1].0 = 5;
    assert!(DbContext::from_rows(rows).is_none());
}

#[test]
fn from_rows_refuses_invalid_username() {
    let mut rows = sample_rows();
    rows[0].2 = "ab".to_string();
    assert!(DbContext::from_rows(rows).is_none());
}
