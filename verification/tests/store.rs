use authgate::db::{settle_lookup, settle_open, Database, DatabaseError, User};

fn fresh_path(tag: &str) -> String {
    format!("/tmp/authgate_{}_{}.db", tag, uuid::Uuid::new_v4())
}

fn seed_alice(path: &str) {
    let conn = rusqlite::Connection::open(path).expect("open for seeding");
    conn.execute(
        "INSERT INTO users (id, username, password) VALUES (?1, ?2, ?3)",
        (1i32, "alice", "hunter2"),
    )
    .expect("seed row");
}

#[test]
fn open_creates_a_missing_store() {
    let path = fresh_path("create");
    let store = Database::new(&path);
    assert!(store.is_ok());
}

#[test]
fn reopening_keeps_existing_rows() {
    let path = fresh_path("reopen");
    Database::new(&path).expect("first open");
    seed_alice(&path);
    let store = Database::new(&path).expect("second open");
    let user = store.get_user_by_username("alice").expect("alice still there");
    assert_eq!(user.username, "alice".to_string());
    assert_eq!(user.password, "hunter2".to_string());
    assert_eq!(user.id, Some(1));
}

#[test]
fn lookup_of_an_unknown_username_is_not_found() {
    let path = fresh_path("unknown");
    let store = Database::new(&path).expect("open");
    let r = store.get_user_by_username("bob");
    assert_eq!(r, Err(DatabaseError::NotFound("bob".to_string())));
}

#[test]
fn lookup_compares_usernames_exactly() {
    let path = fresh_path("exact");
    Database::new(&path).expect("open");
    seed_alice(&path);
    let store = Database::new(&path).expect("reopen");
    assert!(store.get_user_by_username("alice").is_ok());
    assert_eq!(
        store.get_user_by_username("Alice"),
        Err(DatabaseError::NotFound("Alice".to_string()))
    );
    assert_eq!(
        store.get_user_by_username("alice "),
        Err(DatabaseError::NotFound("alice ".to_string()))
    );
}

#[test]
fn settle_open_maps_an_open_failure_to_io() {
    let r = settle_open(Err(rusqlite::Error::QueryReturnedNoRows));
    assert_eq!(r.err(), Some(DatabaseError::Io));
    let conn = rusqlite::Connection::open_in_memory().expect("in-memory connection");
    assert!(settle_open(Ok(conn)).is_ok());
}

#[test]
fn settle_lookup_maps_each_store_outcome() {
    let alice =
        User { id: Some(1), username: "alice".to_string(), password: "hunter2".to_string() };
    let found = settle_lookup(Ok(Some(alice)), "alice");
    let user = found.expect("record handed on");
    assert_eq!(user.username, "alice".to_string());
    assert_eq!(user.password, "hunter2".to_string());
    assert_eq!(
        settle_lookup(Ok(None), "bob"),
        Err(DatabaseError::NotFound("bob".to_string()))
    );
    assert_eq!(
        settle_lookup(Err(rusqlite::Error::QueryReturnedNoRows), "alice"),
        Err(DatabaseError::Backend)
    );
}

#[test]
fn check_password_is_a_literal_match() {
    let path = fresh_path("password");
    Database::new(&path).expect("open");
    seed_alice(&path);
    let store = Database::new(&path).expect("reopen");
    let user = store.get_user_by_username("alice").expect("alice");
    assert_eq!(store.check_password(&user, "hunter2"), Ok(true));
    assert_eq!(store.check_password(&user, "wrong"), Ok(false));
    assert_eq!(store.check_password(&user, "Hunter2"), Ok(false));
    assert_eq!(store.check_password(&user, ""), Ok(false));
}
