use credstore::create_user;
use credstore::query_users;
use credstore::verify_user;
use credstore::AuthError;

fn setup() -> rusqlite::Connection {
    let conn = rusqlite::Connection::open_in_memory().unwrap();
    conn.execute(
        "CREATE TABLE users (id INTEGER PRIMARY KEY AUTOINCREMENT, \
         username TEXT NOT NULL, password_hash TEXT NOT NULL, token TEXT NOT NULL, \
         created_at TIMESTAMP NOT NULL DEFAULT CURRENT_TIMESTAMP, \
         updated_at TIMESTAMP NOT NULL DEFAULT CURRENT_TIMESTAMP, \
         UNIQUE(username), UNIQUE(token))",
        [],
    )
    .unwrap();
    conn
}

#[test]
fn create_and_verify_user() {
    let mut conn = setup();
    let hash = create_user(&mut conn, "username", "password").unwrap();
    let res = verify_user(&conn, "username", &hash).unwrap();

    assert!(res);
}

#[test]
fn register_verify_and_list_alice() {
    let mut conn = setup();
    let token = create_user(&mut conn, "alice", "s3cret").unwrap();
    assert_eq!(token.len(), 30);
    assert!(token.chars().all(|c| c.is_ascii_alphanumeric()));

    assert!(verify_user(&conn, "alice", &token).unwrap());
    assert!(!verify_user(&conn, "alice", "wrong-token").unwrap());
    assert!(!verify_user(&conn, "bob", &token).unwrap());

    let users = query_users(&conn).unwrap();
    assert_eq!(users.len(), 1);
    let user = users[0].as_ref().unwrap();
    assert_eq!(user.username().as_str(), "alice");
}

#[test]
fn duplicate_username_rejected() {
    let mut conn = setup();
    let token = create_user(&mut conn, "alice", "pw1").unwrap();
    let err = create_user(&mut conn, "alice", "pw2").unwrap_err();
    assert_eq!(err, AuthError::DuplicateUsername);

    let users = query_users(&conn).unwrap();
    assert_eq!(users.len(), 1);
    let user = users[0].as_ref().unwrap();
    assert_eq!(user.username().as_str(), "alice");
    assert_eq!(user.token(), &token);
    assert!(pwhash::bcrypt::verify("pw1", user.password_hash().as_str()));
    assert!(!pwhash::bcrypt::verify("pw2", user.password_hash().as_str()));
}

#[test]
fn stored_hash_is_not_plaintext() {
    let mut conn = setup();
    create_user(&mut conn, "carol", "hunter2").unwrap();
    let users = query_users(&conn).unwrap();
    let user = users[0].as_ref().unwrap();
    assert_ne!(user.password_hash().as_str(), "hunter2");
    assert!(user.password_hash().starts_with("$2b$10$"));
    assert_eq!(user.password_hash().len(), 60);
}

#[test]
fn missing_table_is_a_storage_error() {
    let conn = rusqlite::Connection::open_in_memory().unwrap();
    let err = verify_user(&conn, "alice", "token").unwrap_err();
    assert_eq!(err, AuthError::Storage);

    let mut conn = rusqlite::Connection::open_in_memory().unwrap();
    let err = create_user(&mut conn, "alice", "pw").unwrap_err();
    assert_eq!(err, AuthError::Storage);
}

#[test]
fn unreadable_row_is_reported_in_place() {
    let conn = setup();
    conn.execute(
        "INSERT INTO users (username, password_hash, token) VALUES (X'00ff', 'hash', 'token')",
        [],
    )
    .unwrap();
    let users = query_users(&conn).unwrap();
    assert_eq!(users.len(), 1);
    assert_eq!(users[0].as_ref().unwrap_err(), &AuthError::Decode);
}

#[test]
fn listing_is_in_insertion_order() {
    let mut conn = setup();
    create_user(&mut conn, "alice", "pw1").unwrap();
    create_user(&mut conn, "bob", "pw2").unwrap();
    let users = query_users(&conn).unwrap();
    assert_eq!(users.len(), 2);
    assert_eq!(users[0].as_ref().unwrap().username().as_str(), "alice");
    assert_eq!(users[1].as_ref().unwrap().username().as_str(), "bob");
    assert!(users[0].as_ref().unwrap().id() < users[1].as_ref().unwrap().id());
}

#[test]
fn usernames_are_case_sensitive() {
    let mut conn = setup();
    let token = create_user(&mut conn, "Alice", "pw").unwrap();
    assert!(verify_user(&conn, "Alice", &token).unwrap());
    assert!(!verify_user(&conn, "alice", &token).unwrap());
}

#[test]
fn public_projection_keeps_id_and_username_only() {
    let mut conn = setup();
    create_user(&mut conn, "alice", "pw").unwrap();
    let users = query_users(&conn).unwrap();
    let user = users[0].as_ref().unwrap();
    let public = user.to_public();
    assert_eq!(public.id(), user.id());
    assert_eq!(public.username(), user.username());
}
