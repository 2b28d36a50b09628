use contact_api::errors::AppError;
use contact_api::models::{LoginRequest, RegisterRequest, UpdateUserRequest};
use contact_api::store::Db;
use contact_api::user_service;

fn register_ok(db: &mut Db, username: &str, password: &str, name: &str) {
    let req = RegisterRequest {
        username: username.to_string(),
        password: password.to_string(),
        name: name.to_string(),
    };
    let resp = user_service::register(db, &req).unwrap();
    assert_eq!(resp.username, username);
    assert_eq!(resp.name, name);
}

fn login(db: &mut Db, username: &str, password: &str) -> Result<String, AppError> {
    let req = LoginRequest {
        username: username.to_string(),
        password: password.to_string(),
    };
    user_service::login(db, &req).map(|r| r.token)
}

#[test]
fn duplicate_username_rejected() {
    let mut db = Db::new();
    register_ok(&mut db, "alice", "secret-one", "Alice");
    let again = RegisterRequest {
        username: "alice".to_string(),
        password: "other-password".to_string(),
        name: "Imposter".to_string(),
    };
    match user_service::register(&mut db, &again) {
        Err(AppError::BadRequest(m)) => assert_eq!(m, "Username already exists"),
        other => panic!("expected BadRequest, got {:?}", other),
    }
    // The first registration is unaffected: its password still logs in and
    // its display name is unchanged.
    let token = login(&mut db, "alice", "secret-one").unwrap();
    let user = user_service::authenticate(&db, &token).unwrap();
    assert_eq!(user.name, "Alice");
}

#[test]
fn login_wrong_password_unauthorized() {
    let mut db = Db::new();
    register_ok(&mut db, "bob", "right-password", "Bob");
    match login(&mut db, "bob", "wrong-password") {
        Err(AppError::Unauthorized) => {},
        other => panic!("expected Unauthorized, got {:?}", other),
    }
    match login(&mut db, "nobody", "right-password") {
        Err(AppError::Unauthorized) => {},
        other => panic!("expected Unauthorized, got {:?}", other),
    }
    let token = login(&mut db, "bob", "right-password").unwrap();
    assert_eq!(token.chars().count(), 36);
}

#[test]
fn login_issues_fresh_token() {
    let mut db = Db::new();
    register_ok(&mut db, "carol", "pw-carol", "Carol");
    let first = login(&mut db, "carol", "pw-carol").unwrap();
    let second = login(&mut db, "carol", "pw-carol").unwrap();
    assert_ne!(first, second);
    // The latest login overwrites the prior token, invalidating it.
    match user_service::authenticate(&db, &first) {
        Err(AppError::Unauthorized) => {},
        other => panic!("expected Unauthorized, got {:?}", other),
    }
    assert!(user_service::authenticate(&db, &second).is_ok());
}

#[test]
fn logout_invalidates_token() {
    let mut db = Db::new();
    register_ok(&mut db, "dave", "pw-dave", "Dave");
    let token = login(&mut db, "dave", "pw-dave").unwrap();
    assert!(user_service::authenticate(&db, &token).is_ok());
    user_service::logout(&mut db, "dave").unwrap();
    match user_service::authenticate(&db, &token) {
        Err(AppError::Unauthorized) => {},
        other => panic!("expected Unauthorized, got {:?}", other),
    }
}

#[test]
fn logout_unknown_user_not_found() {
    let mut db = Db::new();
    match user_service::logout(&mut db, "ghost") {
        Err(AppError::NotFound(m)) => assert_eq!(m, "user is not found"),
        other => panic!("expected NotFound, got {:?}", other),
    }
}

#[test]
fn update_user_no_fields_is_noop() {
    let mut db = Db::new();
    register_ok(&mut db, "erin", "pw-erin", "Erin");
    let token = login(&mut db, "erin", "pw-erin").unwrap();
    let req = UpdateUserRequest { name: None, password: None };
    let resp = user_service::update(&mut db, "erin", &req).unwrap();
    assert_eq!(resp.username, "erin");
    assert_eq!(resp.name, "Erin");
    // Password, name and even the session token are untouched.
    assert!(user_service::authenticate(&db, &token).is_ok());
    assert!(login(&mut db, "erin", "pw-erin").is_ok());
}

#[test]
fn update_user_changes_name_and_password() {
    let mut db = Db::new();
    register_ok(&mut db, "frank", "old-password", "Frank");
    let req = UpdateUserRequest {
        name: Some("Franklin".to_string()),
        password: Some("new-password".to_string()),
    };
    let resp = user_service::update(&mut db, "frank", &req).unwrap();
    assert_eq!(resp.name, "Franklin");
    match login(&mut db, "frank", "old-password") {
        Err(AppError::Unauthorized) => {},
        other => panic!("expected Unauthorized, got {:?}", other),
    }
    let token = login(&mut db, "frank", "new-password").unwrap();
    let user = user_service::authenticate(&db, &token).unwrap();
    assert_eq!(user.name, "Franklin");
}

#[test]
fn update_unknown_user_not_found() {
    let mut db = Db::new();
    let req = UpdateUserRequest { name: Some("Nobody".to_string()), password: None };
    match user_service::update(&mut db, "ghost", &req) {
        Err(AppError::NotFound(m)) => assert_eq!(m, "user is not found"),
        other => panic!("expected NotFound, got {:?}", other),
    }
}

#[test]
fn register_stores_a_hash_not_the_password() {
    let mut db = Db::new();
    register_ok(&mut db, "grace", "plain-password", "Grace");
    assert_eq!(db.users.len(), 1);
    assert_ne!(db.users[0].password, "plain-password");
    assert!(db.users[0].token.is_none());
    assert!(login(&mut db, "grace", "plain-password").is_ok());
}
