use api_temple::app_state::{random_secret, AppState, JWT_SECRET_LEN};
use api_temple::auth::{authenticate, validate_token, AuthUser, Claims};
use api_temple::errors::HttpStatus;
use api_temple::user::{
    check_login, issue_login_token, new_user_from_hash, login_response, register_finish, register_prepare, StoredUser, LATEST_TIMESTAMP,
    UserCredentials, BAD_CREDENTIALS, NO_VALID_TIMESTAMP, USERNAME_TAKEN,
};

const SECRET: &[u8] = b"secret-for-login-tests";

fn creds(user: &str, pass: &str) -> UserCredentials {
    UserCredentials { username: user.to_string(), password: pass.to_string() }
}

#[test]
fn register_refuses_taken_name() {
    let r = register_prepare(creds("alice", "pw"), Ok(true));
    assert_eq!(r.unwrap_err(), (HttpStatus::BadRequest, USERNAME_TAKEN.to_string()));
    assert_eq!(USERNAME_TAKEN, "用户名已存在");
}

#[test]
fn register_reports_lookup_failure() {
    let r = register_prepare(creds("alice", "pw"), Err("connection reset".to_string()));
    assert_eq!(r.unwrap_err(), (HttpStatus::InternalServerError, "connection reset".to_string()));
}

#[test]
fn registered_password_is_accepted_at_login() {
    let new_user = register_prepare(creds("alice", "hunter2"), Ok(false)).unwrap();
    assert_eq!(new_user.username, "alice");
    assert!(new_user.password_hash.starts_with("$2b$12$"));
    assert_eq!(new_user.password_hash.len(), 60);
    assert!(new_user.password_hash[7..]
        .chars()
        .all(|c| c == '.' || c == '/' || c.is_ascii_alphanumeric()));
    assert_ne!(new_user.password_hash, "hunter2");
    let stored = StoredUser { id: 11, password_hash: new_user.password_hash.clone() };
    assert_eq!(check_login("hunter2", Ok(Some(stored.clone()))), Ok(11));
    assert_eq!(
        check_login("hunter3", Ok(Some(stored))),
        Err((HttpStatus::Unauthorized, BAD_CREDENTIALS.to_string()))
    );
}

#[test]
fn register_finish_cases() {
    assert_eq!(register_finish(Ok(())), Ok(HttpStatus::Created));
    assert_eq!(
        register_finish(Err("duplicate key".to_string())),
        Err((HttpStatus::InternalServerError, "duplicate key".to_string()))
    );
}

#[test]
fn login_unknown_user_and_lookup_failure() {
    assert_eq!(
        check_login("pw", Ok(None)),
        Err((HttpStatus::Unauthorized, "用户名或密码错误".to_string()))
    );
    assert_eq!(
        check_login("pw", Err("timeout".to_string())),
        Err((HttpStatus::InternalServerError, "timeout".to_string()))
    );
}

#[test]
fn login_with_malformed_hash_is_internal_error() {
    let stored = StoredUser { id: 1, password_hash: "not a bcrypt hash".to_string() };
    let r = check_login("pw", Ok(Some(stored)));
    let (status, message) = r.unwrap_err();
    assert_eq!(status, HttpStatus::InternalServerError);
    assert!(!message.is_empty());
}

#[test]
fn login_response_cases() {
    let r = login_response(5, None, SECRET);
    assert_eq!(r.unwrap_err(), (HttpStatus::InternalServerError, NO_VALID_TIMESTAMP.to_string()));
    let resp = login_response(5, Some(4_102_444_800), SECRET).unwrap();
    assert_eq!(validate_token(&resp.token, SECRET).unwrap().sub, 5);
}

#[test]
fn login_token_authenticates_the_user_for_a_day() {
    let before = std::time::SystemTime::now()
        .duration_since(std::time::UNIX_EPOCH)
        .unwrap()
        .as_secs() as i64;
    let (resp, issued_at) = issue_login_token(9, SECRET);
    let resp = resp.unwrap();
    let after = std::time::SystemTime::now()
        .duration_since(std::time::UNIX_EPOCH)
        .unwrap()
        .as_secs() as i64;
    assert!(before <= issued_at && issued_at <= after);
    let claims = validate_token(&resp.token, SECRET).unwrap();
    assert_eq!(claims, Claims { sub: 9, exp: issued_at + 86400 });
    let header = format!("Bearer {}", resp.token);
    assert_eq!(authenticate(Some(&header), SECRET), Ok(AuthUser { user_id: 9 }));
}

#[test]
fn app_state_secret_is_32_alphanumerics() {
    let state = AppState::new(());
    assert_eq!(state.jwt_secret.chars().count(), JWT_SECRET_LEN);
    assert_eq!(JWT_SECRET_LEN, 32);
    assert!(state.jwt_secret.chars().all(|c| c.is_ascii_alphanumeric()));
    let other = AppState::new(());
    assert_ne!(state.jwt_secret, other.jwt_secret);
}

#[test]
fn random_secret_lengths() {
    assert_eq!(random_secret(0), "");
    let s = random_secret(100);
    assert_eq!(s.len(), 100);
    assert!(s.chars().all(|c| c.is_ascii_alphanumeric()));
}

#[test]
fn new_user_from_hash_cases() {
    let u = new_user_from_hash("bob".to_string(), Ok("$2b$12$x".to_string())).unwrap();
    assert_eq!((u.username.as_str(), u.password_hash.as_str()), ("bob", "$2b$12$x"));
    assert_eq!(
        new_user_from_hash("bob".to_string(), Err("no entropy".to_string())).unwrap_err(),
        (HttpStatus::InternalServerError, "no entropy".to_string())
    );
}

#[test]
fn latest_timestamp_is_chronos_limit() {
    assert_eq!(chrono::DateTime::<chrono::Utc>::MAX_UTC.timestamp(), LATEST_TIMESTAMP);
}
