use seven_agent_server::auth::{AuthService, RESET_TOKEN_LIFETIME};
use seven_agent_server::errors::AppError;
use seven_agent_server::routes;
use seven_agent_server::user::{CreateUserDto, LoginDto, ResetPasswordDto};

const PREFIX: &str = "$argon2id$v=19$m=19456,t=2,p=1$";
const SALT_A: &str = "c2FsdHNhbHRzYWx0c2FsdA";
const SALT_B: &str = "cGVwcGVycGVwcGVycGVwcA";

fn stored(tag: &str) -> String {
    format!("{}{}${}", PREFIX, SALT_A, tag)
}

fn dto(username: &str, password: &str, name: &str) -> CreateUserDto {
    CreateUserDto {
        username: username.to_string(),
        password: password.to_string(),
        name: name.to_string(),
        email: None,
        phone: None,
    }
}

fn creds(username: &str, password: &str) -> LoginDto {
    LoginDto { username: username.to_string(), password: password.to_string() }
}

#[test]
fn alice_registers_and_logs_in() {
    let mut svc = AuthService::new("secret".to_string());
    let first = routes::register(dto("alice", "p@ss1234", "Alice"), &mut svc).unwrap();
    assert_eq!(first.token.len(), 36);
    let second = routes::login(creds("alice", "p@ss1234"), &svc).unwrap();
    assert_eq!(second.token.len(), 36);
    assert!(matches!(routes::login(creds("alice", "wrong"), &svc), Err(AppError::InvalidCredentials)));
}

#[test]
fn duplicate_username_is_rejected() {
    let mut svc = AuthService::new("secret".to_string());
    let user = svc.register_at(dto("bob", "pw-one", "Bob"), 100).unwrap();
    let again = svc.register_at(dto("bob", "pw-two", "Robert"), 200);
    assert!(matches!(again, Err(AppError::UserAlreadyExists)));
    assert_eq!(svc.users.len(), 1);
    assert_eq!(svc.users[0].name, "Bob");
    assert_eq!(svc.users[0].password_hash, user.password_hash);
    assert_eq!(svc.users[0].created_at, 100);
}

#[test]
fn register_route_rejects_taken_username() {
    let mut svc = AuthService::new("secret".to_string());
    svc.register_at(dto("carol", "pw", "Carol"), 5).unwrap();
    let r = routes::register(dto("carol", "other", "C"), &mut svc);
    assert!(matches!(r, Err(AppError::UserAlreadyExists)));
}

#[test]
fn registered_record_holds_the_given_fields() {
    let mut svc = AuthService::new("secret".to_string());
    let mut d = dto("dave", "hunter2", "Dave");
    d.email = Some("dave@example.com".to_string());
    d.phone = Some("555-0100".to_string());
    let u = svc.register_at(d, 1_700_000_000).unwrap();
    assert_eq!(u.id, 1);
    assert_eq!(u.username, "dave");
    assert_eq!(u.name, "Dave");
    assert_eq!(u.email.as_deref(), Some("dave@example.com"));
    assert_eq!(u.phone.as_deref(), Some("555-0100"));
    assert_eq!(u.created_at, 1_700_000_000);
    assert_eq!(u.updated_at, 1_700_000_000);
    assert_ne!(u.password_hash, "hunter2");
    assert!(u.password_hash.starts_with("$argon2"));
    let u2 = svc.register_at(dto("erin", "x", "Erin"), 1_700_000_001).unwrap();
    assert_eq!(u2.id, 2);
}

#[test]
fn register_uses_the_current_time() {
    let mut svc = AuthService::new("secret".to_string());
    let u = svc.register(dto("frank", "pw", "Frank")).unwrap();
    assert!(u.created_at > 1_600_000_000);
    assert_eq!(u.created_at, u.updated_at);
}

#[test]
fn unknown_user_and_wrong_password_give_the_same_error() {
    let mut svc = AuthService::new("secret".to_string());
    svc.register_at(dto("gina", "right", "Gina"), 0).unwrap();
    let unknown = svc.login(creds("nobody", "right"));
    let wrong = svc.login(creds("gina", "wrong"));
    assert!(matches!(unknown, Err(AppError::InvalidCredentials)));
    assert!(matches!(wrong, Err(AppError::InvalidCredentials)));
}

#[test]
fn unreadable_stored_hash_is_invalid_credentials() {
    let mut svc = AuthService::new("secret".to_string());
    svc.insert_user(dto("hank", "pw", "Hank"), format!("{}!!not-b64", PREFIX), 0);
    assert!(matches!(svc.login(creds("hank", "pw")), Err(AppError::InvalidCredentials)));
}

#[test]
fn same_password_gives_different_hashes() {
    let mut svc = AuthService::new("secret".to_string());
    let a = svc.register_at(dto("ivy", "shared-pw", "Ivy"), 0).unwrap();
    let b = svc.register_at(dto("jack", "shared-pw", "Jack"), 0).unwrap();
    assert_ne!(a.password_hash, b.password_hash);
}

#[test]
fn session_tokens_are_fresh() {
    let mut svc = AuthService::new("secret".to_string());
    svc.register_at(dto("kate", "pw", "Kate"), 0).unwrap();
    let a = svc.login(creds("kate", "pw")).unwrap();
    let b = svc.login(creds("kate", "pw")).unwrap();
    assert!(!a.token.is_empty());
    assert_ne!(a.token, b.token);
}

#[test]
fn forgot_password_stores_one_token_for_a_day() {
    let mut svc = AuthService::new("secret".to_string());
    svc.register_at(dto("liam", "pw", "Liam"), 0).unwrap();
    svc.register_at(dto("mia", "pw", "Mia"), 0).unwrap();
    let t = svc.forgot_password_at("mia".to_string(), 1_000).unwrap();
    assert_eq!(t.len(), 36);
    assert_eq!(svc.reset_tokens.len(), 1);
    let row = &svc.reset_tokens[0];
    assert_eq!(row.token, t);
    assert_eq!(row.user_id, 2);
    assert_eq!(row.expires_at, 1_000 + 86_400);
    assert_eq!(row.created_at, 1_000);
    assert_eq!(RESET_TOKEN_LIFETIME, 86_400);
}

#[test]
fn forgot_password_uses_the_current_time() {
    let mut svc = AuthService::new("secret".to_string());
    svc.register_at(dto("nora", "pw", "Nora"), 0).unwrap();
    svc.forgot_password("nora".to_string()).unwrap();
    let row = &svc.reset_tokens[0];
    assert_eq!(row.expires_at - row.created_at, 86_400);
    assert!(row.created_at > 1_600_000_000);
}

#[test]
fn forgot_password_for_unknown_user_fails() {
    let mut svc = AuthService::new("secret".to_string());
    let r = svc.forgot_password_at("ghost".to_string(), 0);
    assert!(matches!(r, Err(AppError::InvalidCredentials)));
    assert!(svc.reset_tokens.is_empty());
}

#[test]
fn forgot_password_at_the_end_of_time_fails() {
    let mut svc = AuthService::new("secret".to_string());
    svc.register_at(dto("oscar", "pw", "Oscar"), 0).unwrap();
    let r = svc.forgot_password_at("oscar".to_string(), i64::MAX - 10);
    assert!(matches!(r, Err(AppError::InternalServerError)));
    assert!(svc.reset_tokens.is_empty());
}

#[test]
fn reset_changes_the_password_once() {
    let mut svc = AuthService::new("secret".to_string());
    svc.register_at(dto("paul", "old-pw", "Paul"), 0).unwrap();
    let t = svc.forgot_password_at("paul".to_string(), 10).unwrap();
    svc.reset_password_at(t.clone(), "new-pw".to_string(), 20).unwrap();
    assert!(svc.reset_tokens.is_empty());
    assert_eq!(svc.users[0].updated_at, 20);
    assert_eq!(svc.users[0].created_at, 0);
    assert!(svc.login(creds("paul", "new-pw")).is_ok());
    assert!(matches!(svc.login(creds("paul", "old-pw")), Err(AppError::InvalidCredentials)));
    let replay = svc.reset_password_at(t, "third-pw".to_string(), 21);
    assert!(matches!(replay, Err(AppError::InvalidToken)));
}

#[test]
fn reset_route_uses_the_current_time() {
    let mut svc = AuthService::new("secret".to_string());
    svc.register_at(dto("quinn", "old", "Quinn"), 0).unwrap();
    let t = svc.forgot_password("quinn".to_string()).unwrap();
    let r = routes::reset_password(ResetPasswordDto { token: t, new_password: "new".to_string() }, &mut svc);
    assert!(r.is_ok());
    assert!(svc.users[0].updated_at > 1_600_000_000);
}

#[test]
fn expired_token_is_rejected() {
    let mut svc = AuthService::new("secret".to_string());
    svc.register_at(dto("rose", "old-pw", "Rose"), 0).unwrap();
    let t = svc.forgot_password_at("rose".to_string(), 0).unwrap();
    let before = svc.users[0].password_hash.clone();
    let r = svc.reset_password_at(t.clone(), "new-pw".to_string(), 86_400);
    assert!(matches!(r, Err(AppError::InvalidToken)));
    assert_eq!(svc.users[0].password_hash, before);
    assert_eq!(svc.reset_tokens.len(), 1);
    let just_before = svc.reset_password_at(t, "new-pw".to_string(), 86_399);
    assert!(just_before.is_ok());
}

#[test]
fn unknown_token_is_rejected() {
    let mut svc = AuthService::new("secret".to_string());
    let r = svc.reset_password_at("no-such-token".to_string(), "pw".to_string(), 0);
    assert!(matches!(r, Err(AppError::InvalidToken)));
}

#[test]
fn reset_leaves_other_tokens_of_the_user() {
    let mut svc = AuthService::new("secret".to_string());
    svc.register_at(dto("sam", "pw", "Sam"), 0).unwrap();
    let t1 = svc.forgot_password_at("sam".to_string(), 0).unwrap();
    let t2 = svc.forgot_password_at("sam".to_string(), 1).unwrap();
    assert_ne!(t1, t2);
    svc.reset_password_at(t1, "pw2".to_string(), 5).unwrap();
    assert_eq!(svc.reset_tokens.len(), 1);
    assert_eq!(svc.reset_tokens[0].token, t2);
}

#[test]
fn insert_user_stores_the_given_hash() {
    let mut svc = AuthService::new("secret".to_string());
    let u = svc.insert_user(dto("tara", "pw", "Tara"), stored("aGFzaA"), 42);
    assert_eq!(u.id, 1);
    assert_eq!(u.password_hash, stored("aGFzaA"));
    assert_eq!(svc.users[0].password_hash, stored("aGFzaA"));
    assert_eq!(svc.users[0].created_at, 42);
    assert!(matches!(svc.login(creds("tara", "pw")), Err(AppError::InvalidCredentials)));
}

#[test]
fn issue_reset_token_refuses_a_stored_token() {
    let mut svc = AuthService::new("secret".to_string());
    svc.insert_user(dto("uma", "pw", "Uma"), stored("h"), 0);
    let first = svc.issue_reset_token(&"uma".to_string(), "tok-1".to_string(), 7).unwrap();
    assert_eq!(first, "tok-1");
    assert_eq!(svc.reset_tokens[0].expires_at, 7 + 86_400);
    let again = svc.issue_reset_token(&"uma".to_string(), "tok-1".to_string(), 8);
    assert!(matches!(again, Err(AppError::DatabaseError(_))));
    assert_eq!(svc.reset_tokens.len(), 1);
    let unknown = svc.issue_reset_token(&"vic".to_string(), "tok-2".to_string(), 8);
    assert!(matches!(unknown, Err(AppError::InvalidCredentials)));
}

#[test]
fn consume_reset_token_replaces_the_hash() {
    let mut svc = AuthService::new("secret".to_string());
    svc.insert_user(dto("wes", "pw", "Wes"), stored("old"), 0);
    svc.insert_user(dto("xena", "pw", "Xena"), stored("xena"), 0);
    svc.issue_reset_token(&"wes".to_string(), "tok".to_string(), 100).unwrap();
    svc.consume_reset_token(&"tok".to_string(), stored("new"), 150);
    assert_eq!(svc.users[0].password_hash, stored("new"));
    assert_eq!(svc.users[0].updated_at, 150);
    assert_eq!(svc.users[1].password_hash, stored("xena"));
    assert!(svc.reset_tokens.is_empty());
}

#[test]
fn find_user_and_find_token_locate_rows() {
    let mut svc = AuthService::new("secret".to_string());
    svc.insert_user(dto("yara", "pw", "Yara"), stored("h1"), 0);
    svc.insert_user(dto("zed", "pw", "Zed"), stored("h2"), 0);
    assert_eq!(svc.find_user(&"zed".to_string()), Some(1));
    assert_eq!(svc.find_user(&"nobody".to_string()), None);
    svc.issue_reset_token(&"zed".to_string(), "t".to_string(), 0).unwrap();
    assert_eq!(svc.find_token(&"t".to_string()), Some(0));
    assert_eq!(svc.find_token(&"u".to_string()), None);
}

#[test]
fn new_keeps_the_secret() {
    let svc = AuthService::new("s3cr3t".to_string());
    assert_eq!(svc.jwt_secret, "s3cr3t");
    assert!(svc.users.is_empty());
    assert!(svc.reset_tokens.is_empty());
}

#[test]
fn hash_under_a_given_salt_is_the_phc_string() {
    let mut svc = AuthService::new("secret".to_string());
    let a = svc.register_with_salt(dto("amy", "same-pw", "Amy"), &SALT_A.to_string(), 0).unwrap();
    let b = svc.register_with_salt(dto("ben", "same-pw", "Ben"), &SALT_B.to_string(), 0).unwrap();
    assert!(a.password_hash.starts_with(&format!("{}{}$", PREFIX, SALT_A)));
    assert!(b.password_hash.starts_with(&format!("{}{}$", PREFIX, SALT_B)));
    assert_ne!(a.password_hash, b.password_hash);
    let c = svc.register_with_salt(dto("cat", "same-pw", "Cat"), &SALT_A.to_string(), 0).unwrap();
    assert_eq!(a.password_hash, c.password_hash);
}

#[test]
fn malformed_salt_is_a_password_error() {
    let mut svc = AuthService::new("secret".to_string());
    let r = svc.register_with_salt(dto("dan", "pw", "Dan"), &"no good!".to_string(), 0);
    assert!(matches!(r, Err(AppError::PasswordError)));
    assert!(svc.users.is_empty());
}

#[test]
fn reset_under_a_new_salt_changes_the_hash() {
    let mut svc = AuthService::new("secret".to_string());
    svc.register_with_salt(dto("eve", "pw", "Eve"), &SALT_A.to_string(), 0).unwrap();
    let before = svc.users[0].password_hash.clone();
    let t = svc.forgot_password_at("eve".to_string(), 0).unwrap();
    svc.reset_password_with_salt(t, "pw".to_string(), &SALT_B.to_string(), 1).unwrap();
    assert_ne!(svc.users[0].password_hash, before);
    assert!(svc.users[0].password_hash.starts_with(&format!("{}{}$", PREFIX, SALT_B)));
    assert!(svc.login(creds("eve", "pw")).is_ok());
}

#[test]
fn session_token_is_a_uuid_v4() {
    let mut svc = AuthService::new("secret".to_string());
    svc.register_with_salt(dto("fay", "pw", "Fay"), &SALT_A.to_string(), 0).unwrap();
    let t = svc.login(creds("fay", "pw")).unwrap().token;
    let c: Vec<char> = t.chars().collect();
    assert_eq!(c.len(), 36);
    for (i, ch) in c.iter().enumerate() {
        if i == 8 || i == 13 || i == 18 || i == 23 {
            assert_eq!(*ch, '-');
        } else {
            assert!(ch.is_ascii_digit() || ('a'..='f').contains(ch));
        }
    }
    assert_eq!(c[14], '4');
    assert!(matches!(c[19], '8' | '9' | 'a' | 'b'));
}
