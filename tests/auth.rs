use rustenv_auth::claims::{AuthClaims, AuthRequestClaims, LEEWAY};
use rustenv_auth::codec::{claims_blob, sign_token, str_eq, verify_token};
use rustenv_auth::config::AuthConfig;
use rustenv_auth::error::{AuthError, AuthErrorType};
use rustenv_auth::password::{hash_password, verify_password};
use rustenv_auth::service::{
    contains_text, is_duplicate_key, login_outcome, new_user_record, prepare_registration,
    prepare_update, register_outcome, StoreLookup,
};
use rustenv_auth::token::{generate_token, AuthToken};
use rustenv_auth::user::{User, UserInformation, UserLogin, UserRegister};

const SECRET: &[u8] = b"a signing secret for tests";

fn config() -> AuthConfig {
    AuthConfig::new(
        SECRET.to_vec(),
        "rustenv-users".to_string(),
        "rustenv-auth".to_string(),
        3600,
        300,
        &b"0123456789abcdefXYZ".to_vec(),
    )
    .unwrap()
}

fn cheap_hash(password: &str) -> String {
    bcrypt::hash_with_salt(password, 4, *b"0123456789abcdef").unwrap().to_string()
}

fn stored_user(password_hash: String) -> User {
    User {
        id: 7,
        uuid: "0b7e2c1a-53f4-4d55-9a1e-7a3c9b2f1e10".to_string(),
        username: "alice".to_string(),
        password: password_hash,
        email: "alice@example.com".to_string(),
        is_admin: false,
    }
}

fn assert_kind(e: &AuthError, kind: AuthErrorType) {
    assert_eq!(e.body.error_type, kind);
}

#[test]
fn error_table_is_fixed() {
    let cases = [
        (AuthErrorType::InvalidToken, 401, "Invalid token"),
        (AuthErrorType::ServerError, 500, "Server error"),
        (AuthErrorType::TokenGeneration, 500, "Error generating token"),
        (AuthErrorType::UserExists, 409, "User already exists"),
        (AuthErrorType::UserNotExists, 404, "User does not exist"),
        (AuthErrorType::WrongCredentials, 401, "Incorrect password"),
    ];
    for (kind, status, message) in cases {
        let e = AuthError::from_type(kind);
        assert_eq!(e.status(), status);
        assert_eq!(e.body().error_type, kind);
        assert_eq!(e.body().error_message, message);
    }
}

#[test]
fn default_error_is_server_error() {
    let e = AuthError::default();
    assert_eq!(e.status, 500);
    assert_eq!(e.body.error_type, AuthErrorType::ServerError);
    assert_eq!(e.body.error_message, "Server error");
}

#[test]
fn auth_token_constructors() {
    let t = AuthToken::new("abc".to_string());
    assert_eq!(t.access_token, "abc");
    assert_eq!(t.token_type, "Bearer");
    let t = AuthToken::from_string("xyz".to_string());
    assert_eq!(t.token_type, "Bearer");
    assert_eq!(t.to_string(), "xyz");
    let d = AuthToken::default();
    assert_eq!(d.access_token, "");
    assert_eq!(d.token_type, "Bearer");
}

#[test]
fn register_body_set() {
    let r = UserRegister { username: "a".into(), password: "b".into(), email: "c".into() };
    let u = r.set("username", "bob".into()).unwrap();
    assert_eq!((u.username.as_str(), u.password.as_str(), u.email.as_str()), ("bob", "b", "c"));
    let u = r.set("password", "pw".into()).unwrap();
    assert_eq!((u.username.as_str(), u.password.as_str(), u.email.as_str()), ("a", "pw", "c"));
    let u = r.set("email", "e@x".into()).unwrap();
    assert_eq!((u.username.as_str(), u.password.as_str(), u.email.as_str()), ("a", "b", "e@x"));
    assert_eq!(r.set("name", "z".into()).unwrap_err(), "Invalid key: name");
    assert_eq!(r.to_string(), "UserRegister { username: a, password: b, email: c }");
}

#[test]
fn login_body_set() {
    let l = UserLogin { username: "a".into(), password: "b".into() };
    let u = l.set("username", "bob".into()).unwrap();
    assert_eq!((u.username.as_str(), u.password.as_str()), ("bob", "b"));
    let u = l.set("password", "pw".into()).unwrap();
    assert_eq!((u.username.as_str(), u.password.as_str()), ("a", "pw"));
    assert_eq!(l.set("email", "z".into()).unwrap_err(), "Invalid key: email");
    assert_eq!(l.to_string(), "UserLogin { username: a, password: b }");
}

#[test]
fn user_information_projection() {
    let user = stored_user("$2b$04$hash".to_string());
    let info = UserInformation::from_user(user.clone());
    assert_eq!(info.uuid, user.uuid);
    assert_eq!(info.username, "alice");
    assert_eq!(info.email, "alice@example.com");
    assert!(!info.is_admin);
    assert_eq!(
        info.to_string(),
        "UserInformation { uuid: 0b7e2c1a-53f4-4d55-9a1e-7a3c9b2f1e10, username: alice, email: alice@example.com, is_admin: false }"
    );
    let d = UserInformation::default();
    assert_eq!(d.uuid, "");
    assert_eq!(d.username, "");
    assert_eq!(d.email, "");
    assert!(!d.is_admin);
    assert!(info == info.clone());
    assert!(info != d);
}

#[test]
fn config_takes_first_sixteen_salt_bytes() {
    let cfg = config();
    assert_eq!(cfg.salt, b"0123456789abcdef".to_vec());
    assert_eq!(cfg.auth_token_lifetime, 3600);
    assert_eq!(cfg.request_token_lifetime, 300);
    let short = AuthConfig::new(vec![1], "a".into(), "i".into(), 1, 1, &b"0123456789abcde".to_vec());
    assert!(short.is_none());
}

#[test]
fn session_claims_from_store_lookup() {
    let cfg = config();
    let mut admin = stored_user(String::new());
    admin.is_admin = true;
    let c = AuthClaims::new(&cfg, Some(&admin), 1_000).unwrap();
    assert_eq!(c.sub, admin.uuid);
    assert_eq!(c.iss, "rustenv-auth");
    assert_eq!(c.aud, "rustenv-users");
    assert_eq!(c.exp, 4_600);
    assert_eq!(c.iat, 1_000);
    assert_eq!(c.role, vec!["admin".to_string(), "user".to_string()]);
    let plain = stored_user(String::new());
    let c = AuthClaims::new(&cfg, Some(&plain), 1_000).unwrap();
    assert_eq!(c.role, vec!["user".to_string()]);
    let missing = AuthClaims::new(&cfg, None, 1_000).unwrap_err();
    assert_kind(&missing, AuthErrorType::ServerError);
    assert_eq!(missing.status, 500);
}

#[test]
fn template_claims() {
    let cfg = config();
    let c = AuthClaims::default(&cfg, 10);
    assert_eq!(c.sub, "");
    assert_eq!(c.role, vec!["user".to_string()]);
    assert_eq!(c.exp, 3_610);
    let r = AuthRequestClaims::default(&cfg, 10);
    assert_eq!(r.sub, "");
    assert_eq!(r.exp, 310);
    assert_eq!(r.iat, 10);
}

#[test]
fn request_claims_use_short_lifetime() {
    let cfg = config();
    let r = AuthRequestClaims::new(&cfg, "u-1".to_string(), 2_000);
    assert_eq!(r.sub, "u-1");
    assert_eq!(r.exp, 2_300);
    assert_eq!(r.iat, 2_000);
    assert!(r.check(&cfg, 2_000).is_ok());
    assert!(r.check(&cfg, 2_305).is_ok());
    assert!(r.check(&cfg, 2_306).is_err());
}

#[test]
fn fresh_claims_accepted_across_window() {
    let cfg = config();
    let c = AuthClaims::new(&cfg, Some(&stored_user(String::new())), 50_000).unwrap();
    for now in [50_000 - LEEWAY, 50_000, 51_000, 53_600, 53_600 + LEEWAY] {
        assert!(c.check(&cfg, now).is_ok(), "rejected at {}", now);
    }
    assert!(c.check(&cfg, 50_000 - LEEWAY - 1).is_err());
}

#[test]
fn expired_claims_rejected() {
    let cfg = config();
    let now = 100_000;
    let issued = now - (cfg.auth_token_lifetime + LEEWAY + 1);
    let c = AuthClaims::new(&cfg, Some(&stored_user(String::new())), issued).unwrap();
    let e = c.check(&cfg, now).unwrap_err();
    assert_kind(&e, AuthErrorType::InvalidToken);
    assert_eq!(e.status, 401);
}

#[test]
fn leeway_boundary() {
    let cfg = config();
    let c = AuthClaims::new(&cfg, Some(&stored_user(String::new())), 1_000).unwrap();
    assert!(c.check(&cfg, c.exp + 5).is_ok());
    assert!(c.check(&cfg, c.exp + 6).is_err());
}

#[test]
fn audience_or_issuer_mismatch_rejected() {
    let cfg = config();
    let mut c = AuthClaims::new(&cfg, Some(&stored_user(String::new())), 1_000).unwrap();
    c.aud = "someone-else".to_string();
    assert_kind(&c.check(&cfg, 1_000).unwrap_err(), AuthErrorType::InvalidToken);
    let mut c = AuthClaims::new(&cfg, Some(&stored_user(String::new())), 1_000).unwrap();
    c.iss = "another-issuer".to_string();
    assert_kind(&c.check(&cfg, 1_000).unwrap_err(), AuthErrorType::InvalidToken);
}

#[test]
fn sign_then_verify_round_trip() {
    let payload = br#"{"iss":"rustenv-auth","sub":"u-1","aud":"rustenv-users","exp":4600,"iat":1000}"#.to_vec();
    let token = sign_token(&payload, &SECRET.to_vec()).unwrap();
    assert!(token.starts_with("eyJ0eXAiOiJKV1QiLCJhbGciOiJIUzI1NiJ9."));
    assert_eq!(token.matches('.').count(), 2);
    assert_eq!(verify_token(&token, &SECRET.to_vec()).unwrap(), payload);
    let t = generate_token(&payload, &SECRET.to_vec()).unwrap();
    assert_eq!(t.token_type, "Bearer");
    assert_eq!(t.access_token, token);
}

#[test]
fn tokens_match_jsonwebtoken() {
    let mut map = serde_json::Map::new();
    map.insert("sub".to_string(), serde_json::Value::String("u-1".to_string()));
    map.insert("exp".to_string(), serde_json::Value::from(4_000_000_000u64));
    let value = serde_json::Value::Object(map);
    let key = jsonwebtoken::EncodingKey::from_secret(SECRET);
    let theirs = jsonwebtoken::encode(&jsonwebtoken::Header::default(), &value, &key).unwrap();
    let payload = serde_json::to_vec(&value).unwrap();
    assert_eq!(verify_token(&theirs, &SECRET.to_vec()).unwrap(), payload);
    let ours = sign_token(&payload, &SECRET.to_vec()).unwrap();
    assert_eq!(ours, theirs);
    let mut validation = jsonwebtoken::Validation::new(jsonwebtoken::Algorithm::HS256);
    validation.validate_aud = false;
    let dkey = jsonwebtoken::DecodingKey::from_secret(SECRET);
    let decoded = jsonwebtoken::decode::<serde_json::Value>(&ours, &dkey, &validation).unwrap();
    assert_eq!(decoded.claims, value);
}

#[test]
fn forged_or_malformed_tokens_rejected() {
    let secret = SECRET.to_vec();
    let token = sign_token(&b"{\"sub\":\"u-1\"}".to_vec(), &secret).unwrap();
    let wrong = verify_token(&token, &b"another secret".to_vec()).unwrap_err();
    assert_kind(&wrong, AuthErrorType::InvalidToken);
    let mut tampered = token.clone();
    tampered.push('A');
    assert!(verify_token(&tampered, &secret).is_err());
    assert!(verify_token("", &secret).is_err());
    assert!(verify_token("abc.def", &secret).is_err());
    assert!(verify_token(&format!("{}.x", token), &secret).is_err());
    let other_header = token.replacen("eyJ0", "eyJ1", 1);
    assert!(verify_token(&other_header, &secret).is_err());
    let rs_header = jsonwebtoken::Header::new(jsonwebtoken::Algorithm::RS256);
    let rs_part = b64url(&serde_json::to_vec(&rs_header).unwrap());
    let body = token.split('.').nth(1).unwrap().to_string();
    let message = format!("{}.{}", rs_part, body);
    let key = jsonwebtoken::EncodingKey::from_secret(SECRET);
    let sig = jsonwebtoken::crypto::sign(message.as_bytes(), &key, jsonwebtoken::Algorithm::HS256).unwrap();
    assert!(verify_token(&format!("{}.{}", message, sig), &secret).is_err());
}

fn b64url(bytes: &[u8]) -> String {
    base64::Engine::encode(&base64::engine::general_purpose::URL_SAFE_NO_PAD, bytes)
}

#[test]
fn other_hs256_headers_accepted() {
    let mut map = serde_json::Map::new();
    map.insert("sub".to_string(), serde_json::Value::String("u-2".to_string()));
    let value = serde_json::Value::Object(map);
    let mut header = jsonwebtoken::Header::new(jsonwebtoken::Algorithm::HS256);
    header.typ = None;
    header.kid = Some("key-1".to_string());
    let key = jsonwebtoken::EncodingKey::from_secret(SECRET);
    let token = jsonwebtoken::encode(&header, &value, &key).unwrap();
    assert!(!token.starts_with("eyJ0eXAiOiJKV1QiLCJhbGciOiJIUzI1NiJ9."));
    let payload = verify_token(&token, &SECRET.to_vec()).unwrap();
    assert_eq!(payload, serde_json::to_vec(&value).unwrap());
}

#[test]
fn claims_header_blob() {
    assert_eq!(claims_blob("eyJhIjoxfQ==").unwrap(), b"{\"a\":1}".to_vec());
    assert_kind(&claims_blob("not base64!").unwrap_err(), AuthErrorType::InvalidToken);
}

#[test]
fn string_helpers() {
    assert!(str_eq("abc", "abc"));
    assert!(!str_eq("abc", "abd"));
    assert!(contains_text("xx duplicate key yy", "duplicate key"));
    assert!(contains_text("abc", ""));
    assert!(!contains_text("ab", "abc"));
    assert!(is_duplicate_key(
        "error returned from database: duplicate key value violates unique constraint"
    ));
    assert!(!is_duplicate_key("connection refused"));
}

#[test]
fn hash_then_verify() {
    let cfg = config();
    let hash = hash_password("correct horse", &cfg.salt);
    assert!(hash.starts_with("$2y$12$"));
    assert_eq!(hash.len(), 60);
    assert_eq!(verify_password("correct horse", &hash).unwrap(), true);
}

#[test]
fn verify_rejects_other_password() {
    let hash = cheap_hash("correct horse");
    assert_eq!(verify_password("correct horse", &hash).unwrap(), true);
    assert_eq!(verify_password("battery staple", &hash).unwrap(), false);
    assert_kind(&verify_password("x", "not a hash").unwrap_err(), AuthErrorType::ServerError);
}

#[test]
fn registration_record_is_hashed() {
    let cfg = config();
    let reg = UserRegister { username: "alice".into(), password: "pw".into(), email: "a@x".into() };
    let rec = new_user_record(&reg, "id-1".to_string(), &cfg);
    assert_eq!(rec.uuid, "id-1");
    assert_eq!(rec.username, "alice");
    assert_eq!(rec.email, "a@x");
    assert!(!rec.is_admin);
    assert_ne!(rec.password, "pw");
    assert_eq!(rec.password, hash_password("pw", &cfg.salt));
}

#[test]
fn fresh_registration_gets_uuid() {
    let cfg = config();
    let reg = UserRegister { username: "bob".into(), password: "pw".into(), email: "b@x".into() };
    let rec = prepare_registration(&reg, &cfg);
    assert_eq!(rec.uuid.len(), 36);
    assert!(uuid::Uuid::parse_str(&rec.uuid).is_ok());
}

#[test]
fn update_rehashes_password() {
    let cfg = config();
    let user = stored_user("new password".to_string());
    let rec = prepare_update(&user, &cfg);
    assert_eq!(rec.id, 7);
    assert_eq!(rec.uuid, user.uuid);
    assert!(rec.password.starts_with("$2y$12$"));
}

#[test]
fn register_then_login() {
    let cfg = config();
    let reg = UserRegister { username: "alice".into(), password: "s3cret".into(), email: "a@x".into() };
    let rec = new_user_record(&reg, "uuid-alice".to_string(), &cfg);
    let info = register_outcome(Ok(rec.clone())).unwrap();
    assert_eq!(info.uuid, "uuid-alice");
    let login = UserLogin { username: "alice".into(), password: "s3cret".into() };
    let logged = login_outcome(&login, StoreLookup::Found(rec)).unwrap();
    assert_eq!(logged.uuid, info.uuid);
}

#[test]
fn login_with_wrong_password() {
    let user = stored_user(cheap_hash("s3cret"));
    let login = UserLogin { username: "alice".into(), password: "guess".into() };
    let e = login_outcome(&login, StoreLookup::Found(user)).unwrap_err();
    assert_kind(&e, AuthErrorType::WrongCredentials);
    assert_eq!(e.status, 401);
}

#[test]
fn login_outcomes() {
    let login = UserLogin { username: "nobody".into(), password: "pw".into() };
    let e = login_outcome(&login, StoreLookup::Absent).unwrap_err();
    assert_kind(&e, AuthErrorType::UserNotExists);
    assert_eq!(e.status, 404);
    let ok = login_outcome(&login, StoreLookup::Found(stored_user(cheap_hash("pw")))).unwrap();
    assert_eq!(ok.username, "alice");
    let broken = login_outcome(&login, StoreLookup::Found(stored_user("garbage".to_string())));
    assert_kind(&broken.unwrap_err(), AuthErrorType::ServerError);
    let failed = login_outcome(&login, StoreLookup::Failed).unwrap_err();
    assert_kind(&failed, AuthErrorType::ServerError);
    assert_eq!(failed.status, 500);
}

#[test]
fn duplicate_register() {
    let first = register_outcome(Ok(stored_user(cheap_hash("pw"))));
    assert!(first.is_ok());
    let second = register_outcome(Err(
        "error returned from database: duplicate key value violates unique constraint \"users_username_key\"".to_string(),
    ))
    .unwrap_err();
    assert_kind(&second, AuthErrorType::UserExists);
    assert_eq!(second.status, 409);
    let other = register_outcome(Err("pool timed out".to_string())).unwrap_err();
    assert_kind(&other, AuthErrorType::ServerError);
}
