use ravenserver::auth::{decode_user, identify, AuthOutcome};
use ravenserver::downloads::count_download;
use ravenserver::error::Status;
use ravenserver::mongo::{collection_by_name, CollectionName};
use ravenserver::themes::{MongoMetadata, User};
use ravenserver::users::{issue_login, register_user};

const SECRET: &[u8] = b"a test secret";

fn account(name: &str, pass: &str) -> User {
    let nu = register_user(name.to_string(), pass, None).ok().unwrap();
    User {
        name: nu.name,
        id: nu.id,
        password: nu.password,
        date: nu.date,
        mongo: MongoMetadata { id: "oid".to_string() },
    }
}

#[test]
fn passwords_are_hashed_at_cost_10() {
    let nu = register_user("carol".to_string(), "pw", None).ok().unwrap();
    assert_eq!(nu.password.len(), 60);
    assert!(nu.password.starts_with("$2b$10$"));
    assert_ne!(nu.password, "pw");
    assert_eq!(bcrypt::verify("pw", &nu.password).ok(), Some(true));
}

#[test]
fn login_tokens_carry_no_expiry() {
    let u = account("alice", "hunter2");
    let reply = issue_login("alice".to_string(), "hunter2", Some(u.clone()), SECRET).ok().unwrap();
    assert_eq!(reply.name, "alice");
    assert_eq!(reply.token.matches('.').count(), 2);
    assert!(decode_user(&reply.token, SECRET).is_none());
    match identify(&format!("typem=screen&token={}", reply.token), SECRET) {
        AuthOutcome::Failure(s) => assert_eq!(s, Status::InternalServerError),
        AuthOutcome::Success(_) => panic!("a token without an expiry should not decode"),
    }
}

fn signed_with_expiry(name: &str, id: &str, exp: u64, secret: &[u8]) -> String {
    let mut claims = std::collections::BTreeMap::new();
    claims.insert("name", serde_json::Value::from(name));
    claims.insert("id", serde_json::Value::from(id));
    claims.insert("exp", serde_json::Value::from(exp));
    jsonwebtoken::encode(
        &jsonwebtoken::Header::default(),
        &claims,
        &jsonwebtoken::EncodingKey::from_secret(secret),
    )
    .unwrap()
}

#[test]
fn tokens_with_an_expiry_identify_their_holder() {
    let token = signed_with_expiry("alice", "id1", 32503680000, SECRET);
    let t = decode_user(&token, SECRET).unwrap();
    assert_eq!(t.name, "alice");
    assert_eq!(t.id, "id1");
    match identify(&format!("typem=screen&token={}", token), SECRET) {
        AuthOutcome::Success(t) => {
            assert_eq!(t.name, "alice");
            assert_eq!(t.id, "id1");
        }
        AuthOutcome::Failure(_) => panic!("the token should identify alice"),
    }
    let expired = signed_with_expiry("alice", "id1", 1000, SECRET);
    assert!(decode_user(&expired, SECRET).is_none());
}

#[test]
fn wrong_login_gives_no_token() {
    let u = account("dave", "right");
    let e = issue_login("dave".to_string(), "wrong", Some(u), SECRET).err().unwrap();
    assert_eq!(e.response_status(), Status::Forbidden);
    assert_eq!(e.private_error, "Wrong login details");
    let e = issue_login("nobody".to_string(), "x", None, SECRET).err().unwrap();
    assert_eq!(e.response_status(), Status::NotFound);
}

#[test]
fn tokens_signed_with_another_secret_are_refused() {
    let u = account("erin", "pw");
    assert!(issue_login("erin".to_string(), "pw", Some(u), b"another secret").is_ok());
    let foreign = signed_with_expiry("erin", "id2", 32503680000, b"another secret");
    assert!(decode_user(&foreign, SECRET).is_none());
    assert!(decode_user("not a token", SECRET).is_none());
    match identify(&format!("token={}", foreign), SECRET) {
        AuthOutcome::Failure(s) => assert_eq!(s, Status::InternalServerError),
        AuthOutcome::Success(_) => panic!("a foreign token should not decode"),
    }
    match identify("typem=screen&value=x", SECRET) {
        AuthOutcome::Failure(s) => assert_eq!(s, Status::Unauthorized),
        AuthOutcome::Success(_) => panic!("no token was given"),
    }
}

fn count_of(v: &[(String, i64)], name: &str) -> Option<i64> {
    v.iter().find(|p| p.0 == name).map(|p| p.1)
}

#[test]
fn counting_downloads_in_json() {
    let v = count_download("{\"raven-nightly\": 3, \"ravend-nightly\": 7}", "raven-nightly".to_string()).unwrap();
    assert_eq!(v.len(), 2);
    assert_eq!(count_of(&v, "raven-nightly"), Some(4));
    assert_eq!(count_of(&v, "ravend-nightly"), Some(7));
    let v = count_download("{}", "eidolon-nightly".to_string()).unwrap();
    assert_eq!(v, vec![("eidolon-nightly".to_string(), 1)]);
    assert!(count_download("not json", "raven-nightly".to_string()).is_none());
    assert!(count_download("{\"raven-nightly\": 9223372036854775807}", "raven-nightly".to_string()).is_none());
}

#[test]
fn collections_by_document_kind() {
    assert_eq!(collection_by_name("themes"), CollectionName::Themes);
    assert_eq!(collection_by_name("users"), CollectionName::Users);
}
