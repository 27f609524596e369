use ravenserver::auth::UserToken;
use ravenserver::error::Status;
use ravenserver::themes::{MongoMetadata, User};
use ravenserver::users::{
    check_deletion_identity, check_new_user, login_decision, login_with, new_user_record,
    register_user, registration_with, user_deletion, user_deletion_with, NewUser,
};

fn stored(nu: &NewUser) -> User {
    User {
        name: nu.name.clone(),
        id: nu.id.clone(),
        password: nu.password.clone(),
        date: nu.date.clone(),
        mongo: MongoMetadata { id: "oid".to_string() },
    }
}

#[test]
fn new_account_ids_are_sha1_of_name_and_date() {
    let nu = new_user_record("alice".to_string(), "h".to_string(), "Mon, 1 Jan 2024 00:00:00 +0000".to_string());
    assert_eq!(nu.id, "a7231ba24dbafeec969157317c0e99694bffedbf");
    assert_eq!(nu.password, "h");
    assert_eq!(nu.name, "alice");
}

#[test]
fn name_and_password_length_limits() {
    assert!(check_new_user("alice", "secret").is_ok());
    assert!(check_new_user(&"n".repeat(19), &"p".repeat(99)).is_ok());
    let e = check_new_user(&"n".repeat(20), "p").err().unwrap();
    assert_eq!(e.response_status(), Status::PayloadTooLarge);
    assert_eq!(e.private_error, "Name or password too long");
    assert!(check_new_user("n", &"p".repeat(100)).is_err());
    assert!(check_new_user(&"é".repeat(10), "p").is_err());
}

#[test]
fn registered_users_can_log_in() {
    let nu = register_user("alice".to_string(), "hunter2", None).ok().unwrap();
    assert_eq!(nu.name, "alice");
    assert!(nu.password.starts_with("$2"));
    let u = stored(&nu);
    let tok = login_decision("alice".to_string(), "hunter2", Some(u.clone())).ok().unwrap();
    assert_eq!(tok.name, "alice");
    assert_eq!(tok.id, nu.id);
    let e = login_decision("alice".to_string(), "wrong", Some(u.clone())).err().unwrap();
    assert_eq!(e.response_status(), Status::Forbidden);
    assert_eq!(e.private_error, "Wrong login details");
    let d = user_deletion("alice".to_string(), "hunter2", Some(u.clone())).ok().unwrap();
    assert_eq!(d.id, nu.id);
    let e = user_deletion("alice".to_string(), "nope", Some(u)).err().unwrap();
    assert_eq!(e.private_error, "Password doesn't match");
}

#[test]
fn existing_names_are_refused() {
    let nu = register_user("bob".to_string(), "pw", None).ok().unwrap();
    let e = register_user("bob".to_string(), "pw", Some(stored(&nu))).err().unwrap();
    assert_eq!(e.response_status(), Status::Forbidden);
    assert_eq!(e.private_error, "User already exists");
}

#[test]
fn unknown_users_and_malformed_hashes() {
    let e = login_decision("ghost".to_string(), "pw", None).err().unwrap();
    assert_eq!(e.response_status(), Status::NotFound);
    assert_eq!(e.public_message(), "ghost");
    let broken = User {
        name: "c".to_string(),
        id: "i".to_string(),
        password: "not a hash".to_string(),
        date: "".to_string(),
        mongo: MongoMetadata { id: "o".to_string() },
    };
    let e = login_decision("c".to_string(), "pw", Some(broken)).err().unwrap();
    assert_eq!(e.response_status(), Status::InternalServerError);
    assert!(e.public_error.is_none());
    assert!(user_deletion("x".to_string(), "pw", None).is_err());
}

#[test]
fn outcome_functions_follow_the_check() {
    let u = User {
        name: "n".to_string(),
        id: "i".to_string(),
        password: "h".to_string(),
        date: "".to_string(),
        mongo: MongoMetadata { id: "o".to_string() },
    };
    assert_eq!(login_with("n".to_string(), u.clone(), Ok(true)).ok().unwrap().id, "i");
    assert!(login_with("n".to_string(), u.clone(), Ok(false)).is_err());
    assert_eq!(login_with("n".to_string(), u.clone(), Err("bad".to_string())).err().unwrap().private_error, "bad");
    assert!(user_deletion_with(u.clone(), Ok(true)).is_ok());
    assert_eq!(user_deletion_with(u, Err("e".to_string())).err().unwrap().response_status(), Status::InternalServerError);
    let nu = registration_with("z".to_string(), None, Ok("h".to_string()), "d".to_string()).ok().unwrap();
    assert_eq!(nu.date, "d");
    assert!(registration_with("z".to_string(), None, Err("rand".to_string()), "d".to_string()).is_err());
}

#[test]
fn deletion_identity_check() {
    let t = UserToken { name: "alice".to_string(), id: "i".to_string() };
    assert!(check_deletion_identity("alice", &t).is_ok());
    let e = check_deletion_identity("bob", &t).err().unwrap();
    assert_eq!(e.response_status(), Status::Forbidden);
    assert_eq!(e.private_error, "Name and token don't match");
}
