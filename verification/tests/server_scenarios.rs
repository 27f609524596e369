//! The server's own scenarios, played against the decisions the routes
//! take once the theme has been looked up.
use ravenserver::auth::{query_token, token_outcome, AuthOutcome, UserToken};
use ravenserver::error::Status;
use ravenserver::metadata::{metadata_kind, theme_metadata};
use ravenserver::themes::{MongoMetadata, Theme};

fn fall() -> Theme {
    Theme {
        name: "fall".to_string(),
        date: "Sat, 1 Sep 2018 10:00:00 +0000".to_string(),
        author: "owner-id".to_string(),
        pauthor: "nicohman".to_string(),
        path: "fall.tar".to_string(),
        screen: "https://i.imgur.com/fall.png".to_string(),
        updated: "Sat, 1 Sep 2018 10:00:00 +0000".to_string(),
        description: "An autumn theme".to_string(),
        installs_bits: 0,
        votes_bits: 0,
        reports: vec![],
        approved: false,
        mongo: MongoMetadata { id: "5b8a5e1f0000000000000000".to_string() },
    }
}

fn owner() -> UserToken {
    UserToken { name: "nicohman".to_string(), id: "owner-id".to_string() }
}

#[test]
fn get_fall_metadata() {
    let (screen, description) = theme_metadata("fall".to_string(), Some(fall())).ok().unwrap();
    assert_eq!(screen, "https://i.imgur.com/fall.png");
    assert_eq!(description, "An autumn theme");
}

#[test]
fn no_token() {
    let query = "typem=screen&value=https://malicious.com";
    let token = query_token(query);
    assert!(token.is_none());
    match token_outcome(token.map(|_| None)) {
        AuthOutcome::Failure(status) => assert_eq!(status, Status::Unauthorized),
        AuthOutcome::Success(_) => panic!("a request without a token was let in"),
    }
}

#[test]
fn metadata_not_found() {
    let e = theme_metadata("utter_gibberish".to_string(), None).err().unwrap();
    assert_eq!(e.response_status(), Status::NotFound);
    assert_eq!(e.response_status().code(), 404);
}

#[test]
fn update_metadata() {
    let stored = fall();
    let (previous_screen, previous_description) = theme_metadata("fall".to_string(), Some(stored.clone())).ok().unwrap();
    let query = "typem=description&value=testing&token=signed";
    assert_eq!(query_token(query), Some("signed".to_string()));
    let kind = metadata_kind("description").unwrap();
    let saved = ravenserver::metadata::update_metadata("fall".to_string(), Some(stored), &owner(), kind, "testing".to_string())
        .ok()
        .unwrap();
    let (new_screen, new_description) = theme_metadata("fall".to_string(), Some(saved.clone())).ok().unwrap();
    assert_ne!(new_description, previous_description);
    assert_eq!(new_screen, previous_screen);
    let restored =
        ravenserver::metadata::update_metadata("fall".to_string(), Some(saved), &owner(), kind, previous_description.clone())
            .ok()
            .unwrap();
    assert_eq!(restored.description, previous_description);
}
