use ravenserver::auth::{query_token, token_outcome, AuthOutcome, UserToken};
use ravenserver::downloads::{
    checksum_table, download_redirect_target, download_table, is_nightly_path, record_download,
};
use ravenserver::error::Status;
use ravenserver::metadata::{metadata_kind, theme_metadata, update_metadata, MetaDataType};
use ravenserver::mongo::{collection_by_name, CollectionName};
use ravenserver::themes::{MongoDocument, MongoMetadata, Theme, User};

fn theme() -> Theme {
    Theme {
        name: "fall".to_string(),
        date: "d".to_string(),
        author: "id1".to_string(),
        pauthor: "alice".to_string(),
        path: "fall.tar".to_string(),
        screen: "https://s.png".to_string(),
        updated: "d".to_string(),
        description: "Autumn".to_string(),
        installs_bits: 0,
        votes_bits: 0,
        reports: vec![],
        approved: false,
        mongo: MongoMetadata { id: "abc".to_string() },
    }
}

#[test]
fn query_tokens() {
    assert_eq!(query_token("a=1&token=abc&token=def"), Some("abc".to_string()));
    assert_eq!(query_token("a=1"), None);
    assert_eq!(query_token(""), None);
    assert_eq!(query_token("token=q%20r+s"), Some("q r s".to_string()));
    assert_eq!(query_token("typem=description&value=testing&token=xyz"), Some("xyz".to_string()));
    assert_eq!(query_token("tokens=1&Token=2"), None);
}

#[test]
fn token_outcomes() {
    assert!(matches!(token_outcome(None), AuthOutcome::Failure(Status::Unauthorized)));
    assert!(matches!(token_outcome(Some(None)), AuthOutcome::Failure(Status::InternalServerError)));
    let t = UserToken { name: "a".to_string(), id: "b".to_string() };
    match token_outcome(Some(Some(t))) {
        AuthOutcome::Success(t) => assert_eq!(t.id, "b"),
        AuthOutcome::Failure(_) => panic!("expected success"),
    }
}

#[test]
fn metadata_kinds() {
    assert_eq!(metadata_kind("screen"), Some(MetaDataType::Screen));
    assert_eq!(metadata_kind("Screen"), Some(MetaDataType::Screen));
    assert_eq!(metadata_kind("DESCRIPTION"), Some(MetaDataType::Description));
    assert_eq!(metadata_kind("descriptions"), None);
    assert_eq!(metadata_kind(""), None);
}

#[test]
fn metadata_reads_back_what_the_author_wrote() {
    let tok = UserToken { name: "alice".to_string(), id: "id1".to_string() };
    let t = update_metadata("fall".to_string(), Some(theme()), &tok, MetaDataType::Description, "testing".to_string())
        .ok()
        .unwrap();
    let (screen, description) = theme_metadata("fall".to_string(), Some(t)).ok().unwrap();
    assert_eq!(description, "testing");
    assert_eq!(screen, "https://s.png");
    let t = update_metadata("fall".to_string(), Some(theme()), &tok, MetaDataType::Screen, "https://new.png".to_string())
        .ok()
        .unwrap();
    assert_eq!(t.screen, "https://new.png");
    assert_eq!(t.description, "Autumn");
}

#[test]
fn metadata_refusals() {
    let other = UserToken { name: "m".to_string(), id: "id2".to_string() };
    let e = update_metadata("fall".to_string(), Some(theme()), &other, MetaDataType::Screen, "x".to_string()).err().unwrap();
    assert_eq!(e.response_status(), Status::Forbidden);
    assert_eq!(e.private_error, "Not Allowed");
    let e = theme_metadata("utter_gibberish".to_string(), None).err().unwrap();
    assert_eq!(e.response_status(), Status::NotFound);
    assert!(update_metadata("n".to_string(), None, &other, MetaDataType::Screen, "x".to_string()).is_err());
}

#[test]
fn downloads_and_checksums() {
    let t = download_table();
    assert_eq!(t.len(), 3);
    assert_eq!(t[0], ("raven".to_string(), "static/raven-nightly".to_string()));
    assert_eq!(t[2].1, "static/eidolon-nightly");
    let sums = checksum_table(vec![("raven".to_string(), "hello".to_string())]);
    assert_eq!(sums, vec![("raven".to_string(), "5d41402abc4b2a76b9719d911017c592".to_string())]);
    assert!(checksum_table(vec![]).is_empty());
    assert_eq!(download_redirect_target(), "https://nicohman.demenses.net/downloads");
}

#[test]
fn download_counting() {
    assert!(is_nightly_path("/static/raven-nightly"));
    assert!(!is_nightly_path("/themes/view/fall"));
    let c = record_download(vec![], "raven-nightly".to_string());
    assert_eq!(c, vec![("raven-nightly".to_string(), 1)]);
    let c = record_download(c, "raven-nightly".to_string());
    assert_eq!(c, vec![("raven-nightly".to_string(), 2)]);
    let c = record_download(c, "ravend-nightly".to_string());
    assert_eq!(c.len(), 2);
    assert_eq!(c[1], ("ravend-nightly".to_string(), 1));
}

#[test]
fn collections() {
    assert_eq!(collection_by_name("themes"), CollectionName::Themes);
    assert_eq!(<Theme as MongoDocument>::collection_name(), "themes");
    assert_eq!(<User as MongoDocument>::collection_name(), "users");
    let t = theme();
    assert_eq!(t.get_id(), "abc");
}
