use ravenserver::auth::UserToken;
use ravenserver::error::Status;
use ravenserver::routes::{
    check_content_length, download_decision, plan_upload, plan_upload_at, theme_deletion,
    theme_page, UploadWrite, MAX_FILE_SIZE,
};
use ravenserver::themes::{MongoMetadata, Report, Theme};

fn theme(name: &str, author: &str, reports: usize, approved: bool) -> Theme {
    Theme {
        name: name.to_string(),
        date: "d0".to_string(),
        author: author.to_string(),
        pauthor: "alice".to_string(),
        path: format!("{}.tar", name),
        screen: "".to_string(),
        updated: "d0".to_string(),
        description: "desc".to_string(),
        installs_bits: 0,
        votes_bits: 0,
        reports: (0..reports)
            .map(|i| Report { date_millis: i as i64, reason: "r".to_string(), info: "i".to_string() })
            .collect(),
        approved,
        mongo: MongoMetadata { id: "oid".to_string() },
    }
}

fn token(name: &str, id: &str) -> UserToken {
    UserToken { name: name.to_string(), id: id.to_string() }
}

#[test]
fn download_statuses() {
    let (s, p) = download_decision("fall".to_string(), Some(theme("fall", "id1", 0, false))).ok().unwrap();
    assert_eq!((s, p.as_str()), (Status::Success, "fall.tar"));
    let (s, _) = download_decision("fall".to_string(), Some(theme("fall", "id1", 2, false))).ok().unwrap();
    assert_eq!(s, Status::AlreadyReported);
    assert_eq!(s.code(), 208);
    let (s, _) = download_decision("fall".to_string(), Some(theme("fall", "id1", 2, true))).ok().unwrap();
    assert_eq!(s, Status::Success);
    let e = download_decision("utter_gibberish".to_string(), None).err().unwrap();
    assert_eq!(e.response_status(), Status::NotFound);
    assert_eq!(e.public_message(), "utter_gibberish");
}

#[test]
fn theme_page_shows_the_theme() {
    let c = theme_page("fall".to_string(), Some(theme("fall", "id1", 0, false))).ok().unwrap();
    assert_eq!(c.theme.unwrap().name, "fall");
    assert!(c.include_downloads);
    assert!(theme_page("x".to_string(), None).is_err());
}

#[test]
fn only_the_author_deletes_a_theme() {
    let t = theme_deletion("fall".to_string(), Some(theme("fall", "id1", 0, false)), &token("alice", "id1"));
    assert_eq!(t.ok().unwrap().name, "fall");
    let e = theme_deletion("fall".to_string(), Some(theme("fall", "id1", 0, false)), &token("mallory", "id2"))
        .err()
        .unwrap();
    assert_eq!(e.response_status(), Status::Forbidden);
    assert_eq!(e.private_error, "Not allowed to delete this theme");
    let e = theme_deletion("gone".to_string(), None, &token("alice", "id1")).err().unwrap();
    assert_eq!(e.response_status(), Status::NotFound);
}

#[test]
fn uploading_a_new_theme_inserts_it() {
    let p = plan_upload_at("spring".to_string(), None, &token("alice", "id1"), "now".to_string()).ok().unwrap();
    assert_eq!(p.status, Status::Created);
    assert_eq!(p.filename, "spring.tar");
    match p.write {
        UploadWrite::Insert(n) => {
            assert_eq!(n.name, "spring");
            assert_eq!(n.author, "id1");
            assert_eq!(n.pauthor, "alice");
            assert_eq!(n.updated, "now");
            assert_eq!(n.date, "now");
            assert_eq!(n.description, "This theme doesn't have a description yet.");
            assert_eq!(n.screen, "");
            assert_eq!(n.path, "spring.tar");
        }
        UploadWrite::Save(_) => panic!("expected an insert"),
    }
}

#[test]
fn uploading_a_new_version_saves_it() {
    let p = plan_upload_at("fall".to_string(), Some(theme("fall", "id1", 1, false)), &token("alice", "id1"), "later".to_string())
        .ok()
        .unwrap();
    assert_eq!(p.status, Status::Success);
    assert_eq!(p.filename, "fall.tar");
    match p.write {
        UploadWrite::Save(t) => {
            assert_eq!(t.updated, "later");
            assert_eq!(t.date, "d0");
            assert_eq!(t.reports.len(), 1);
        }
        UploadWrite::Insert(_) => panic!("expected a save"),
    }
    let e = plan_upload_at("fall".to_string(), Some(theme("fall", "id1", 0, false)), &token("mallory", "id2"), "x".to_string())
        .err()
        .unwrap();
    assert_eq!(e.response_status(), Status::Forbidden);
    assert_eq!(e.private_error, "Not owned by you");
}

#[test]
fn upload_dates_come_from_the_clock() {
    let p = plan_upload("new".to_string(), None, &token("alice", "id1")).ok().unwrap();
    match p.write {
        UploadWrite::Insert(n) => {
            assert!(!n.date.is_empty());
            assert_eq!(n.date, n.updated);
            assert!(chrono::DateTime::parse_from_rfc2822(&n.date).is_ok());
        }
        UploadWrite::Save(_) => panic!("expected an insert"),
    }
}

#[test]
fn content_length_check() {
    assert!(check_content_length(Some("1024")).is_ok());
    assert!(check_content_length(Some("49999999")).is_ok());
    assert!(check_content_length(Some("-1")).is_ok());
    let e = check_content_length(Some(&MAX_FILE_SIZE.to_string())).err().unwrap();
    assert_eq!(e.0, Status::PayloadTooLarge);
    assert_eq!(e.1, "Theme too big");
    let e = check_content_length(Some("12 bytes")).err().unwrap();
    assert_eq!(e.0, Status::UnprocessableEntity);
    assert_eq!(e.1, "No valid content-length header");
    let e = check_content_length(Some("99999999999999999999")).err().unwrap();
    assert_eq!(e.1, "No valid content-length header");
    let e = check_content_length(None).err().unwrap();
    assert_eq!(e.0, Status::UnprocessableEntity);
    assert_eq!(e.1, "No content-length header");
}
