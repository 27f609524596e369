//! The decisions the theme routes take once the theme they name has been
//! looked up.
use vstd::prelude::*;
use crate::auth::UserToken;
use crate::error::{Status, WebError, is_not_found, is_refusal};
use crate::clock::{now_rfc2822, rfc2822_shaped};
use crate::rendering::{PageContext, theme_context};
use crate::text::{parse_i64, parsed_i64};
use crate::themes::{MongoMetadata, Theme};

verus! {

/// Largest size, exclusive, of an uploaded theme archive, in bytes.
pub const MAX_FILE_SIZE: i64 = 50000000;

/// The status a theme's download is answered with: reported themes that
/// were not approved are flagged as "already reported".
pub open spec fn download_status(t: Theme) -> Status {
    if t.reports.len() > 0 && !t.approved {
        Status::AlreadyReported
    } else {
        Status::Success
    }
}

/// Decides the answer to a download of the theme `name`: the status and the
/// archive's file name, or "not found".
pub fn download_decision(name: String, found: Option<Theme>) -> (r: Result<(Status, String), WebError>)
    ensures
        found is None ==> (r matches Err(e) && is_not_found(e, name@)),
        found matches Some(t) ==> r == Ok::<(Status, String), WebError>((download_status(t), t.path)),
{
    match found {
        None => Err(WebError::not_found(name)),
        Some(t) => {
            let status = if t.reports.len() > 0 && !t.approved {
                Status::AlreadyReported
            } else {
                Status::Success
            };
            Ok((status, t.path))
        },
    }
}

/// Decides the page of the theme `name`.
pub fn theme_page(name: String, found: Option<Theme>) -> (r: Result<PageContext, WebError>)
    ensures
        found is None ==> (r matches Err(e) && is_not_found(e, name@)),
        found matches Some(t) ==> (r matches Ok(c) && {
            &&& c.include_downloads
            &&& c.theme == Some(t)
            &&& c.ptitle is None
            &&& c.constraints is None
            &&& c.name is None
            &&& c.themes is None
        }),
{
    match found {
        None => Err(WebError::not_found(name)),
        Some(t) => Ok(theme_context(t)),
    }
}

/// Whether the holder of `token` owns theme `t`.
pub open spec fn owns(token: UserToken, t: Theme) -> bool {
    token.id@ == t.author@
}

/// Decides whether the holder of `token` may delete the theme `name`; on
/// success, the theme to delete.
pub fn theme_deletion(name: String, found: Option<Theme>, token: &UserToken) -> (r: Result<Theme, WebError>)
    ensures
        found is None ==> (r matches Err(e) && is_not_found(e, name@)),
        found matches Some(t) ==> {
            &&& owns(*token, t) ==> r == Ok::<Theme, WebError>(t)
            &&& !owns(*token, t) ==> (r matches Err(e) && is_refusal(
                e,
                Status::Forbidden,
                "Not allowed to delete this theme"@,
            ))
        },
{
    match found {
        None => Err(WebError::not_found(name)),
        Some(t) => {
            if token.id == t.author {
                Ok(t)
            } else {
                Err(WebError::refused("Not allowed to delete this theme", Status::Forbidden))
            }
        },
    }
}

/// The fields a newly uploaded theme is stored with.
pub struct NewTheme {
    pub name: String,
    pub author: String,
    pub pauthor: String,
    pub updated: String,
    pub date: String,
    pub description: String,
    pub screen: String,
    pub path: String,
}

/// What an upload writes to the database.
pub enum UploadWrite {
    /// The theme existed: it is saved back with a new update date.
    Save(Theme),
    /// The theme is new: this document is inserted.
    Insert(NewTheme),
}

/// How an upload is carried out: the status it answers with, the archive's
/// file name (which the answer carries too), and the database write.
pub struct UploadPlan {
    pub status: Status,
    pub filename: String,
    pub write: UploadWrite,
}

/// The description a new theme starts with.
pub open spec fn default_description() -> Seq<char> {
    "This theme doesn't have a description yet."@
}

/// `p` uploads theme `name`, which did not exist, for the holder of `token`
/// at time `date`.
pub open spec fn plans_insert(p: UploadPlan, name: String, token: UserToken, date: Seq<char>) -> bool {
    &&& p.status == Status::Created
    &&& p.filename@ == name@ + ".tar"@
    &&& p.write matches UploadWrite::Insert(n) && {
        &&& n.name == name
        &&& n.author == token.id
        &&& n.pauthor == token.name
        &&& n.updated@ == date
        &&& n.date@ == date
        &&& n.description@ == default_description()
        &&& n.screen@ == Seq::<char>::empty()
        &&& n.path@ == name@ + ".tar"@
    }
}

/// `p` uploads a new version of theme `t`, named `name`, at time `date`.
pub open spec fn plans_save(p: UploadPlan, name: String, t: Theme, date: Seq<char>) -> bool {
    &&& p.status == Status::Success
    &&& p.filename@ == name@ + ".tar"@
    &&& p.write matches UploadWrite::Save(s) && {
        &&& s.updated@ == date
        &&& s == Theme { updated: s.updated, ..t }
    }
}

/// Whether `r` plans the upload of theme `name` by the holder of `token` at
/// time `date`, given the theme of that name if there is one: a new theme is
/// inserted; an existing one is saved with the new date when the uploader
/// is its author, and refused otherwise.
pub open spec fn upload_planned(
    name: String,
    found: Option<Theme>,
    token: UserToken,
    date: Seq<char>,
    r: Result<UploadPlan, WebError>,
) -> bool {
    match found {
        None => r matches Ok(p) && plans_insert(p, name, token, date),
        Some(t) => if owns(token, t) {
            r matches Ok(p) && plans_save(p, name, t, date)
        } else {
            r matches Err(e) && is_refusal(e, Status::Forbidden, "Not owned by you"@)
        },
    }
}

/// Plans the upload of theme `name` by the holder of `token` at time
/// `date`, given the theme of that name if there is one: only its author
/// may upload a new version.
pub fn plan_upload_at(name: String, found: Option<Theme>, token: &UserToken, date: String) -> (r: Result<UploadPlan, WebError>)
    ensures
        upload_planned(name, found, *token, date@, r),
{
    let filename = name.clone().concat(".tar");
    match found {
        Some(mut t) => {
            if t.author != token.id {
                return Err(WebError::refused("Not owned by you", Status::Forbidden));
            }
            t.updated = date;
            Ok(UploadPlan { status: Status::Success, filename, write: UploadWrite::Save(t) })
        },
        None => {
            let new_theme = NewTheme {
                name,
                author: token.id.clone(),
                pauthor: token.name.clone(),
                updated: date.clone(),
                date,
                description: String::from_str("This theme doesn't have a description yet."),
                screen: String::new(),
                path: filename.clone(),
            };
            Ok(UploadPlan { status: Status::Created, filename, write: UploadWrite::Insert(new_theme) })
        },
    }
}

/// Whether `r` plans the upload of theme `name` by the holder of `token`,
/// given the theme of that name if there is one, at a time read off the
/// clock.
pub open spec fn upload_planned_now(name: String, found: Option<Theme>, token: UserToken, r: Result<UploadPlan, WebError>) -> bool {
    exists|d: Seq<char>| rfc2822_shaped(d) && upload_planned(name, found, token, d, r)
}

/// An upload is stamped with a date read off the clock: a new version of
/// one's own theme keeps every field but its update date, which becomes a
/// date in RFC 2822 form; a new theme is dated and updated at one such
/// date. Another user's theme is never written.
pub proof fn uploads_are_stamped_by_the_clock(
    name: String,
    found: Option<Theme>,
    token: UserToken,
    r: Result<UploadPlan, WebError>,
)
    requires
        upload_planned_now(name, found, token, r),
    ensures
        found matches Some(t) ==> (token.id@ == t.author@ ==> (r matches Ok(p) && (p.status == Status::Success
            && (p.write matches UploadWrite::Save(s) && {
            &&& rfc2822_shaped(s.updated@)
            &&& s.name == t.name && s.date == t.date && s.author == t.author && s.pauthor == t.pauthor
            &&& s.path == t.path && s.screen == t.screen && s.description == t.description
            &&& s.installs_bits == t.installs_bits && s.votes_bits == t.votes_bits
            &&& s.reports == t.reports && s.approved == t.approved && s.mongo == t.mongo
        })))),
        found matches Some(t) ==> (token.id@ != t.author@ ==> r is Err),
        found is None ==> (r matches Ok(p) && (p.status == Status::Created && (p.write matches UploadWrite::Insert(n)
            && {
            &&& rfc2822_shaped(n.updated@)
            &&& n.date@ == n.updated@
            &&& n.name == name
            &&& n.author == token.id
        }))),
{
    let d = choose|d: Seq<char>| rfc2822_shaped(d) && upload_planned(name, found, token, d, r);
    if found is None {
        let n = r->Ok_0.write->Insert_0;
        assert(n.date@ == n.updated@);
    }
}

/// A theme that has a report against it and is not approved downloads
/// flagged as "already reported"; any other theme downloads with a plain
/// "OK".
pub proof fn reported_themes_are_flagged(t: Theme)
    ensures
        t.reports@.len() >= 1 && !t.approved ==> download_status(t) == Status::AlreadyReported,
        t.reports@.len() == 0 || t.approved ==> download_status(t) == Status::Success,
{
}

/// Plans the upload of theme `name` by the holder of `token`, dated with
/// the current local time; as `plan_upload_at` for whatever time the clock
/// gave.
pub fn plan_upload(name: String, found: Option<Theme>, token: &UserToken) -> (r: Result<UploadPlan, WebError>)
    ensures
        upload_planned_now(name, found, *token, r),
{
    let date = now_rfc2822();
    let ghost d = date@;
    let r = plan_upload_at(name, found, token, date);
    assert(rfc2822_shaped(d) && upload_planned(name, found, *token, d, r));
    r
}

/// Theme `t` is how the document inserted for upload `n` reads back: the
/// inserted fields, and the defaults of the others (no reports, not
/// approved).
pub open spec fn stored_from_insert(t: Theme, n: NewTheme) -> bool {
    &&& t.name == n.name
    &&& t.author == n.author
    &&& t.pauthor == n.pauthor
    &&& t.updated == n.updated
    &&& t.date == n.date
    &&& t.description == n.description
    &&& t.screen == n.screen
    &&& t.path == n.path
    &&& t.reports@.len() == 0
    &&& !t.approved
}

/// A newly uploaded theme, once stored, is owned by its uploader and
/// downloads as the archive the upload wrote, with a plain "OK".
pub proof fn uploaded_theme_is_downloadable(p: UploadPlan, name: String, token: UserToken, date: Seq<char>, t: Theme)
    requires
        plans_insert(p, name, token, date),
        p.write matches UploadWrite::Insert(n) && stored_from_insert(t, n),
    ensures
        owns(token, t),
        download_status(t) == Status::Success,
        t.path@ == p.filename@,
{
}

/// A new version of a theme keeps its author and its archive's name: the
/// uploader still owns it, and downloads still fetch the archive the upload
/// wrote.
pub proof fn updated_theme_keeps_owner_and_archive(p: UploadPlan, name: String, t: Theme, token: UserToken, date: Seq<char>)
    requires
        owns(token, t),
        t.path@ == name@ + ".tar"@,
        plans_save(p, name, t, date),
    ensures
        p.write matches UploadWrite::Save(s) && owns(token, s) && s.path@ == p.filename@,
{
}

/// No two themes of `db` share a name.
pub open spec fn theme_names_distinct(db: Seq<Theme>) -> bool {
    forall|i: int, j: int| 0 <= i < j < db.len() ==> db[i].name@ != db[j].name@
}

/// No two themes of `db` share an object id, as the database keeps it.
pub open spec fn theme_ids_distinct(db: Seq<Theme>) -> bool {
    forall|i: int, j: int| 0 <= i < j < db.len() ==> db[i].mongo.id@ != db[j].mongo.id@
}

/// Whether `found` is what looking theme `name` up in `db` gives: nothing
/// where no theme has that name, else one of the themes of that name.
pub open spec fn theme_lookup(db: Seq<Theme>, name: Seq<char>, found: Option<Theme>) -> bool {
    match found {
        None => forall|i: int| 0 <= i < db.len() ==> db[i].name@ != name,
        Some(t) => t.name@ == name && exists|i: int| 0 <= i < db.len() && db[i] == t,
    }
}

/// The themes of `db` after an upload's write: a save replaces the theme
/// with the saved one's object id; an insert adds `added`, the theme the
/// new document is stored as.
pub open spec fn themes_after(db: Seq<Theme>, w: UploadWrite, added: Theme) -> Seq<Theme> {
    match w {
        UploadWrite::Save(s) => db.map_values(|x: Theme| if x.mongo.id@ == s.mongo.id@ { s } else { x }),
        UploadWrite::Insert(_) => db.push(added),
    }
}

/// Uploads keep theme names unique: uploading under a name that exists
/// rewrites that theme and adds none, so where no two themes shared a name
/// before, none do after the upload's write.
pub proof fn upload_keeps_theme_names_distinct(
    db: Seq<Theme>,
    name: String,
    found: Option<Theme>,
    token: UserToken,
    date: Seq<char>,
    r: Result<UploadPlan, WebError>,
    added: Theme,
)
    requires
        theme_names_distinct(db),
        theme_ids_distinct(db),
        theme_lookup(db, name@, found),
        upload_planned(name, found, token, date, r),
        r matches Ok(p) && p.write matches UploadWrite::Insert(n) ==> stored_from_insert(added, n),
    ensures
        r matches Ok(p) ==> theme_names_distinct(themes_after(db, p.write, added)),
{
    if r is Ok {
        let p = r->Ok_0;
        let after = themes_after(db, p.write, added);
        match found {
            None => {
                assert forall|i: int, j: int| 0 <= i < j < after.len() implies after[i].name@ != after[j].name@ by {
                    if j < db.len() {
                        assert(db[i].name@ != db[j].name@);
                    }
                }
            },
            Some(t) => {
                let s = p.write->Save_0;
                let k = choose|k: int| 0 <= k < db.len() && db[k] == t;
                assert forall|i: int| 0 <= i < db.len() implies after[i].name@ == db[i].name@ by {
                    if db[i].mongo.id@ == s.mongo.id@ && i != k {
                        if i < k {
                            assert(db[i].mongo.id@ != db[k].mongo.id@);
                        } else {
                            assert(db[k].mongo.id@ != db[i].mongo.id@);
                        }
                    }
                }
                assert forall|i: int, j: int| 0 <= i < j < after.len() implies after[i].name@ != after[j].name@ by {
                    assert(db[i].name@ != db[j].name@);
                }
            },
        }
    }
}

/// What the size check of an upload answers, given its `Content-Length`
/// header: accepted when the header holds a decimal integer below the
/// limit; refused as too large when it holds a larger one; refused as
/// unprocessable when it is missing or not an integer.
pub open spec fn length_verdict(header: Option<Seq<char>>) -> Result<(), (Status, Seq<char>)> {
    match header {
        None => Err((Status::UnprocessableEntity, "No content-length header"@)),
        Some(h) => match parsed_i64(h) {
            None => Err((Status::UnprocessableEntity, "No valid content-length header"@)),
            Some(n) => if n < MAX_FILE_SIZE {
                Ok(())
            } else {
                Err((Status::PayloadTooLarge, "Theme too big"@))
            },
        },
    }
}

/// The view of an optional header value.
pub open spec fn header_view(h: Option<&str>) -> Option<Seq<char>> {
    match h {
        Some(s) => Some(s@),
        None => None,
    }
}

/// Checks the `Content-Length` header of an upload before its data is
/// accepted.
pub fn check_content_length(header: Option<&str>) -> (r: Result<(), (Status, String)>)
    ensures
        r is Ok <==> length_verdict(header_view(header)) is Ok,
        r matches Err(e) ==> length_verdict(header_view(header)) == Err::<(), (Status, Seq<char>)>((e.0, e.1@)),
{
    match header {
        None => Err((Status::UnprocessableEntity, String::from_str("No content-length header"))),
        Some(h) => match parse_i64(h) {
            None => Err((Status::UnprocessableEntity, String::from_str("No valid content-length header"))),
            Some(n) => if n < MAX_FILE_SIZE {
                Ok(())
            } else {
                Err((Status::PayloadTooLarge, String::from_str("Theme too big")))
            },
        },
    }
}

} // verus!
