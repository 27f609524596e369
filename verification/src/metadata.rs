//! The metadata of a theme that its author may edit: its screenshot and its
//! description.
use vstd::prelude::*;
use crate::auth::UserToken;
use crate::error::{Status, WebError, is_not_found, is_refusal};
use crate::routes::owns;
use crate::themes::Theme;

verus! {

/// Which piece of metadata a request edits.
#[derive(Clone, Copy, Debug, PartialEq, Eq, Structural)]
pub enum MetaDataType {
    Screen,
    Description,
}

/// A character with ASCII capitals turned into small letters.
pub open spec fn ascii_lower(c: char) -> char {
    if 'A' <= c <= 'Z' {
        ((c as u32) + 32) as char
    } else {
        c
    }
}

/// Two texts are equal when ASCII letter case is ignored.
pub open spec fn eq_ignore_ascii_case(a: Seq<char>, b: Seq<char>) -> bool {
    a.len() == b.len() && forall|i: int| 0 <= i < a.len() ==> ascii_lower(#[trigger] a[i]) == ascii_lower(b[i])
}

/// The kind a query value names: the name of a variant, ASCII letter case
/// ignored.
pub open spec fn named_kind(v: Seq<char>) -> Option<MetaDataType> {
    if eq_ignore_ascii_case(v, "screen"@) {
        Some(MetaDataType::Screen)
    } else if eq_ignore_ascii_case(v, "description"@) {
        Some(MetaDataType::Description)
    } else {
        None
    }
}

fn lower_char(c: char) -> (r: char)
    ensures
        r == ascii_lower(c),
{
    if 'A' <= c && c <= 'Z' {
        let b = (c as u8) + 32;
        b as char
    } else {
        c
    }
}

fn equal_ignoring_case(a: &str, b: &str) -> (r: bool)
    ensures
        r == eq_ignore_ascii_case(a@, b@),
{
    let n = a.unicode_len();
    if n != b.unicode_len() {
        return false;
    }
    let mut i: usize = 0;
    while i < n
        invariant
            n == a@.len(),
            n == b@.len(),
            i <= n,
            forall|j: int| 0 <= j < i ==> ascii_lower(#[trigger] a@[j]) == ascii_lower(b@[j]),
        decreases n - i,
    {
        if lower_char(a.get_char(i)) != lower_char(b.get_char(i)) {
            return false;
        }
        i = i + 1;
    }
    true
}

/// Reads the kind of metadata a query value names.
pub fn metadata_kind(v: &str) -> (r: Option<MetaDataType>)
    ensures
        r == named_kind(v@),
{
    if equal_ignoring_case(v, "screen") {
        Some(MetaDataType::Screen)
    } else if equal_ignoring_case(v, "description") {
        Some(MetaDataType::Description)
    } else {
        None
    }
}

/// The metadata a theme shows: its screenshot and its description.
pub open spec fn metadata_of(t: Theme) -> (Seq<char>, Seq<char>) {
    (t.screen@, t.description@)
}

/// Theme `t` with the piece of metadata `kind` set to `value`.
pub open spec fn with_metadata(t: Theme, kind: MetaDataType, value: String) -> Theme {
    match kind {
        MetaDataType::Screen => Theme { screen: value, ..t },
        MetaDataType::Description => Theme { description: value, ..t },
    }
}

/// Answers a request for the metadata of theme `name`: its screenshot and
/// its description.
pub fn theme_metadata(name: String, found: Option<Theme>) -> (r: Result<(String, String), WebError>)
    ensures
        found is None ==> (r matches Err(e) && is_not_found(e, name@)),
        found matches Some(t) ==> (r matches Ok(m) && (m.0@, m.1@) == metadata_of(t)),
{
    match found {
        None => Err(WebError::not_found(name)),
        Some(t) => Ok((t.screen, t.description)),
    }
}

/// Decides an edit of the metadata of theme `name` by the holder of
/// `token`: only the author may edit; on success, the theme to save.
pub fn update_metadata(
    name: String,
    found: Option<Theme>,
    token: &UserToken,
    kind: MetaDataType,
    value: String,
) -> (r: Result<Theme, WebError>)
    ensures
        found is None ==> (r matches Err(e) && is_not_found(e, name@)),
        found matches Some(t) ==> {
            &&& owns(*token, t) ==> r == Ok::<Theme, WebError>(with_metadata(t, kind, value))
            &&& !owns(*token, t) ==> (r matches Err(e) && is_refusal(e, Status::Forbidden, "Not Allowed"@))
        },
{
    match found {
        None => Err(WebError::not_found(name)),
        Some(mut t) => {
            if token.id == t.author {
                match kind {
                    MetaDataType::Screen => t.screen = value,
                    MetaDataType::Description => t.description = value,
                }
                Ok(t)
            } else {
                Err(WebError::refused("Not Allowed", Status::Forbidden))
            }
        },
    }
}

/// Metadata written by a theme's author is what a later read returns: the
/// piece written holds the value, the other piece is unchanged.
pub proof fn metadata_read_after_write(t: Theme, kind: MetaDataType, value: String)
    ensures
        kind == MetaDataType::Screen ==> metadata_of(with_metadata(t, kind, value)) == (value@, t.description@),
        kind == MetaDataType::Description ==> metadata_of(with_metadata(t, kind, value)) == (t.screen@, value@),
{
}

} // verus!
