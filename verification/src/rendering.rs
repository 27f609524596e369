//! How themes are shown in listings, and the contexts handed to the page
//! templates.
use vstd::prelude::*;
use crate::error::{WebError, is_not_found};
use crate::text::{replace, replace_all, shorten, shortened, cuts_cleanly};
use crate::themes::{Theme, User};

verus! {

/// Address of the image proxy that screenshots are shown through.
pub open spec fn image_proxy() -> Seq<char> {
    "https://images.weserv.nl/?url="@
}

/// A screenshot address as shown in a listing: empty stays empty; otherwise
/// the address with every "https://" and then every "http://" removed,
/// behind the image proxy.
pub open spec fn proxied_screen(screen: Seq<char>) -> Seq<char> {
    if screen.len() > 0 {
        image_proxy() + replace_all(replace_all(screen, "https://"@, ""@), "http://"@, ""@)
    } else {
        screen
    }
}

/// `r` is how theme `t` is shown in a listing: the screenshot goes through
/// the image proxy, a long description is shortened, nothing else changes.
pub open spec fn shown_as(t: Theme, r: Theme) -> bool {
    &&& r.screen@ == proxied_screen(t.screen@)
    &&& r.description@ == shortened(t.description@)
    &&& r.name == t.name
    &&& r.date == t.date
    &&& r.author == t.author
    &&& r.pauthor == t.pauthor
    &&& r.path == t.path
    &&& r.updated == t.updated
    &&& r.installs_bits == t.installs_bits
    &&& r.votes_bits == t.votes_bits
    &&& r.reports == t.reports
    &&& r.approved == t.approved
    &&& r.mongo == t.mongo
}

/// Every theme of the sequence can be shown without cutting a character.
pub open spec fn all_cut_cleanly(ts: Seq<Theme>) -> bool {
    forall|i: int| 0 <= i < ts.len() ==> cuts_cleanly(#[trigger] ts[i].description@)
}

/// Prepares one theme for a listing.
pub fn display_theme(t: Theme) -> (r: Theme)
    requires
        cuts_cleanly(t.description@),
    ensures
        shown_as(t, r),
{
    let Theme {
        name,
        date,
        author,
        pauthor,
        path,
        screen,
        updated,
        description,
        installs_bits,
        votes_bits,
        reports,
        approved,
        mongo,
    } = t;
    let screen = if !screen.as_str().is_empty() {
        proof {
            reveal_strlit("https://");
            reveal_strlit("http://");
        }
        let without_https = replace(screen.as_str(), "https://", "");
        let bare = replace(without_https.as_str(), "http://", "");
        let mut shown = String::from_str("https://images.weserv.nl/?url=");
        shown.append(bare.as_str());
        shown
    } else {
        screen
    };
    let description = shorten(description);
    Theme {
        name,
        date,
        author,
        pauthor,
        path,
        screen,
        updated,
        description,
        installs_bits,
        votes_bits,
        reports,
        approved,
        mongo,
    }
}

/// Prepares themes for a listing, keeping their order.
pub fn prepare_themes(themes: Vec<Theme>) -> (r: Vec<Theme>)
    requires
        all_cut_cleanly(themes@),
    ensures
        r@.len() == themes@.len(),
        forall|i: int| 0 <= i < themes@.len() ==> shown_as(themes@[i], #[trigger] r@[i]),
{
    let ghost initial = themes@;
    let mut rest = themes;
    let mut out: Vec<Theme> = Vec::new();
    while rest.len() > 0
        invariant
            out@.len() + rest@.len() == initial.len(),
            rest@ == initial.subrange(out@.len() as int, initial.len() as int),
            all_cut_cleanly(initial),
            forall|i: int| 0 <= i < out@.len() ==> shown_as(initial[i], #[trigger] out@[i]),
        decreases rest@.len(),
    {
        let ghost k = out@.len();
        let t = rest.remove(0);
        assert(t == initial[k as int]);
        let shown = display_theme(t);
        out.push(shown);
        assert(rest@ =~= initial.subrange(out@.len() as int, initial.len() as int));
    }
    out
}

/// The themes that decoded, in order.
pub open spec fn decoded_only(s: Seq<Option<Theme>>) -> Seq<Theme>
    decreases s.len(),
{
    if s.len() == 0 {
        Seq::empty()
    } else {
        let rest = decoded_only(s.subrange(1, s.len() as int));
        match s[0] {
            Some(t) => seq![t] + rest,
            None => rest,
        }
    }
}

/// Listings keep every document that decoded, whatever its fields, in
/// order, and drop only those that did not: a decoded theme alone is kept
/// as it is, an undecodable document alone gives nothing, and a list of
/// documents gives what its parts give, one after the other.
pub proof fn listings_keep_every_decoded_theme(t: Theme, a: Seq<Option<Theme>>, b: Seq<Option<Theme>>)
    ensures
        decoded_only(seq![Some(t)]) == seq![t],
        decoded_only(seq![None::<Theme>]) == Seq::<Theme>::empty(),
        decoded_only(a + b) == decoded_only(a) + decoded_only(b),
        decoded_only(a).len() <= a.len(),
    decreases a.len(),
{
    let empty = Seq::<Option<Theme>>::empty();
    assert(decoded_only(empty) == Seq::<Theme>::empty());
    let one = seq![Some(t)];
    assert(one.subrange(1, 1) =~= empty);
    assert(one[0] == Some(t));
    assert(decoded_only(one) =~= seq![t] + Seq::<Theme>::empty());
    assert(decoded_only(one) =~= seq![t]);
    let none = seq![None::<Theme>];
    assert(none.subrange(1, 1) =~= empty);
    assert(none[0] == None::<Theme>);
    if a.len() == 0 {
        assert(a + b =~= b);
        assert(decoded_only(a) + decoded_only(b) =~= decoded_only(b));
    } else {
        let tail = a.subrange(1, a.len() as int);
        listings_keep_every_decoded_theme(t, tail, b);
        assert((a + b).subrange(1, (a + b).len() as int) =~= tail + b);
        assert((a + b)[0] == a[0]);
        match a[0] {
            Some(x) => {
                assert(decoded_only(a + b) =~= seq![x] + (decoded_only(tail) + decoded_only(b)));
                assert(decoded_only(a) + decoded_only(b) =~= seq![x] + decoded_only(tail) + decoded_only(b));
            },
            None => {},
        }
    }
}

/// Keeps the documents that decoded to themes, dropping the others.
pub fn keep_decoded(docs: Vec<Option<Theme>>) -> (r: Vec<Theme>)
    ensures
        r@ == decoded_only(docs@),
{
    let ghost initial = docs@;
    let mut rest = docs;
    let mut out: Vec<Theme> = Vec::new();
    assert(initial.subrange(0, initial.len() as int) =~= initial);
    while rest.len() > 0
        invariant
            rest@.len() <= initial.len(),
            rest@ == initial.subrange(initial.len() - rest@.len(), initial.len() as int),
            out@ + decoded_only(rest@) == decoded_only(initial),
        decreases rest@.len(),
    {
        let ghost before = rest@;
        let d = rest.remove(0);
        assert(rest@ =~= before.subrange(1, before.len() as int));
        assert(rest@ =~= initial.subrange(initial.len() - rest@.len(), initial.len() as int));
        match d {
            Some(t) => {
                out.push(t);
                assert(out@ + decoded_only(rest@) =~= decoded_only(initial));
            },
            None => {},
        }
    }
    assert(out@ + decoded_only(rest@) =~= out@);
    out
}

/// The values handed to a page template. Keys whose field is `None` are
/// absent from the page's context.
pub struct PageContext {
    /// Always set: whether pages link to the downloads.
    pub include_downloads: bool,
    pub ptitle: Option<String>,
    pub constraints: Option<String>,
    pub name: Option<String>,
    pub theme: Option<Theme>,
    pub themes: Option<Vec<Theme>>,
}

/// The context every page starts from: downloads are linked, nothing else
/// is set.
pub open spec fn is_base(c: PageContext) -> bool {
    &&& c.include_downloads
    &&& c.ptitle is None
    &&& c.constraints is None
    &&& c.name is None
    &&& c.theme is None
    &&& c.themes is None
}

/// The context every page starts from.
pub fn base_context() -> (r: PageContext)
    ensures
        is_base(r),
{
    PageContext {
        include_downloads: true,
        ptitle: None,
        constraints: None,
        name: None,
        theme: None,
        themes: None,
    }
}

/// Context of the "about" page.
pub fn about_context() -> (r: PageContext)
    ensures
        is_base(r),
{
    base_context()
}

/// Title of the report pages.
pub open spec fn report_title() -> Seq<char> {
    "Report a Theme"@
}

/// Context of the page for reporting a theme, with the theme's name when
/// one is given.
pub fn report_context(name: Option<String>) -> (r: PageContext)
    ensures
        r.include_downloads,
        r.ptitle matches Some(t) && t@ == report_title(),
        r.name == name,
        r.constraints is None,
        r.theme is None,
        r.themes is None,
{
    let mut c = base_context();
    c.ptitle = Some(String::from_str("Report a Theme"));
    c.name = name;
    c
}

/// Context of a theme's own page.
pub fn theme_context(theme: Theme) -> (r: PageContext)
    ensures
        r.include_downloads,
        r.theme == Some(theme),
        r.ptitle is None,
        r.constraints is None,
        r.name is None,
        r.themes is None,
{
    let mut c = base_context();
    c.theme = Some(theme);
    c
}

/// The field a listing is sorted by, largest first.
#[derive(Clone, Copy, Debug, PartialEq, Eq, Structural)]
pub enum SortField {
    Installs,
    Updated,
}

/// A listing of themes: which themes (all, or those of one author), in
/// which order (by the field, largest first), under which title and
/// subtitle.
pub struct ThemeListing {
    pub author: Option<String>,
    pub sort_by: SortField,
    pub ptitle: String,
    pub constraints: Option<String>,
}

/// The home page: all themes, most installed first.
pub fn index_listing() -> (r: ThemeListing)
    ensures
        r.author is None,
        r.sort_by == SortField::Installs,
        r.ptitle@ == "All themes"@,
        r.constraints matches Some(c) && c@ == "Sorted by most popular"@,
{
    ThemeListing {
        author: None,
        sort_by: SortField::Installs,
        ptitle: String::from_str("All themes"),
        constraints: Some(String::from_str("Sorted by most popular")),
    }
}

/// The recent page: all themes, most recently updated first.
pub fn recent_listing() -> (r: ThemeListing)
    ensures
        r.author is None,
        r.sort_by == SortField::Updated,
        r.ptitle@ == "All themes"@,
        r.constraints matches Some(c) && c@ == "Sorted by most recent"@,
{
    ThemeListing {
        author: None,
        sort_by: SortField::Updated,
        ptitle: String::from_str("All themes"),
        constraints: Some(String::from_str("Sorted by most recent")),
    }
}

/// A user's page: that user's themes, most installed first, or "not found"
/// with the id when no user has it.
pub fn user_themes_listing(id: String, found: Option<User>) -> (r: Result<ThemeListing, WebError>)
    ensures
        found is None ==> (r matches Err(e) && is_not_found(e, id@)),
        found matches Some(u) ==> (r matches Ok(l) && {
            &&& l.author == Some(id)
            &&& l.sort_by == SortField::Installs
            &&& l.ptitle@ == "All themes by "@ + u.name@
            &&& l.constraints is None
        }),
{
    match found {
        None => Err(WebError::not_found(id)),
        Some(u) => {
            let title = String::from_str("All themes by ").concat(u.name.as_str());
            Ok(ThemeListing { author: Some(id), sort_by: SortField::Installs, ptitle: title, constraints: None })
        },
    }
}

/// The subtitle a listing shows: its constraints, or nothing.
pub open spec fn shown_constraints(l: ThemeListing) -> Seq<char> {
    match l.constraints {
        Some(c) => c@,
        None => Seq::empty(),
    }
}

/// Context of a listing page, given the documents the listing's query
/// returned: those that decode to themes are shown, in order.
pub fn listing_context(listing: ThemeListing, docs: Vec<Option<Theme>>) -> (r: PageContext)
    requires
        all_cut_cleanly(decoded_only(docs@)),
    ensures
        r.include_downloads,
        r.ptitle == Some(listing.ptitle),
        r.constraints matches Some(c) && c@ == shown_constraints(listing),
        r.name is None,
        r.theme is None,
        r.themes matches Some(ts) && ts@.len() == decoded_only(docs@).len() && forall|i: int|
            0 <= i < ts@.len() ==> shown_as(decoded_only(docs@)[i], #[trigger] ts@[i]),
{
    let ThemeListing { author: _, sort_by: _, ptitle, constraints } = listing;
    let constraints = match constraints {
        Some(c) => c,
        None => String::new(),
    };
    let themes = prepare_themes(keep_decoded(docs));
    let mut c = base_context();
    c.ptitle = Some(ptitle);
    c.constraints = Some(constraints);
    c.themes = Some(themes);
    c
}

} // verus!
