//! The downloadable programs: where their nightly builds live, their
//! checksums, and the counting of downloads.
use vstd::prelude::*;
use crate::hashing::{md5_hex, md5_hex_of};
use crate::text::{contains, contains_seq};
use std::collections::HashMap;

verus! {

/// The downloads: each program's name and the path of its nightly build.
pub open spec fn download_entries() -> Seq<(Seq<char>, Seq<char>)> {
    seq![
        ("raven"@, "static/raven-nightly"@),
        ("ravend"@, "static/ravend-nightly"@),
        ("eidolon"@, "static/eidolon-nightly"@),
    ]
}

/// The table of downloads, as name and path pairs.
pub fn download_table() -> (r: Vec<(String, String)>)
    ensures
        r@.len() == download_entries().len(),
        forall|i: int|
            0 <= i < r@.len() ==> (#[trigger] r@[i]).0@ == download_entries()[i].0 && r@[i].1@
                == download_entries()[i].1,
{
    let mut v: Vec<(String, String)> = Vec::new();
    v.push((String::from_str("raven"), String::from_str("static/raven-nightly")));
    v.push((String::from_str("ravend"), String::from_str("static/ravend-nightly")));
    v.push((String::from_str("eidolon"), String::from_str("static/eidolon-nightly")));
    v
}

/// Where the downloads page lives.
pub fn download_redirect_target() -> (r: &'static str)
    ensures
        r@ == "https://nicohman.demenses.net/downloads"@,
{
    "https://nicohman.demenses.net/downloads"
}

/// The checksum table of loaded downloads: each name with the MD5 digest of
/// its file's text. The checksums page feeds every file to one MD5 hasher,
/// which refuses any input after its first digest, so at most one file can
/// be summed.
pub fn checksum_table(loaded: Vec<(String, String)>) -> (r: Vec<(String, String)>)
    requires
        loaded@.len() <= 1,
    ensures
        r@.len() == loaded@.len(),
        forall|i: int|
            0 <= i < r@.len() ==> (#[trigger] r@[i]).0 == loaded@[i].0 && r@[i].1@ == md5_hex(
                loaded@[i].1@,
            ),
{
    let mut rest = loaded;
    let mut out: Vec<(String, String)> = Vec::new();
    if rest.len() == 1 {
        let (name, text) = rest.remove(0);
        let sum = md5_hex_of(text.as_str());
        out.push((name, sum));
    }
    out
}

/// Whether a request path fetches a nightly build, which is counted.
pub fn is_nightly_path(path: &str) -> (r: bool)
    ensures
        r == contains_seq(path@, "nightly"@),
{
    contains(path, "nightly")
}

/// No name occurs twice in a table of counts.
pub open spec fn distinct_names(counts: Seq<(String, i64)>) -> bool {
    forall|i: int, j: int| 0 <= i < j < counts.len() ==> counts[i].0@ != counts[j].0@
}

/// The position of `name` in a table of counts.
pub open spec fn position_of(counts: Seq<(String, i64)>, name: Seq<char>, i: int) -> bool {
    0 <= i < counts.len() && counts[i].0@ == name
}

/// Counts one more download of `fname`: its count goes up by one, or it
/// enters the table with a count of one.
pub fn record_download(counts: Vec<(String, i64)>, fname: String) -> (r: Vec<(String, i64)>)
    requires
        distinct_names(counts@),
        forall|i: int| position_of(counts@, fname@, i) ==> counts@[i].1 < i64::MAX,
    ensures
        distinct_names(r@),
        forall|i: int|
            position_of(counts@, fname@, i) ==> r@ == counts@.update(i, (counts@[i].0, (counts@[i].1 + 1) as i64)),
        (forall|i: int| !position_of(counts@, fname@, i)) ==> r@ == counts@.push((fname, 1i64)),
{
    let ghost initial = counts@;
    let mut table = counts;
    let mut i: usize = 0;
    while i < table.len()
        invariant
            table@ == initial,
            initial == counts@,
            distinct_names(initial),
            forall|j: int| position_of(initial, fname@, j) ==> initial[j].1 < i64::MAX,
            i <= table@.len(),
            forall|j: int| 0 <= j < i ==> table@[j].0@ != fname@,
        decreases table@.len() - i,
    {
        if table[i].0 == fname {
            let c = table[i].1;
            let key = table[i].0.clone();
            let ghost before = table@;
            assert(position_of(before, fname@, i as int));
            table.set(i, (key, c + 1));
            assert forall|j: int| position_of(before, fname@, j) implies j == i by {
                if j != i {
                    assert(before[j].0@ != before[i as int].0@);
                }
            }
            assert forall|a: int, b: int| 0 <= a < b < table@.len() implies table@[a].0@ != table@[b].0@ by {
                assert(before[a].0@ != before[b].0@);
            }
            return table;
        }
        i = i + 1;
    }
    let ghost before = table@;
    table.push((fname, 1));
    assert forall|a: int, b: int| 0 <= a < b < table@.len() implies table@[a].0@ != table@[b].0@ by {
        if b < before.len() {
            assert(before[a].0@ != before[b].0@);
        }
    }
    table
}

/// The counts a table holds, by name.
pub open spec fn counts_map(counts: Seq<(String, i64)>) -> Map<Seq<char>, i64> {
    Map::new(
        |k: Seq<char>| exists|i: int| position_of(counts, k, i),
        |k: Seq<char>| counts[choose|i: int| position_of(counts, k, i)].1,
    )
}

/// The counts after one more download of `fname`.
pub open spec fn one_more(m: Map<Seq<char>, i64>, fname: Seq<char>) -> Map<Seq<char>, i64> {
    if m.contains_key(fname) {
        m.insert(fname, (m[fname] + 1) as i64)
    } else {
        m.insert(fname, 1)
    }
}

/// Whether one more download of `fname` would take its count past `i64::MAX`.
pub open spec fn count_full(m: Map<Seq<char>, i64>, fname: Seq<char>) -> bool {
    m.contains_key(fname) && m[fname] == i64::MAX
}

/// The counts by name that `serde_json::from_str` reads from a JSON text
/// into a `HashMap<String, i64>`; `None` where it refuses the text.
pub uninterp spec fn json_counts(text: Seq<char>) -> Option<Map<Seq<char>, i64>>;

/// Reads a JSON object of download counts with `serde_json::from_str` into
/// a `HashMap<String, i64>` and lists its entries. Trusted: it fails exactly
/// where the name `json_counts` is `None`, and otherwise lists each name of
/// that map once, with its count, in the map's own order.
#[verifier::external_body]
fn parse_counts(text: &str) -> (r: Option<Vec<(String, i64)>>)
    ensures
        r is None <==> json_counts(text@) is None,
        r matches Some(v) ==> distinct_names(v@) && json_counts(text@) == Some(counts_map(v@)),
{
    let counts: HashMap<String, i64> = serde_json::from_str(text).ok()?;
    Some(counts.into_iter().collect())
}

proof fn lemma_count_at(c: Seq<(String, i64)>, k: Seq<char>, i: int)
    requires
        distinct_names(c),
        position_of(c, k, i),
    ensures
        counts_map(c).contains_key(k),
        counts_map(c)[k] == c[i].1,
{
    let j = choose|j: int| position_of(c, k, j);
    if j != i {
        if j < i {
            assert(c[j].0@ != c[i].0@);
        } else {
            assert(c[i].0@ != c[j].0@);
        }
    }
}

proof fn lemma_count_absent(c: Seq<(String, i64)>, k: Seq<char>)
    requires
        forall|i: int| !position_of(c, k, i),
    ensures
        !counts_map(c).contains_key(k),
{
}

proof fn lemma_counts_update(c: Seq<(String, i64)>, i: int, n: i64)
    requires
        distinct_names(c),
        0 <= i < c.len(),
    ensures
        counts_map(c.update(i, (c[i].0, n))) == counts_map(c).insert(c[i].0@, n),
{
    let f = c[i].0@;
    let r = c.update(i, (c[i].0, n));
    let a = counts_map(r);
    let b = counts_map(c).insert(f, n);
    assert(distinct_names(r)) by {
        assert forall|x: int, y: int| 0 <= x < y < r.len() implies r[x].0@ != r[y].0@ by {
            assert(c[x].0@ != c[y].0@);
        }
    }
    assert forall|k: Seq<char>| a.contains_key(k) <==> b.contains_key(k) by {
        if a.contains_key(k) {
            let j = choose|j: int| position_of(r, k, j);
            if j != i {
                assert(position_of(c, k, j));
            }
        }
        if b.contains_key(k) {
            if k == f {
                assert(position_of(r, k, i));
            } else {
                let j = choose|j: int| position_of(c, k, j);
                assert(position_of(r, k, j));
            }
        }
    }
    assert forall|k: Seq<char>| a.contains_key(k) implies a[k] == b[k] by {
        let j = choose|j: int| position_of(r, k, j);
        lemma_count_at(r, k, j);
        if k == f {
            lemma_count_at(r, k, i);
        } else {
            assert(j != i);
            assert(position_of(c, k, j));
            lemma_count_at(c, k, j);
        }
    }
    assert(a =~= b);
}

proof fn lemma_counts_push(c: Seq<(String, i64)>, name: String)
    requires
        distinct_names(c),
        forall|i: int| !position_of(c, name@, i),
    ensures
        counts_map(c.push((name, 1i64))) == counts_map(c).insert(name@, 1i64),
{
    let r = c.push((name, 1i64));
    let a = counts_map(r);
    let b = counts_map(c).insert(name@, 1i64);
    assert(distinct_names(r)) by {
        assert forall|x: int, y: int| 0 <= x < y < r.len() implies r[x].0@ != r[y].0@ by {
            if y < c.len() {
                assert(c[x].0@ != c[y].0@);
            } else {
                assert(!position_of(c, name@, x));
            }
        }
    }
    assert forall|k: Seq<char>| a.contains_key(k) <==> b.contains_key(k) by {
        if a.contains_key(k) {
            let j = choose|j: int| position_of(r, k, j);
            if j < c.len() {
                assert(position_of(c, k, j));
            }
        }
        if b.contains_key(k) {
            if k == name@ {
                assert(position_of(r, k, c.len() as int));
            } else {
                let j = choose|j: int| position_of(c, k, j);
                assert(position_of(r, k, j));
            }
        }
    }
    assert forall|k: Seq<char>| a.contains_key(k) implies a[k] == b[k] by {
        let j = choose|j: int| position_of(r, k, j);
        lemma_count_at(r, k, j);
        if k == name@ {
            lemma_count_at(r, k, c.len() as int);
        } else {
            assert(j < c.len());
            assert(position_of(c, k, j));
            lemma_count_at(c, k, j);
        }
    }
    assert(a =~= b);
}

/// Counting a download of `fname` in a table that can count it gives a
/// table that holds `fname`, with its count plus one, or one where it was
/// not there, and holds every other name exactly where the table read does,
/// with the same count.
pub proof fn counting_changes_only_that_name(
    text: Seq<char>,
    m: Map<Seq<char>, i64>,
    fname: Seq<char>,
    v: Seq<(String, i64)>,
    k: Seq<char>,
)
    requires
        json_counts(text) == Some(m),
        !count_full(m, fname),
        counts_map(v) == one_more(m, fname),
    ensures
        counts_map(v).contains_key(fname),
        m.contains_key(fname) ==> counts_map(v)[fname] == m[fname] + 1,
        !m.contains_key(fname) ==> counts_map(v)[fname] == 1,
        k != fname ==> (counts_map(v).contains_key(k) <==> m.contains_key(k)),
        k != fname && m.contains_key(k) ==> counts_map(v)[k] == m[k],
{
}

/// Counts one more download of `fname` in the counts that the JSON text
/// `text` holds: the updated table, or `None` where the text is not a JSON
/// object of counts or the count of `fname` cannot grow.
pub fn count_download(text: &str, fname: String) -> (r: Option<Vec<(String, i64)>>)
    ensures
        match json_counts(text@) {
            None => r is None,
            Some(m) => if count_full(m, fname@) {
                r is None
            } else {
                r matches Some(v) && distinct_names(v@) && counts_map(v@) == one_more(m, fname@)
            },
        },
{
    let counts = match parse_counts(text) {
        None => return None,
        Some(c) => c,
    };
    let mut i: usize = 0;
    while i < counts.len()
        invariant
            i <= counts@.len(),
            distinct_names(counts@),
            json_counts(text@) == Some(counts_map(counts@)),
            forall|j: int| 0 <= j < i ==> !(position_of(counts@, fname@, j) && counts@[j].1 == i64::MAX),
        decreases counts@.len() - i,
    {
        if counts[i].0 == fname && counts[i].1 == i64::MAX {
            proof {
                lemma_count_at(counts@, fname@, i as int);
            }
            return None;
        }
        i = i + 1;
    }
    let ghost before = counts@;
    let r = record_download(counts, fname);
    proof {
        if exists|j: int| position_of(before, fname@, j) {
            let j = choose|j: int| position_of(before, fname@, j);
            lemma_count_at(before, fname@, j);
            lemma_counts_update(before, j, (before[j].1 + 1) as i64);
        } else {
            lemma_count_absent(before, fname@);
            lemma_counts_push(before, fname);
        }
    }
    Some(r)
}

} // verus!
