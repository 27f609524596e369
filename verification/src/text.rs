//! Text helpers: substring replacement and search on characters, the
//! shortening of long descriptions, and decimal parsing of integers.
use vstd::prelude::*;
use vstd::utf8::*;

verus! {

/// `s` with every occurrence of `pat` replaced by `with`, occurrences being
/// taken from the left and not overlapping. Only meaningful for a non-empty
/// `pat`.
pub open spec fn replace_all(s: Seq<char>, pat: Seq<char>, with: Seq<char>) -> Seq<char>
    recommends
        pat.len() > 0,
    decreases s.len(),
{
    if pat.len() == 0 || s.len() < pat.len() {
        s
    } else if s.subrange(0, pat.len() as int) == pat {
        with + replace_all(s.subrange(pat.len() as int, s.len() as int), pat, with)
    } else {
        seq![s[0]] + replace_all(s.subrange(1, s.len() as int), pat, with)
    }
}

/// `pat` occurs in `s` at position `i`.
pub open spec fn occurs_at(s: Seq<char>, pat: Seq<char>, i: int) -> bool {
    0 <= i && i + pat.len() <= s.len() && s.subrange(i, i + pat.len()) == pat
}

/// `pat` occurs somewhere in `s`.
pub open spec fn contains_seq(s: Seq<char>, pat: Seq<char>) -> bool {
    exists|i: int| occurs_at(s, pat, i)
}

/// Whether `pat` occurs in `s` at character position `i`.
fn occurs_at_exec(s: &str, n: usize, i: usize, pat: &str, m: usize) -> (r: bool)
    requires
        n == s@.len(),
        m == pat@.len(),
        i + m <= n,
    ensures
        r == occurs_at(s@, pat@, i as int),
{
    let mut k: usize = 0;
    while k < m
        invariant
            n == s@.len(),
            m == pat@.len(),
            i + m <= n,
            k <= m,
            forall|j: int| 0 <= j < k ==> s@[i + j] == pat@[j],
        decreases m - k,
    {
        if s.get_char(i + k) != pat.get_char(k) {
            assert(s@.subrange(i as int, i + m)[k as int] != pat@[k as int]);
            return false;
        }
        k = k + 1;
    }
    assert(s@.subrange(i as int, i + m) =~= pat@);
    true
}

/// Whether `pat` occurs in `s`.
pub fn contains(s: &str, pat: &str) -> (r: bool)
    ensures
        r == contains_seq(s@, pat@),
{
    let n = s.unicode_len();
    let m = pat.unicode_len();
    if m == 0 {
        assert(s@.subrange(0, 0) =~= pat@);
        assert(occurs_at(s@, pat@, 0));
        return true;
    }
    if m > n {
        assert forall|i: int| !occurs_at(s@, pat@, i) by {}
        return false;
    }
    let mut i: usize = 0;
    while i <= n - m
        invariant
            n == s@.len(),
            m == pat@.len(),
            1 <= m <= n,
            i <= n - m + 1,
            forall|j: int| 0 <= j < i ==> !occurs_at(s@, pat@, j),
        decreases n - m + 1 - i,
    {
        if occurs_at_exec(s, n, i, pat, m) {
            return true;
        }
        i = i + 1;
    }
    assert forall|j: int| !occurs_at(s@, pat@, j) by {
        if 0 <= j < i {
        }
    }
    false
}

/// Replaces every occurrence of `pat` in `s` by `with`, as `str::replace`
/// does for a non-empty pattern.
pub fn replace(s: &str, pat: &str, with: &str) -> (r: String)
    requires
        pat@.len() > 0,
    ensures
        r@ == replace_all(s@, pat@, with@),
{
    let n = s.unicode_len();
    let m = pat.unicode_len();
    let mut out = String::new();
    let mut i: usize = 0;
    assert(s@.subrange(0, n as int) =~= s@);
    while i < n
        invariant
            n == s@.len(),
            m == pat@.len(),
            m > 0,
            i <= n,
            out@ + replace_all(s@.subrange(i as int, n as int), pat@, with@) == replace_all(
                s@,
                pat@,
                with@,
            ),
        decreases n - i,
    {
        let ghost t = s@.subrange(i as int, n as int);
        if m <= n - i && occurs_at_exec(s, n, i, pat, m) {
            assert(t.subrange(0, m as int) =~= s@.subrange(i as int, i + m));
            assert(t.subrange(m as int, t.len() as int) =~= s@.subrange(i + m, n as int));
            out.append(with);
            i = i + m;
            assert(out@ + replace_all(s@.subrange(i as int, n as int), pat@, with@) =~= replace_all(s@, pat@, with@));
        } else {
            let piece = s.substring_char(i, i + 1);
            let ghost rest = s@.subrange(i + 1, n as int);
            assert(t.subrange(1, t.len() as int) =~= rest);
            proof {
                if t.len() >= m {
                    assert(t.subrange(0, m as int) =~= s@.subrange(i as int, i + m));
                    assert(replace_all(t, pat@, with@) == seq![t[0]] + replace_all(rest, pat@, with@));
                } else {
                    assert(replace_all(rest, pat@, with@) == rest);
                    assert(t =~= seq![t[0]] + rest);
                }
            }
            assert(piece@ =~= seq![t[0]]);
            out.append(piece);
            i = i + 1;
            assert(out@ + replace_all(rest, pat@, with@) =~= replace_all(s@, pat@, with@));
        }
    }
    assert(s@.subrange(n as int, n as int) =~= Seq::<char>::empty());
    assert(out@ =~= out@ + Seq::<char>::empty());
    out
}

/// Number of bytes of the UTF-8 encoding of a text.
pub open spec fn byte_len(s: Seq<char>) -> nat {
    encode_utf8(s).len()
}

/// A long description shortened for a listing: when its encoding is longer
/// than 35 bytes, the text of its first 35 bytes followed by "...".
pub open spec fn shortened(d: Seq<char>) -> Seq<char> {
    if byte_len(d) > 35 {
        decode_utf8(encode_utf8(d).subrange(0, 35)) + "..."@
    } else {
        d
    }
}

/// Whether the shortening of `d` cuts it between two characters; it panics
/// otherwise.
pub open spec fn cuts_cleanly(d: Seq<char>) -> bool {
    byte_len(d) > 35 ==> is_char_boundary(encode_utf8(d), 35)
}

/// Shortens a description to its first 35 bytes followed by "..." when it
/// is longer than that.
pub fn shorten(d: String) -> (r: String)
    requires
        cuts_cleanly(d@),
    ensures
        r@ == shortened(d@),
{
    if d.as_str().as_bytes().len() > 35 {
        let (head, _) = d.as_str().split_at(35);
        let mut t = head.to_owned();
        proof {
            encode_utf8_decode_utf8(head@);
        }
        t.append("...");
        t
    } else {
        d
    }
}

proof fn lemma_encode_concat(a: Seq<char>, b: Seq<char>)
    ensures
        encode_utf8(a + b) == encode_utf8(a) + encode_utf8(b),
    decreases a.len(),
{
    if a.len() == 0 {
        assert(a + b =~= b);
        assert(encode_utf8(a) + encode_utf8(b) =~= encode_utf8(b));
    } else {
        assert((a + b).drop_first() =~= a.drop_first() + b);
        assert((a + b)[0] == a[0]);
        lemma_encode_concat(a.drop_first(), b);
        assert(encode_utf8(a + b) =~= encode_utf8(a) + encode_utf8(b));
    }
}

/// A shortened description is the first 35 bytes of the full description followed
/// by the three bytes of "...": 38 bytes in all.
pub proof fn shortened_keeps_first_35_bytes(d: Seq<char>)
    requires
        cuts_cleanly(d),
        byte_len(d) > 35,
    ensures
        encode_utf8(shortened(d)) == encode_utf8(d).subrange(0, 35) + encode_utf8("..."@),
        byte_len(shortened(d)) == 38,
{
    let b = encode_utf8(d);
    encode_utf8_valid_utf8(d);
    valid_utf8_split(b, 35);
    decode_utf8_encode_utf8(b.subrange(0, 35));
    lemma_encode_concat(decode_utf8(b.subrange(0, 35)), "..."@);
    reveal_strlit("...");
    is_ascii_chars_encode_utf8("..."@);
    assert(is_ascii_chars("..."@));
}

/// Whether a character is an ASCII decimal digit.
pub open spec fn is_digit(c: char) -> bool {
    '0' <= c <= '9'
}

/// Value of a digit character.
pub open spec fn digit_value(c: char) -> int {
    c as int - '0' as int
}

/// Value of a string of decimal digits.
pub open spec fn digits_value(s: Seq<char>) -> int
    decreases s.len(),
{
    if s.len() == 0 {
        0
    } else {
        digits_value(s.drop_last()) * 10 + digit_value(s.last())
    }
}

/// Every character of `s` is a decimal digit.
pub open spec fn all_digits(s: Seq<char>) -> bool {
    forall|i: int| 0 <= i < s.len() ==> is_digit(#[trigger] s[i])
}

/// Whether a string starts with a sign that the parse consumes.
pub open spec fn has_sign(s: Seq<char>) -> bool {
    s.len() > 0 && (s[0] == '-' || s[0] == '+')
}

/// The digits that follow an optional leading sign.
pub open spec fn unsigned_part(s: Seq<char>) -> Seq<char> {
    if has_sign(s) {
        s.subrange(1, s.len() as int)
    } else {
        s
    }
}

/// The integer that a decimal text denotes, if it is an optional '+' or '-'
/// followed by one or more decimal digits.
pub open spec fn decimal_value(s: Seq<char>) -> Option<int> {
    let body = unsigned_part(s);
    if body.len() > 0 && all_digits(body) {
        if s[0] == '-' {
            Some(-digits_value(body))
        } else {
            Some(digits_value(body))
        }
    } else {
        None
    }
}

/// What `i64::from_str_radix(s, 10)` gives: the value of a well formed
/// decimal text when it fits in an `i64`.
pub open spec fn parsed_i64(s: Seq<char>) -> Option<i64> {
    match decimal_value(s) {
        Some(v) => if i64::MIN <= v <= i64::MAX {
            Some(v as i64)
        } else {
            None
        },
        None => None,
    }
}

proof fn lemma_digits_value_nonneg(s: Seq<char>)
    requires
        all_digits(s),
    ensures
        digits_value(s) >= 0,
    decreases s.len(),
{
    if s.len() > 0 {
        lemma_digits_value_nonneg(s.drop_last());
    }
}

/// Parses a decimal integer with an optional sign, as `i64::from_str_radix`
/// with radix 10 does: `None` for an empty text, a lone sign, any other
/// character than a digit after the sign, or a value out of range.
pub fn parse_i64(s: &str) -> (r: Option<i64>)
    ensures
        r == parsed_i64(s@),
{
    let n = s.unicode_len();
    if n == 0 {
        return None;
    }
    let first = s.get_char(0);
    let negative = first == '-';
    let start: usize = if first == '-' || first == '+' {
        1
    } else {
        0
    };
    let ghost body = unsigned_part(s@);
    assert(body =~= s@.subrange(start as int, n as int));
    if start == n {
        return None;
    }
    // The magnitude read so far, capped just above the largest magnitude
    // that an i64 can hold.
    let cap: i128 = 9223372036854775809;
    let mut acc: i128 = 0;
    let mut k: usize = start;
    while k < n
        invariant
            n == s@.len(),
            start <= k <= n,
            body =~= s@.subrange(start as int, n as int),
            body == unsigned_part(s@),
            n > 0,
            negative == (s@[0] == '-'),
            cap == 9223372036854775809,
            all_digits(s@.subrange(start as int, k as int)),
            acc == if digits_value(s@.subrange(start as int, k as int)) < cap {
                digits_value(s@.subrange(start as int, k as int))
            } else {
                cap as int
            },
            0 <= acc <= cap,
        decreases n - k,
    {
        let c = s.get_char(k);
        if !('0' <= c && c <= '9') {
            assert(body[k - start] == c);
            return None;
        }
        let d = (c as u32 - '0' as u32) as i128;
        let ghost prefix = s@.subrange(start as int, k as int);
        let ghost next = s@.subrange(start as int, k + 1);
        assert(next.drop_last() =~= prefix);
        assert(next.last() == c);
        proof {
            lemma_digits_value_nonneg(prefix);
        }
        let grown = acc * 10 + d;
        acc = if grown < cap {
            grown
        } else {
            cap
        };
        k = k + 1;
        assert forall|i: int| 0 <= i < next.len() implies is_digit(#[trigger] next[i]) by {
            if i < prefix.len() {
                assert(next[i] == prefix[i]);
            }
        }
    }
    assert(s@.subrange(start as int, n as int) =~= body);
    proof {
        lemma_digits_value_nonneg(body);
    }
    if negative {
        if acc <= 9223372036854775808 {
            Some((-acc) as i64)
        } else {
            None
        }
    } else {
        if acc <= 9223372036854775807 {
            Some(acc as i64)
        } else {
            None
        }
    }
}

} // verus!
