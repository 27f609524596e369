//! The local clock.
use vstd::prelude::*;

verus! {

/// Whether `s` has the form of a date and time that chrono writes in RFC
/// 2822 form, such as `Sun, 1 Jun 2025 12:00:00 +0000`: a three-letter day,
/// a comma and a space, then a day of one or two digits, and the rest in
/// fixed widths, 30 or 31 characters in all.
pub open spec fn rfc2822_shaped(s: Seq<char>) -> bool {
    &&& s.len() == 30 || s.len() == 31
    &&& s[3] == ','
    &&& s[4] == ' '
}

/// Reads the local clock with `chrono::Local::now()` and formats it with
/// `to_rfc2822()`. Trusted: the text has the form `rfc2822_shaped` states
/// (the source writes the short day name, `, `, the day unpadded, the short
/// month, a four-digit year, `HH:MM:SS` and a `+HHMM` offset, each part
/// after one space). Which time it reads is left unsaid.
#[verifier::external_body]
pub(crate) fn now_rfc2822() -> (r: String)
    ensures
        rfc2822_shaped(r@),
{
    chrono::Local::now().to_rfc2822()
}

} // verus!
