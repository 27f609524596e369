//! Digests and password hashes computed by outside crates.
use vstd::prelude::*;
use crypto::digest::Digest;

verus! {

/// The error type of the `bcrypt` crate.
#[verifier::external_type_specification]
#[verifier::external_body]
pub struct ExBcryptError(bcrypt::BcryptError);

/// The lower-case hexadecimal SHA-1 digest of the UTF-8 encoding of a text.
pub uninterp spec fn sha1_hex(text: Seq<char>) -> Seq<char>;

/// The lower-case hexadecimal MD5 digest of the UTF-8 encoding of a text.
pub uninterp spec fn md5_hex(text: Seq<char>) -> Seq<char>;

/// What `bcrypt::verify(password, hash)` gives: `Some(b)` when `hash` is a
/// well formed bcrypt hash, `b` telling whether `password` matches it, and
/// `None` when `hash` is malformed.
pub uninterp spec fn bcrypt_check(password: Seq<char>, hash: Seq<char>) -> Option<bool>;

/// Feeds `text` to a fresh `crypto::sha1::Sha1` (rust-crypto) and returns
/// `result_str()`. Trusted: the result is the name `sha1_hex` of the text,
/// and it has the 40 hexadecimal digits of a 20-byte digest.
#[verifier::external_body]
pub(crate) fn sha1_hex_of(text: &str) -> (r: String)
    ensures
        r@ == sha1_hex(text@),
        r@.len() == 40,
{
    let mut hasher = crypto::sha1::Sha1::new();
    hasher.input_str(text);
    hasher.result_str()
}

/// Feeds `text` to a fresh `crypto::md5::Md5` (rust-crypto) and returns
/// `result_str()`. Trusted: the result is the name `md5_hex` of the text,
/// and it has the 32 hexadecimal digits of a 16-byte digest.
#[verifier::external_body]
pub(crate) fn md5_hex_of(text: &str) -> (r: String)
    ensures
        r@ == md5_hex(text@),
        r@.len() == 32,
{
    let mut hasher = crypto::md5::Md5::new();
    hasher.input_str(text);
    hasher.result_str()
}

/// Calls `bcrypt::verify(password, hash)`. Trusted: an `Ok(b)` is the name
/// `bcrypt_check` of the arguments, and an error happens exactly when that
/// name is `None`.
#[verifier::external_body]
pub(crate) fn bcrypt_verify(password: &str, hash: &str) -> (r: Result<bool, bcrypt::BcryptError>)
    ensures
        r matches Ok(b) ==> bcrypt_check(password@, hash@) == Some(b),
        r is Err ==> bcrypt_check(password@, hash@) is None,
{
    bcrypt::verify(password, hash)
}

/// The decimal digit `d`, from 0 to 9, as a character.
pub open spec fn digit_char(d: int) -> char {
    "0123456789"@[d]
}

/// A bcrypt cost written in two decimal digits, as hashes carry it.
pub open spec fn cost_digits(cost: u32) -> Seq<char> {
    seq![digit_char(cost as int / 10), digit_char(cost as int % 10)]
}

/// The first seven characters of a hash that `bcrypt::hash` writes with
/// cost `cost`: the version `2b` and the cost, each behind a `$`, and the
/// `$` that opens the salt.
pub open spec fn bcrypt_prefix(cost: u32) -> Seq<char> {
    "$2b$"@ + cost_digits(cost) + "$"@
}

/// The costs that `bcrypt::hash` accepts.
pub open spec fn cost_allowed(cost: u32) -> bool {
    4 <= cost <= 31
}

/// Calls `bcrypt::hash(password, cost)`, which salts with random bytes from
/// the operating system. Trusted: it fails on a cost outside 4 to 31; a
/// hash it returns is 60 characters long, starts with `$2b$`, the cost in
/// two digits and a `$` (the source formats `${version}${cost:02}${salt}{hash}`
/// with a 22-character salt and a 31-character hash), and verifies against
/// the same password (the source hashes the password with the salt and cost
/// that it writes into the hash, and `verify` recomputes exactly that).
/// Which salt comes back, and whether the random source fails, is left
/// unsaid.
#[verifier::external_body]
pub(crate) fn bcrypt_hash(password: &str, cost: u32) -> (r: Result<String, bcrypt::BcryptError>)
    ensures
        !cost_allowed(cost) ==> r is Err,
        r matches Ok(h) ==> {
            &&& h@.len() == 60
            &&& h@.subrange(0, 7) == bcrypt_prefix(cost)
            &&& bcrypt_check(password@, h@) == Some(true)
        },
{
    bcrypt::hash(password, cost)
}

/// Formats a `bcrypt::BcryptError` with its `Display` impl. Nothing is
/// stated of the text.
#[verifier::external_body]
pub(crate) fn bcrypt_error_text(e: &bcrypt::BcryptError) -> String {
    format!("{}", e)
}

} // verus!
