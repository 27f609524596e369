//! Who a request comes from: the user token carried in the query string.
use vstd::prelude::*;
use crate::error::Status;
use std::collections::BTreeMap;
use std::collections::HashMap;

verus! {

/// The claims of a user's access token.
#[derive(Clone, Debug)]
pub struct UserToken {
    pub name: String,
    pub id: String,
}

/// The name of the query parameter that carries the token.
pub open spec fn token_key() -> Seq<char> {
    "token"@
}

/// The views of a sequence of key and value pairs.
pub open spec fn pair_views(v: Seq<(String, String)>) -> Seq<(Seq<char>, Seq<char>)> {
    v.map_values(|p: (String, String)| (p.0@, p.1@))
}

/// The name and value pairs, decoded, that the `url` crate reads from a
/// query string in `application/x-www-form-urlencoded` syntax.
pub uninterp spec fn decoded_query_pairs(query: Seq<char>) -> Seq<(Seq<char>, Seq<char>)>;

/// Sets `query` as the query of a `reqwest::Url` (the `url` crate) and
/// lists its `query_pairs()` as owned strings. Trusted: the pairs are the
/// name `decoded_query_pairs` of the query.
#[verifier::external_body]
fn query_pairs(query: &str) -> (r: Vec<(String, String)>)
    ensures
        pair_views(r@) == decoded_query_pairs(query@),
{
    let mut url = reqwest::Url::parse("http://localhost/").expect("a constant absolute URL");
    url.set_query(Some(query));
    url.query_pairs().map(|(k, v)| (k.into_owned(), v.into_owned())).collect()
}

/// The value of the first pair whose key is `token`, if any.
pub open spec fn first_token_value(ps: Seq<(Seq<char>, Seq<char>)>) -> Option<Seq<char>>
    decreases ps.len(),
{
    if ps.len() == 0 {
        None
    } else if ps[0].0 == token_key() {
        Some(ps[0].1)
    } else {
        first_token_value(ps.drop_first())
    }
}

/// The token that the query string of a request carries: the value of its
/// first `token` pair, if any.
pub fn query_token(query: &str) -> (r: Option<String>)
    ensures
        first_token_value(decoded_query_pairs(query@)) == match r {
            Some(s) => Some(s@),
            None => None::<Seq<char>>,
        },
{
    let pairs = query_pairs(query);
    let ghost views = pair_views(pairs@);
    let key = String::from_str("token");
    let mut i: usize = 0;
    assert(views.skip(0) =~= views);
    while i < pairs.len()
        invariant
            i <= pairs@.len(),
            key@ == token_key(),
            views == pair_views(pairs@),
            views == decoded_query_pairs(query@),
            first_token_value(views.skip(i as int)) == first_token_value(views),
        decreases pairs@.len() - i,
    {
        let ghost rest = views.skip(i as int);
        assert(rest[0] == (pairs@[i as int].0@, pairs@[i as int].1@));
        if pairs[i].0 == key {
            return Some(pairs[i].1.clone());
        }
        assert(rest.drop_first() =~= views.skip(i + 1));
        i = i + 1;
    }
    assert(views.skip(i as int).len() == 0);
    None
}

/// The error type of the `jsonwebtoken` crate.
#[verifier::external_type_specification]
#[verifier::external_body]
pub struct ExJwtError(jsonwebtoken::errors::Error);

/// What `jsonwebtoken::decode` reads from a JSON web token checked with an
/// HMAC key made from `secret` under the default validation (an HS256
/// signature), leaving out two checks: that an `exp` claim is present, and
/// the checks against the clock. It is the `name` and `id` claims, both
/// strings, and whether the token carries an `exp` claim that reads as a
/// timestamp; `None` for a token refused on any other ground, or whose
/// claims lack either string.
pub uninterp spec fn jwt_claims(token: Seq<char>, secret: Seq<u8>) -> Option<(Seq<char>, Seq<char>, bool)>;

/// The JSON web token that `jsonwebtoken::encode` writes, with the default
/// header (HS256) and an HMAC key made from `secret`, for the claims `name`
/// and `id`.
pub uninterp spec fn jwt_signed(name: Seq<char>, id: Seq<char>, secret: Seq<u8>) -> Seq<char>;

/// Reads the user out of an access token: calls `jsonwebtoken::decode` with
/// an HMAC key made from `secret` and the default validation, then takes
/// the `name` and `id` claims as strings. Trusted: a user it returns is the
/// one the name `jwt_claims` gives for the token and the secret, and the
/// token carries an expiry (the default validation requires an `exp`
/// claim). Which tokens with an expiry it accepts is left unsaid: that
/// check reads the clock.
#[verifier::external_body]
pub fn decode_user(token: &str, secret: &[u8]) -> (r: Option<UserToken>)
    ensures
        r matches Some(t) ==> jwt_claims(token@, secret@) == Some((t.name@, t.id@, true)),
{
    let key = jsonwebtoken::DecodingKey::from_secret(secret);
    let validation = jsonwebtoken::Validation::default();
    let data = jsonwebtoken::decode::<HashMap<String, serde_json::Value>>(token, &key, &validation).ok()?;
    let name = data.claims.get("name")?.as_str()?.to_string();
    let id = data.claims.get("id")?.as_str()?.to_string();
    Some(UserToken { name, id })
}

/// Signs an access token for `token`: calls `jsonwebtoken::encode` with the
/// default header (HS256), the claims `name` and `id` and no other, and an
/// HMAC key made from `secret`. Trusted: it succeeds (an HMAC key matches
/// the HS256 header, a map of strings serializes, and HMAC signing does
/// not fail); the token is the name `jwt_signed` of the claims and the
/// secret; and checking it with the same secret reads the same claims back,
/// with no expiry (the source signs the header and claims with the HMAC
/// that `decode` checks).
#[verifier::external_body]
pub(crate) fn encode_user(token: &UserToken, secret: &[u8]) -> (r: Result<String, jsonwebtoken::errors::Error>)
    ensures
        r is Ok,
        r matches Ok(s) ==> s@ == jwt_signed(token.name@, token.id@, secret@),
        r matches Ok(s) ==> jwt_claims(s@, secret@) == Some((token.name@, token.id@, false)),
{
    let mut claims: BTreeMap<&str, &str> = BTreeMap::new();
    claims.insert("name", token.name.as_str());
    claims.insert("id", token.id.as_str());
    let key = jsonwebtoken::EncodingKey::from_secret(secret);
    jsonwebtoken::encode(&jsonwebtoken::Header::default(), &claims, &key)
}

/// Formats a `jsonwebtoken::errors::Error` with its `Display` impl. Nothing
/// is stated of the text.
#[verifier::external_body]
pub(crate) fn jwt_error_text(e: &jsonwebtoken::errors::Error) -> String {
    format!("{}", e)
}

/// The result of identifying a request's user.
pub enum AuthOutcome {
    Success(UserToken),
    Failure(Status),
}

/// Decides who a request comes from, given what decoding its token gave:
/// `None` when the query has no `token` parameter, `Some(None)` when the
/// token did not decode, `Some(Some(t))` when it decoded to `t`.
pub fn token_outcome(decoded: Option<Option<UserToken>>) -> (r: AuthOutcome)
    ensures
        decoded is None ==> r == AuthOutcome::Failure(Status::Unauthorized),
        decoded == Some(None::<UserToken>) ==> r == AuthOutcome::Failure(Status::InternalServerError),
        decoded matches Some(Some(t)) ==> r == AuthOutcome::Success(t),
{
    match decoded {
        None => AuthOutcome::Failure(Status::Unauthorized),
        Some(None) => AuthOutcome::Failure(Status::InternalServerError),
        Some(Some(t)) => AuthOutcome::Success(t),
    }
}

/// Whether `r` is who a request with query string `query` comes from, for
/// tokens signed with `secret`: without a `token` parameter it is refused
/// as unauthorized; otherwise it is the user that the first token's claims
/// name, where the token decodes and carries an expiry, or else an internal
/// error.
pub open spec fn identifies(query: Seq<char>, secret: Seq<u8>, r: AuthOutcome) -> bool {
    match first_token_value(decoded_query_pairs(query)) {
        None => r == AuthOutcome::Failure(Status::Unauthorized),
        Some(v) => match r {
            AuthOutcome::Success(t) => jwt_claims(v, secret) == Some((t.name@, t.id@, true)),
            AuthOutcome::Failure(s) => s == Status::InternalServerError,
        },
    }
}

/// Identifies the user a request with query string `query` comes from,
/// reading its token with `secret`.
pub fn identify(query: &str, secret: &[u8]) -> (r: AuthOutcome)
    ensures
        identifies(query@, secret@, r),
{
    let token = query_token(query);
    let decoded = match token {
        None => None,
        Some(v) => Some(decode_user(v.as_str(), secret)),
    };
    token_outcome(decoded)
}

} // verus!
