//! The decisions of the user routes: logging in, creating an account and
//! deleting one.
use vstd::prelude::*;
use crate::auth::{
    AuthOutcome, UserToken, decoded_query_pairs, encode_user, first_token_value, identifies, jwt_claims, jwt_error_text, jwt_signed,
};
use crate::error::{Status, WebError, is_not_found, is_refusal, is_internal};
use crate::clock::{now_rfc2822, rfc2822_shaped};
use crate::hashing::{bcrypt_check, bcrypt_error_text, bcrypt_hash, bcrypt_prefix, bcrypt_verify, sha1_hex, sha1_hex_of};
use crate::text::byte_len;
use crate::themes::User;

verus! {

/// The bcrypt cost that passwords are hashed with.
pub const HASH_COST: u32 = 10;

/// Whether `pass` is the password of user `u`: bcrypt verifies it against
/// the stored hash.
pub open spec fn password_matches(pass: Seq<char>, u: User) -> bool {
    bcrypt_check(pass, u.password@) == Some(true)
}

/// Whether the stored hash of user `u` cannot be checked at all.
pub open spec fn hash_unreadable(pass: Seq<char>, u: User) -> bool {
    bcrypt_check(pass, u.password@) is None
}

/// Decides a login as `name` with user `u`, given what checking the
/// password gave: `Ok(b)` whether it matched, `Err(msg)` when the check
/// failed with message `msg`.
pub fn login_with(name: String, u: User, checked: Result<bool, String>) -> (r: Result<UserToken, WebError>)
    ensures
        checked == Ok::<bool, String>(true) ==> r == Ok::<UserToken, WebError>(UserToken { name: name, id: u.id }),
        checked == Ok::<bool, String>(false) ==> (r matches Err(e) && is_refusal(e, Status::Forbidden, "Wrong login details"@)),
        checked matches Err(msg) ==> (r matches Err(e) && is_internal(e) && e.private_error@ == msg@),
{
    match checked {
        Err(msg) => Err(WebError::new(msg)),
        Ok(true) => Ok(UserToken { name, id: u.id }),
        Ok(false) => Err(WebError::refused("Wrong login details", Status::Forbidden)),
    }
}

/// Decides a login as `name` with password `pass`, given the user of that
/// name if there is one: the token to issue, or why not.
pub fn login_decision(name: String, pass: &str, found: Option<User>) -> (r: Result<UserToken, WebError>)
    ensures
        found is None ==> (r matches Err(e) && is_not_found(e, name@)),
        found matches Some(u) ==> {
            &&& password_matches(pass@, u) ==> r == Ok::<UserToken, WebError>(UserToken { name: name, id: u.id })
            &&& bcrypt_check(pass@, u.password@) == Some(false) ==> (r matches Err(e) && is_refusal(
                e,
                Status::Forbidden,
                "Wrong login details"@,
            ))
            &&& hash_unreadable(pass@, u) ==> (r matches Err(e) && is_internal(e))
        },
{
    match found {
        None => Err(WebError::not_found(name)),
        Some(u) => {
            let checked = match bcrypt_verify(pass, u.password.as_str()) {
                Ok(b) => Ok(b),
                Err(e) => Err(bcrypt_error_text(&e)),
            };
            login_with(name, u, checked)
        },
    }
}

/// What a successful login answers: the user's name and an access token.
pub struct LoginReply {
    pub name: String,
    pub token: String,
}

/// Whether `reply` hands the user named `name` with id `id` a token signed
/// with `secret` that carries that name and id, and no expiry.
pub open spec fn issued_to(reply: LoginReply, name: Seq<char>, id: Seq<char>, secret: Seq<u8>) -> bool {
    &&& reply.name@ == name
    &&& reply.token@ == jwt_signed(name, id, secret)
    &&& jwt_claims(reply.token@, secret) == Some((name, id, false))
}

/// Logs in as `name` with password `pass`, given the user of that name if
/// there is one: on success, the name and an access token signed with
/// `secret` that carries the name and the user's id.
pub fn issue_login(name: String, pass: &str, found: Option<User>, secret: &[u8]) -> (r: Result<LoginReply, WebError>)
    ensures
        found is None ==> (r matches Err(e) && is_not_found(e, name@)),
        found matches Some(u) ==> {
            &&& password_matches(pass@, u) ==> (r matches Ok(reply) && issued_to(reply, name@, u.id@, secret@))
            &&& bcrypt_check(pass@, u.password@) == Some(false) ==> (r matches Err(e) && is_refusal(
                e,
                Status::Forbidden,
                "Wrong login details"@,
            ))
            &&& hash_unreadable(pass@, u) ==> (r matches Err(e) && is_internal(e))
        },
{
    let token = match login_decision(name.clone(), pass, found) {
        Ok(t) => t,
        Err(e) => return Err(e),
    };
    match encode_user(&token, secret) {
        Ok(signed) => Ok(LoginReply { name, token: signed }),
        Err(e) => Err(WebError::new(jwt_error_text(&e))),
    }
}

/// A token handed out at login carries no expiry, and the validation that
/// reads tokens requires one: a request that carries it as its `token`
/// parameter is answered with an internal error, neither identified nor
/// refused as unauthorized.
pub proof fn login_token_lacks_required_expiry(
    reply: LoginReply,
    name: Seq<char>,
    id: Seq<char>,
    secret: Seq<u8>,
    query: Seq<char>,
    outcome: AuthOutcome,
)
    requires
        issued_to(reply, name, id, secret),
        first_token_value(decoded_query_pairs(query)) == Some(reply.token@),
        identifies(query, secret, outcome),
    ensures
        outcome == AuthOutcome::Failure(Status::InternalServerError),
{
}

/// Whether a name and a password are short enough for a new account: under
/// 20 and under 100 bytes.
pub open spec fn acceptable_lengths(name: Seq<char>, pass: Seq<char>) -> bool {
    byte_len(name) < 20 && byte_len(pass) < 100
}

/// Checks the lengths of a new account's name and password.
pub fn check_new_user(name: &str, pass: &str) -> (r: Result<(), WebError>)
    ensures
        r is Ok <==> acceptable_lengths(name@, pass@),
        r matches Err(e) ==> is_refusal(e, Status::PayloadTooLarge, "Name or password too long"@),
{
    if name.as_bytes().len() < 20 && pass.as_bytes().len() < 100 {
        Ok(())
    } else {
        Err(WebError::refused("Name or password too long", Status::PayloadTooLarge))
    }
}

/// The fields a new account is stored with.
pub struct NewUser {
    pub name: String,
    /// The bcrypt hash of the password (stored under the key `pass`).
    pub password: String,
    pub id: String,
    pub date: String,
}

/// The id of an account: the SHA-1 digest of its name followed by its
/// creation date.
pub open spec fn account_id(name: Seq<char>, date: Seq<char>) -> Seq<char> {
    sha1_hex(name + date)
}

/// The record of a new account named `name`, created at `date`, whose
/// password hashes to `hashed`.
pub fn new_user_record(name: String, hashed: String, date: String) -> (r: NewUser)
    ensures
        r.name == name,
        r.password == hashed,
        r.date == date,
        r.id@ == account_id(name@, date@),
{
    let seed = name.clone().concat(date.as_str());
    let id = sha1_hex_of(seed.as_str());
    NewUser { name, password: hashed, id, date }
}

/// Decides the creation of account `name`, given whether an account of that
/// name exists, what hashing the password gave (`Err(msg)` when it failed
/// with message `msg`) and the creation date.
pub fn registration_with(
    name: String,
    existing: Option<User>,
    hashed: Result<String, String>,
    date: String,
) -> (r: Result<NewUser, WebError>)
    ensures
        existing is Some ==> (r matches Err(e) && is_refusal(e, Status::Forbidden, "User already exists"@)),
        existing is None ==> {
            &&& hashed matches Ok(h) ==> (r matches Ok(nu) && {
                &&& nu.name == name
                &&& nu.password == h
                &&& nu.date == date
                &&& nu.id@ == account_id(name@, date@)
            })
            &&& hashed matches Err(msg) ==> (r matches Err(e) && is_internal(e) && e.private_error@ == msg@)
        },
{
    if existing.is_some() {
        return Err(WebError::refused("User already exists", Status::Forbidden));
    }
    match hashed {
        Err(msg) => Err(WebError::new(msg)),
        Ok(h) => Ok(new_user_record(name, h, date)),
    }
}

/// Whether `nu` is a record for a new account `name` with password `pass`:
/// its hash verifies `pass`, and its id is derived from its name and date.
pub open spec fn registers(nu: NewUser, name: String, pass: Seq<char>) -> bool {
    &&& nu.name == name
    &&& bcrypt_check(pass, nu.password@) == Some(true)
    &&& nu.id@ == account_id(name@, nu.date@)
}

/// Whether `h` has the form of a bcrypt hash made at the cost passwords
/// are hashed with: 60 characters, starting with `$2b$10$`.
pub open spec fn hashed_at_cost_10(h: Seq<char>) -> bool {
    h.len() == 60 && h.subrange(0, 7) == "$2b$10$"@
}

/// Whether `r` answers the creation of account `name` with password `pass`,
/// given the account of that name if there is one: an existing name is
/// refused; otherwise the record holds the name, a bcrypt hash of the
/// password made at cost 10, a date read off the clock and an id derived
/// from the name and that date, or
/// hashing failed with an internal error.
pub open spec fn registration_result(
    name: String,
    pass: Seq<char>,
    existing: Option<User>,
    r: Result<NewUser, WebError>,
) -> bool {
    match existing {
        Some(_) => r matches Err(e) && is_refusal(e, Status::Forbidden, "User already exists"@),
        None => match r {
            Ok(nu) => registers(nu, name, pass) && hashed_at_cost_10(nu.password@) && rfc2822_shaped(nu.date@),
            Err(e) => is_internal(e),
        },
    }
}

/// Decides the creation of account `name` with password `pass`, given
/// whether an account of that name exists; hashes the password and dates
/// the account with the current local time.
pub fn register_user(name: String, pass: &str, existing: Option<User>) -> (r: Result<NewUser, WebError>)
    ensures
        registration_result(name, pass@, existing, r),
{
    if existing.is_some() {
        return Err(WebError::refused("User already exists", Status::Forbidden));
    }
    let hashed = match bcrypt_hash(pass, HASH_COST) {
        Ok(h) => Ok(h),
        Err(e) => Err(bcrypt_error_text(&e)),
    };
    proof {
        reveal_strlit("0123456789");
        reveal_strlit("$2b$");
        reveal_strlit("$");
        reveal_strlit("$2b$10$");
        assert(bcrypt_prefix(HASH_COST) =~= "$2b$10$"@);
    }
    let date = now_rfc2822();
    registration_with(name, existing, hashed, date)
}

/// Checks that a request to delete account `name` comes from that account.
pub fn check_deletion_identity(name: &str, token: &UserToken) -> (r: Result<(), WebError>)
    ensures
        r is Ok <==> name@ == token.name@,
        r matches Err(e) ==> is_refusal(e, Status::Forbidden, "Name and token don't match"@),
{
    let own = String::from_str(name);
    if own == token.name {
        Ok(())
    } else {
        Err(WebError::refused("Name and token don't match", Status::Forbidden))
    }
}

/// Decides the deletion of user `u`, given what checking the password
/// gave: `Ok(b)` whether it matched, `Err(msg)` when the check failed with
/// message `msg`. On success, the user to delete.
pub fn user_deletion_with(u: User, checked: Result<bool, String>) -> (r: Result<User, WebError>)
    ensures
        checked == Ok::<bool, String>(true) ==> r == Ok::<User, WebError>(u),
        checked == Ok::<bool, String>(false) ==> (r matches Err(e) && is_refusal(e, Status::Forbidden, "Password doesn't match"@)),
        checked matches Err(msg) ==> (r matches Err(e) && is_internal(e) && e.private_error@ == msg@),
{
    match checked {
        Err(msg) => Err(WebError::new(msg)),
        Ok(true) => Ok(u),
        Ok(false) => Err(WebError::refused("Password doesn't match", Status::Forbidden)),
    }
}

/// Decides the deletion of account `name` with password `pass`, given the
/// account of that name and of the requester's id if there is one. On
/// success, the user to delete.
pub fn user_deletion(name: String, pass: &str, found: Option<User>) -> (r: Result<User, WebError>)
    ensures
        found is None ==> (r matches Err(e) && is_not_found(e, name@)),
        found matches Some(u) ==> {
            &&& password_matches(pass@, u) ==> r == Ok::<User, WebError>(u)
            &&& bcrypt_check(pass@, u.password@) == Some(false) ==> (r matches Err(e) && is_refusal(
                e,
                Status::Forbidden,
                "Password doesn't match"@,
            ))
            &&& hash_unreadable(pass@, u) ==> (r matches Err(e) && is_internal(e))
        },
{
    match found {
        None => Err(WebError::not_found(name)),
        Some(u) => {
            let checked = match bcrypt_verify(pass, u.password.as_str()) {
                Ok(b) => Ok(b),
                Err(e) => Err(bcrypt_error_text(&e)),
            };
            user_deletion_with(u, checked)
        },
    }
}

/// The user stored from a new account's record.
pub open spec fn stored_from(u: User, nu: NewUser) -> bool {
    u.name == nu.name && u.password == nu.password && u.id == nu.id && u.date == nu.date
}

/// An account created with a password can log in with that password: the
/// login issues a token with the account's name and id, and a deletion
/// with that password is authorized.
pub proof fn registered_user_can_log_in(nu: NewUser, u: User, name: String, pass: Seq<char>)
    requires
        registers(nu, name, pass),
        stored_from(u, nu),
    ensures
        password_matches(pass, u),
        u.name == name,
        u.id@ == account_id(name@, u.date@),
{
}

/// A new account is dated with a reading of the clock, a date in RFC 2822
/// form and so never empty, and its id is the SHA-1 digest of its name
/// followed by that date; its name is the one asked for.
pub proof fn new_accounts_are_dated_by_the_clock(
    name: String,
    pass: Seq<char>,
    existing: Option<User>,
    r: Result<NewUser, WebError>,
)
    requires
        registration_result(name, pass, existing, r),
    ensures
        r matches Ok(nu) ==> {
            &&& existing is None
            &&& nu.name == name
            &&& rfc2822_shaped(nu.date@)
            &&& nu.date@.len() >= 30
            &&& nu.id@ == sha1_hex(name@ + nu.date@)
            &&& bcrypt_check(pass, nu.password@) == Some(true)
        },
{
}

/// No two users of `db` share a name.
pub open spec fn user_names_distinct(db: Seq<User>) -> bool {
    forall|i: int, j: int| 0 <= i < j < db.len() ==> db[i].name@ != db[j].name@
}

/// Whether `found` is what looking user `name` up in `db` gives: nothing
/// where no user has that name, else one of the users of that name.
pub open spec fn user_lookup(db: Seq<User>, name: Seq<char>, found: Option<User>) -> bool {
    match found {
        None => forall|i: int| 0 <= i < db.len() ==> db[i].name@ != name,
        Some(u) => u.name@ == name && exists|i: int| 0 <= i < db.len() && db[i] == u,
    }
}

/// The users of `db` after a registration answered `r`: a new account adds
/// `added`, the user its record is stored as; a refusal adds nothing.
pub open spec fn users_after(db: Seq<User>, r: Result<NewUser, WebError>, added: User) -> Seq<User> {
    match r {
        Ok(_) => db.push(added),
        Err(_) => db,
    }
}

/// Registrations keep user names unique: where no two users shared a name
/// before, none do after a registration, whatever it answered.
pub proof fn registration_keeps_user_names_distinct(
    db: Seq<User>,
    name: String,
    pass: Seq<char>,
    existing: Option<User>,
    r: Result<NewUser, WebError>,
    added: User,
)
    requires
        user_names_distinct(db),
        user_lookup(db, name@, existing),
        registration_result(name, pass, existing, r),
        r matches Ok(nu) ==> stored_from(added, nu),
    ensures
        user_names_distinct(users_after(db, r, added)),
{
    let after = users_after(db, r, added);
    assert forall|i: int, j: int| 0 <= i < j < after.len() implies after[i].name@ != after[j].name@ by {
        if j < db.len() {
            assert(db[i].name@ != db[j].name@);
        }
    }
}

} // verus!
