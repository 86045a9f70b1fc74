//! Login and registration: which requests are refused, with which status and
//! message, and the token answered on success.
use vstd::prelude::*;
use vstd::string::*;
use crate::auth::password::{verify_outcome, verify_password};
use crate::encoding::{base64_encode, base64_standard};

verus! {

/// Body of `POST /api/auth/login`.
pub struct LoginRequest {
    pub family_name: String,
    pub password: String,
}

/// Body of `POST /api/auth/register`.
pub struct RegisterRequest {
    pub family_name: String,
    pub password: String,
}

/// Answer to a successful login or registration: the game server's connect
/// token, in Base64, and the player's id.
pub struct AuthResponse {
    pub token: String,
    pub player_id: i64,
}

/// Body of a refused login or registration.
pub struct AuthError {
    pub error: String,
}

/// A refusal: the HTTP status and the body.
pub struct AuthRejection {
    pub status: u16,
    pub body: AuthError,
}

/// 400 Bad Request.
pub const BAD_REQUEST: u16 = 400;

/// 401 Unauthorized.
pub const UNAUTHORIZED: u16 = 401;

/// 409 Conflict.
pub const CONFLICT: u16 = 409;

/// 500 Internal Server Error.
pub const INTERNAL_SERVER_ERROR: u16 = 500;

/// A refusal with this status and message.
pub fn auth_error(status: u16, msg: &str) -> (r: AuthRejection)
    ensures
        r.status == status,
        r.body.error@ == msg@,
{
    AuthRejection { status, body: AuthError { error: String::from_str(msg) } }
}

/// What a login is answered, as far as the checks go: `None` when it passes
/// them, else the status and message of the refusal. `lookup` is the player
/// found by family name (with its password hash, if it has one), or the
/// database error; `verification` is what checking the password against the
/// hash gave.
pub open spec fn login_refusal(lookup: Result<Option<Option<Seq<char>>>, ()>, verification: Result<
    bool,
    (),
>) -> Option<(u16, Seq<char>)> {
    match lookup {
        Err(_) => Some((INTERNAL_SERVER_ERROR, "Database error"@)),
        Ok(None) => Some((UNAUTHORIZED, "Invalid credentials"@)),
        Ok(Some(None)) => Some((UNAUTHORIZED, "Account requires password migration"@)),
        Ok(Some(Some(_))) => match verification {
            Ok(true) => None,
            Ok(false) => Some((UNAUTHORIZED, "Invalid credentials"@)),
            Err(_) => Some((INTERNAL_SERVER_ERROR, "Password verification error"@)),
        },
    }
}

/// Whether a result matches a refusal.
pub open spec fn answers(r: Result<(), AuthRejection>, refusal: Option<(u16, Seq<char>)>) -> bool {
    match refusal {
        None => r is Ok,
        Some((status, msg)) => r is Err && r->Err_0.status == status && r->Err_0.body.error@
            == msg,
    }
}

/// The shape of a player lookup, without the texts.
pub open spec fn lookup_shape(lookup: Result<Option<Option<String>>, String>) -> Result<
    Option<Option<Seq<char>>>,
    (),
> {
    match lookup {
        Err(_) => Err(()),
        Ok(None) => Ok(None),
        Ok(Some(None)) => Ok(Some(None)),
        Ok(Some(Some(h))) => Ok(Some(Some(h@))),
    }
}

/// The shape of a password check, without the error's text.
pub open spec fn verification_shape(v: Result<bool, String>) -> Result<bool, ()> {
    match v {
        Ok(b) => Ok(b),
        Err(_) => Err(()),
    }
}

/// The verdict on a login whose player and hash were found, from what
/// checking the password gave: accepted on a match, 401 otherwise, 500 when
/// the hash could not be read.
pub fn login_verdict(verification: Result<bool, String>) -> (r: Result<(), AuthRejection>)
    ensures
        answers(r, login_refusal(Ok(Some(Some(Seq::empty()))), verification_shape(verification))),
{
    match verification {
        Ok(true) => Ok(()),
        Ok(false) => Err(auth_error(UNAUTHORIZED, "Invalid credentials")),
        Err(_) => Err(auth_error(INTERNAL_SERVER_ERROR, "Password verification error")),
    }
}

/// The checks of a login: the player must exist, have a password hash, and
/// the password must match it.
pub fn login_check(lookup: Result<Option<Option<String>>, String>, password: &str) -> (r: Result<
    (),
    AuthRejection,
>)
    ensures
        answers(
            r,
            login_refusal(
                lookup_shape(lookup),
                match lookup {
                    Ok(Some(Some(h))) => match verify_outcome(password@, h@) {
                        Ok(b) => Ok(b),
                        Err(_) => Err(()),
                    },
                    _ => Err(()),
                },
            ),
        ),
{
    match lookup {
        Err(_) => Err(auth_error(INTERNAL_SERVER_ERROR, "Database error")),
        Ok(None) => Err(auth_error(UNAUTHORIZED, "Invalid credentials")),
        Ok(Some(None)) => Err(auth_error(UNAUTHORIZED, "Account requires password migration")),
        Ok(Some(Some(hash))) => {
            let v = verify_password(password, hash.as_str());
            login_verdict(v)
        },
    }
}

/// A registration refused because the family name or the password breaks the
/// account rules, with the rule's message.
pub fn invalid_registration(msg: &str) -> (r: AuthRejection)
    ensures
        r.status == BAD_REQUEST,
        r.body.error@ == msg@,
{
    auth_error(BAD_REQUEST, msg)
}

/// The check that a family name is free, from the lookup of a player with
/// that name (`true`: one exists) or the database error.
pub fn family_name_available(existing: Result<bool, String>) -> (r: Result<(), AuthRejection>)
    ensures
        existing == Ok::<bool, String>(false) ==> r is Ok,
        existing == Ok::<bool, String>(true) ==> r is Err && r->Err_0.status == CONFLICT
            && r->Err_0.body.error@ == "This family name is already taken"@,
        existing is Err ==> r is Err && r->Err_0.status == INTERNAL_SERVER_ERROR
            && r->Err_0.body.error@ == "Database error"@,
{
    match existing {
        Ok(false) => Ok(()),
        Ok(true) => Err(auth_error(CONFLICT, "This family name is already taken")),
        Err(_) => Err(auth_error(INTERNAL_SERVER_ERROR, "Database error")),
    }
}

/// The refusal when the password could not be hashed.
pub fn hashing_failure() -> (r: AuthRejection)
    ensures
        r.status == INTERNAL_SERVER_ERROR,
        r.body.error@ == "Password processing error"@,
{
    auth_error(INTERNAL_SERVER_ERROR, "Password processing error")
}

/// The refusal when the account could not be stored, with the storage error.
pub fn account_creation_failure(e: &str) -> (r: AuthRejection)
    ensures
        r.status == INTERNAL_SERVER_ERROR,
        r.body.error@ == "Failed to create account: "@ + e@,
{
    let mut s = String::from_str("Failed to create account: ");
    s.append(e);
    AuthRejection { status: INTERNAL_SERVER_ERROR, body: AuthError { error: s } }
}

/// The refusal when no connect token could be generated.
pub fn token_generation_failure() -> (r: AuthRejection)
    ensures
        r.status == INTERNAL_SERVER_ERROR,
        r.body.error@ == "Failed to generate authentication token"@,
{
    auth_error(INTERNAL_SERVER_ERROR, "Failed to generate authentication token")
}

/// The refusal when the connect token could not be serialized.
pub fn token_serialization_failure() -> (r: AuthRejection)
    ensures
        r.status == INTERNAL_SERVER_ERROR,
        r.body.error@ == "Failed to serialize authentication token"@,
{
    auth_error(INTERNAL_SERVER_ERROR, "Failed to serialize authentication token")
}

/// The answer to a successful login or registration: the serialized connect
/// token in standard Base64, and the player's id.
pub fn auth_success(token_bytes: &Vec<u8>, player_id: i64) -> (r: AuthResponse)
    requires
        4 * ((token_bytes@.len() + 2) / 3) <= usize::MAX,
    ensures
        r.token@ == base64_standard(token_bytes@),
        r.player_id == player_id,
{
    AuthResponse { token: base64_encode(token_bytes), player_id }
}

} // verus!
