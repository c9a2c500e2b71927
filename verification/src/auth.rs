//! Password hashing, authentication and request authorization.
//!
//! The hashing function itself is an outside capability; everything
//! this module decides — who may log in, which password a new account
//! effectively gets, when a token or a cross-site check fails — is
//! stated and verified over the hashing relation by name.

use vstd::prelude::*;
use vstd::string::StrSliceExecFns;
use vstd::string::StringExecFns;

use argon2::{Argon2, PasswordHasher, PasswordVerifier};

use crate::errors::{ApiError, ServiceError};
use crate::text::{is_blank, is_blank_chars};
use crate::user::{CreateUserDTO, RegisterDTO, User, PASSWORD_MIN_CHARS};

verus! {

/// Whether `password` verifies against the stored `hash` under the
/// password-hashing function in use. The relation is a fixed function
/// of the two texts; the two trusted wrappers below are its only
/// sources.
pub uninterp spec fn password_matches(password: Seq<char>, hash: Seq<char>) -> bool;

/// Relies on argon2's `hash_password`, which salts the hash with fresh
/// randomness: a hash it produces verifies against the password it was
/// made from. `None` when the hashing function reports an error.
#[verifier::external_body]
fn hash_password(password: &str) -> (r: Option<String>)
    ensures
        r matches Some(h) ==> password_matches(password@, h@),
{
    match Argon2::default().hash_password(password.as_bytes()) {
        Ok(hash) => Some(hash.to_string()),
        Err(_) => None,
    }
}

/// Relies on argon2's `verify_password`: whether the password verifies
/// against the hash, a deterministic function of the two texts. A text
/// that is no well-formed hash verifies nothing.
#[verifier::external_body]
fn verify_password(password: &str, hash: &str) -> (r: bool)
    ensures
        r == password_matches(password@, hash@),
{
    Argon2::default().verify_password(password.as_bytes(), hash).is_ok()
}

/// Builds the stored record for a registration: the password is
/// hashed, nothing else is changed. The stored hash verifies against
/// the registered password.
pub fn register_user(dto: RegisterDTO) -> (r: Result<User, ServiceError>)
    ensures
        match r {
            Ok(u) => {
                &&& u.id is None
                &&& u.username == dto.username
                &&& u.email == dto.email
                &&& u.phone_number == dto.phone_number
                &&& password_matches(dto.password@, u.password_hash@)
            },
            Err(e) => e is HashingError,
        },
{
    let hash = match hash_password(dto.password.as_str()) {
        Some(h) => h,
        None => {
            return Err(ServiceError::HashingError(String::from_str("could not hash password")));
        },
    };
    Ok(
        User {
            id: None,
            username: dto.username,
            email: dto.email,
            password_hash: hash,
            phone_number: dto.phone_number,
        },
    )
}

/// The password a created account effectively gets: the provided one
/// where it is not blank; otherwise the username itself where it is
/// long enough, and the username with `"123"` appended where it is
/// short.
pub open spec fn effective_password(username: Seq<char>, provided: Option<String>) -> Seq<char> {
    let given = match provided {
        Some(p) => p@,
        None => Seq::<char>::empty(),
    };
    if is_blank_chars(given) {
        if username.len() < PASSWORD_MIN_CHARS {
            username + "123"@
        } else {
            username
        }
    } else {
        given
    }
}

/// Builds the stored record for an administrative create-user request.
/// A blank or absent password is replaced by the effective default
/// before hashing; the stored hash verifies against the effective
/// password.
pub fn create_user(dto: CreateUserDTO) -> (r: Result<User, ServiceError>)
    ensures
        match r {
            Ok(u) => {
                &&& u.id is None
                &&& u.username == dto.username
                &&& u.email == dto.email
                &&& u.phone_number == dto.phone_number
                &&& password_matches(
                    effective_password(dto.username@, dto.password),
                    u.password_hash@,
                )
            },
            Err(e) => e is HashingError,
        },
{
    let provided: &str = match &dto.password {
        Some(p) => p.as_str(),
        None => "",
    };
    proof {
        reveal_strlit("");
        assert(""@ =~= Seq::<char>::empty());
    }
    let password: String = if is_blank(provided) {
        if dto.username.as_str().unicode_len() < PASSWORD_MIN_CHARS {
            String::from_str(dto.username.as_str()).concat("123")
        } else {
            String::from_str(dto.username.as_str())
        }
    } else {
        String::from_str(provided)
    };
    let hash = match hash_password(password.as_str()) {
        Some(h) => h,
        None => {
            return Err(ServiceError::HashingError(String::from_str("could not hash password")));
        },
    };
    Ok(
        User {
            id: None,
            username: dto.username,
            email: dto.email,
            password_hash: hash,
            phone_number: dto.phone_number,
        },
    )
}

/// Decides a login from the looked-up account and the supplied
/// password: the account must exist and the password must verify
/// against its stored hash; anything else is the one unauthorized
/// answer, which does not say which of the two failed.
pub fn authenticate(user: Option<User>, password: &str) -> (r: Result<User, ServiceError>)
    ensures
        match r {
            Ok(u) => {
                &&& user == Some(u)
                &&& password_matches(password@, u.password_hash@)
            },
            Err(e) => {
                &&& e is Unauthorized
                &&& match user {
                    Some(u) => !password_matches(password@, u.password_hash@),
                    None => true,
                }
            },
        },
{
    let u = match user {
        Some(u) => u,
        None => {
            return Err(
                ServiceError::Unauthorized(String::from_str("wrong username or password")),
            );
        },
    };
    if verify_password(password, u.password_hash.as_str()) {
        Ok(u)
    } else {
        Err(ServiceError::Unauthorized(String::from_str("wrong username or password")))
    }
}

/// The claims carried by a session token.
#[derive(Debug)]
pub struct Claims {
    pub sub: String,
    pub exp: usize,
}

/// Whether a token whose expiry is `exp` (seconds since the epoch) is
/// expired at time `now`.
pub fn is_jwt_expired(exp: usize, now: usize) -> (r: bool)
    ensures
        r <==> exp < now,
{
    exp < now
}

/// Whether the cross-site token handed in a header matches the one in
/// the cookie; both must be present.
pub open spec fn csrf_match(cookie: Option<&String>, header: Option<&String>) -> bool {
    match (cookie, header) {
        (Some(c), Some(h)) => c@ == h@,
        _ => false,
    }
}

/// Decides whether a request passes the session and cross-site checks:
/// a token must be present and valid, and any request that is not a
/// plain read must carry a header token matching the cookie. A missing
/// or invalid token is unauthorized; a failed cross-site check on a
/// present, valid token is forbidden.
pub fn authorize_request(
    token: Option<&String>,
    token_valid: bool,
    is_get: bool,
    csrf_cookie: Option<&String>,
    csrf_header: Option<&String>,
) -> (r: Result<(), ApiError>)
    ensures
        r is Ok <==> token is Some && token_valid && (is_get || csrf_match(
            csrf_cookie,
            csrf_header,
        )),
        r matches Err(e) ==> {
            &&& e is Unauthorized <==> (token is None || !token_valid)
            &&& e is Forbidden <==> (token is Some && token_valid && !is_get && !csrf_match(
                csrf_cookie,
                csrf_header,
            ))
        },
{
    if token.is_none() {
        return Err(ApiError::Unauthorized(String::from_str("token not found")));
    }
    if !token_valid {
        return Err(ApiError::Unauthorized(String::from_str("token invalid or expired")));
    }
    if !is_get {
        let matches_cookie = match (csrf_cookie, csrf_header) {
            (Some(c), Some(h)) => c.eq(h),
            _ => false,
        };
        if !matches_cookie {
            return Err(ApiError::Forbidden(String::from_str("csrf token mismatch")));
        }
    }
    Ok(())
}

} // verus!
