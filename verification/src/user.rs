//! User records and the validation of the user-facing request shapes.
//!
//! User management itself is plain record keeping; what the library
//! states exactly is which requests are acceptable and how the stored
//! record relates to the request it came from.

use vstd::prelude::*;
use vstd::string::StrSliceExecFns;

use crate::ids::UserId;
use crate::text::valid_email_chars;
use crate::text::valid_email;

verus! {

/// Shortest accepted username, in characters.
pub const USERNAME_MIN_CHARS: usize = 3;

/// Shortest accepted phone number, in characters.
pub const PHONE_MIN_CHARS: usize = 10;

/// Shortest accepted password, in characters.
pub const PASSWORD_MIN_CHARS: usize = 6;

/// A stored user record. The password is held only as its hash.
#[derive(Debug, Clone)]
pub struct User {
    pub id: Option<UserId>,
    pub username: String,
    pub email: String,
    pub password_hash: String,
    pub phone_number: Option<String>,
}

/// A bare new-user request.
#[derive(Debug)]
pub struct NewUser {
    pub username: String,
    pub email: String,
    pub password: String,
}

/// A bare login request.
#[derive(Debug)]
pub struct Login {
    pub username: String,
    pub password: String,
}

/// A bare registration request.
#[derive(Debug)]
pub struct Register {
    pub username: String,
    pub email: String,
    pub phone_number: Option<String>,
    pub password: String,
}

impl User {
    /// The record that a registration turns into: no identity yet, no
    /// hash yet, the rest taken over as given.
    pub fn from_register(r: Register) -> (u: User)
        ensures
            u.id is None,
            u.username == r.username,
            u.email == r.email,
            u.password_hash@ == Seq::<char>::empty(),
            u.phone_number == r.phone_number,
    {
        User {
            id: None,
            username: r.username,
            email: r.email,
            password_hash: String::new(),
            phone_number: r.phone_number,
        }
    }
}

/// A validated registration request.
#[derive(Debug)]
pub struct RegisterDTO {
    pub username: String,
    pub email: String,
    pub phone_number: Option<String>,
    pub password: String,
}

/// What a registration request must satisfy to be accepted.
pub open spec fn register_ok(
    username: Seq<char>,
    email: Seq<char>,
    phone_number: Option<String>,
    password: Seq<char>,
) -> bool {
    &&& username.len() >= USERNAME_MIN_CHARS
    &&& valid_email_chars(email)
    &&& (phone_number matches Some(p) ==> p@.len() >= PHONE_MIN_CHARS)
    &&& password.len() >= PASSWORD_MIN_CHARS
}

impl RegisterDTO {
    /// Whether the request meets every bound.
    pub fn validate(&self) -> (r: bool)
        ensures
            r == register_ok(
                self.username@,
                self.email@,
                self.phone_number,
                self.password@,
            ),
    {
        let phone_ok = match &self.phone_number {
            Some(p) => p.as_str().unicode_len() >= PHONE_MIN_CHARS,
            None => true,
        };
        self.username.as_str().unicode_len() >= USERNAME_MIN_CHARS && valid_email(
            self.email.as_str(),
        ) && phone_ok && self.password.as_str().unicode_len() >= PASSWORD_MIN_CHARS
    }
}

/// An administrative create-user request; the password may be left for
/// the service to choose.
#[derive(Debug)]
pub struct CreateUserDTO {
    pub username: String,
    pub email: String,
    pub phone_number: Option<String>,
    pub password: Option<String>,
}

impl CreateUserDTO {
    /// Whether the request meets every bound; an absent password is
    /// acceptable, a present one must meet the length bound.
    pub fn validate(&self) -> (r: bool)
        ensures
            r == {
                &&& self.username@.len() >= USERNAME_MIN_CHARS
                &&& valid_email_chars(self.email@)
                &&& (self.phone_number matches Some(p) ==> p@.len() >= PHONE_MIN_CHARS)
                &&& (self.password matches Some(p) ==> p@.len() >= PASSWORD_MIN_CHARS)
            },
    {
        let phone_ok = match &self.phone_number {
            Some(p) => p.as_str().unicode_len() >= PHONE_MIN_CHARS,
            None => true,
        };
        let password_ok = match &self.password {
            Some(p) => p.as_str().unicode_len() >= PASSWORD_MIN_CHARS,
            None => true,
        };
        self.username.as_str().unicode_len() >= USERNAME_MIN_CHARS && valid_email(
            self.email.as_str(),
        ) && phone_ok && password_ok
    }
}

/// A partial update of a user record.
#[derive(Debug)]
pub struct UpdateUserDTO {
    pub username: Option<String>,
    pub email: Option<String>,
    pub phone_number: Option<String>,
    pub password: Option<String>,
}

impl UpdateUserDTO {
    /// Whether the update carries anything to apply. An update with no
    /// field set is rejected by the service.
    pub fn has_updates(&self) -> (r: bool)
        ensures
            r <==> (self.username is Some || self.email is Some || self.phone_number is Some
                || self.password is Some),
    {
        self.username.is_some() || self.email.is_some() || self.phone_number.is_some()
            || self.password.is_some()
    }

    /// Whether every present field meets its bound.
    pub fn validate(&self) -> (r: bool)
        ensures
            r == {
                &&& (self.username matches Some(u) ==> u@.len() >= USERNAME_MIN_CHARS)
                &&& (self.email matches Some(e) ==> valid_email_chars(e@))
                &&& (self.phone_number matches Some(p) ==> p@.len() >= PHONE_MIN_CHARS)
                &&& (self.password matches Some(p) ==> p@.len() >= PASSWORD_MIN_CHARS)
            },
    {
        let username_ok = match &self.username {
            Some(u) => u.as_str().unicode_len() >= USERNAME_MIN_CHARS,
            None => true,
        };
        let email_ok = match &self.email {
            Some(e) => valid_email(e.as_str()),
            None => true,
        };
        let phone_ok = match &self.phone_number {
            Some(p) => p.as_str().unicode_len() >= PHONE_MIN_CHARS,
            None => true,
        };
        let password_ok = match &self.password {
            Some(p) => p.as_str().unicode_len() >= PASSWORD_MIN_CHARS,
            None => true,
        };
        username_ok && email_ok && phone_ok && password_ok
    }
}

/// A validated login request.
#[derive(Debug)]
pub struct LoginDTO {
    pub username: String,
    pub password: String,
}

impl LoginDTO {
    /// Whether the request meets the username and password bounds.
    pub fn validate(&self) -> (r: bool)
        ensures
            r == (self.username@.len() >= USERNAME_MIN_CHARS && self.password@.len()
                >= PASSWORD_MIN_CHARS),
    {
        self.username.as_str().unicode_len() >= USERNAME_MIN_CHARS
            && self.password.as_str().unicode_len() >= PASSWORD_MIN_CHARS
    }
}

/// The outward shape of a user record: everything but the hash.
#[derive(Debug)]
pub struct UserResponse {
    pub id: UserId,
    pub username: String,
    pub email: String,
    pub phone_number: Option<String>,
}

/// How a stored user projects outward: the password hash is dropped,
/// and a record that never received an identity reports the zero one.
pub open spec fn user_response_spec(user: User) -> UserResponse {
    UserResponse {
        id: match user.id {
            Some(id) => id,
            None => UserId(0),
        },
        username: user.username,
        email: user.email,
        phone_number: user.phone_number,
    }
}

impl From<User> for UserResponse {
    fn from(user: User) -> (r: UserResponse) {
        let id = match user.id {
            Some(id) => id,
            None => UserId(0),
        };
        UserResponse {
            id,
            username: user.username,
            email: user.email,
            phone_number: user.phone_number,
        }
    }
}

impl vstd::std_specs::convert::FromSpecImpl<User> for UserResponse {
    open spec fn obeys_from_spec() -> bool {
        true
    }

    open spec fn from_spec(user: User) -> UserResponse {
        user_response_spec(user)
    }
}

} // verus!
