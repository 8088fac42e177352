//! Who is on the other end of a request.
//!
//! Tokens are issued and checked outside; this module holds what is decided
//! once a token has been read: whether it speaks for the user the request
//! names, and until when a new one is good.

use vstd::prelude::*;
use crate::error::{INTERNAL_SERVER_ERROR, UNAUTHORIZED};
use crate::object_id::{lower_hex, ObjectId};

verus! {

/// How long a token is good for, in seconds.
pub const TOKEN_LIFETIME_SECONDS: i64 = 900;

/// What a sign-up or log-in request says.
pub ghost struct Credentials {
    pub email: Seq<char>,
    pub display_name: Seq<char>,
    pub password: Seq<char>,
}

/// What a user sends to sign up or to log in.
#[derive(Debug)]
pub struct LoginRequest {
    email: String,
    display_name: String,
    password: String,
}

impl View for LoginRequest {
    type V = Credentials;

    closed spec fn view(&self) -> Credentials {
        Credentials {
            email: self.email@,
            display_name: self.display_name@,
            password: self.password@,
        }
    }
}

impl LoginRequest {
    /// The request of the user `email`, shown as `display_name`, with
    /// `password`.
    pub fn new(email: String, display_name: String, password: String) -> (request: LoginRequest)
        ensures
            request@ == (Credentials {
                email: email@,
                display_name: display_name@,
                password: password@,
            }),
    {
        LoginRequest { email, display_name, password }
    }

    /// The address the user is known by.
    pub fn email(&self) -> (email: &str)
        ensures
            email@ == self@.email,
    {
        self.email.as_str()
    }

    /// The name shown to other users.
    pub fn display_name(&self) -> (display_name: &str)
        ensures
            display_name@ == self@.display_name,
    {
        self.display_name.as_str()
    }

    /// The password as typed.
    pub fn password(&self) -> (password: &str)
        ensures
            password@ == self@.password,
    {
        self.password.as_str()
    }
}

/// What a user gets back on logging in.
#[derive(Debug)]
pub struct LoginResponse {
    token: String,
}

impl View for LoginResponse {
    type V = Seq<char>;

    closed spec fn view(&self) -> Seq<char> {
        self.token@
    }
}

impl LoginResponse {
    /// The response that carries `token`.
    pub fn new(token: String) -> (response: LoginResponse)
        ensures
            response@ == token@,
    {
        LoginResponse { token }
    }

    /// The token the user presents from now on.
    pub fn token(&self) -> (token: &str)
        ensures
            token@ == self@,
    {
        self.token.as_str()
    }
}

/// What a token says: whom it speaks for, and until when.
#[derive(Debug)]
pub struct Claims {
    /// The user, as the hexadecimal digits of their identifier.
    pub sub: String,
    /// The second, counted from 1970, at which the token runs out.
    pub exp: i64,
}

/// The second at which a token issued at `now` runs out, or `None` where
/// that second cannot be counted.
pub fn token_expiration(now: i64) -> (exp: Option<i64>)
    ensures
        exp is Some <==> now + TOKEN_LIFETIME_SECONDS <= i64::MAX,
        exp matches Some(exp) ==> exp == now + TOKEN_LIFETIME_SECONDS,
{
    now.checked_add(TOKEN_LIFETIME_SECONDS)
}

/// The verdict on a request made in the name of `user_id`: `claims` is what
/// the token it carried says, or `None` where the token was refused;
/// `found` tells whether the store knows the user, or is `None` where the
/// store could not be asked.
pub open spec fn authentication(
    user_id: Seq<u8>,
    claims: Option<Seq<char>>,
    found: Option<bool>,
) -> Result<(), u16> {
    if claims != Some(lower_hex(user_id)) {
        Err(UNAUTHORIZED)
    } else {
        match found {
            None => Err(INTERNAL_SERVER_ERROR),
            Some(false) => Err(UNAUTHORIZED),
            Some(true) => Ok(()),
        }
    }
}

/// The user a token speaks for, if there is a token.
pub open spec fn subject_of(claims: Option<Claims>) -> Option<Seq<char>> {
    match claims {
        Some(claims) => Some(claims.sub@),
        None => None,
    }
}

/// Decides whether a request made in the name of `user_id` is let through.
/// It is, only where its token speaks for that very user and the store
/// knows them. A token for somebody else, a refused token and an unknown
/// user are all answered alike; a store that could not be asked is an
/// error of its own.
pub fn authenticate_user(user_id: ObjectId, claims: Option<Claims>, found: Option<bool>) -> (verdict:
    Result<(), u16>)
    ensures
        verdict == authentication(user_id@, subject_of(claims), found),
{
    let claims = match claims {
        Some(claims) => claims,
        None => {
            return Err(UNAUTHORIZED);
        },
    };
    if user_id.to_hex() != claims.sub {
        return Err(UNAUTHORIZED);
    }
    match found {
        None => Err(INTERNAL_SERVER_ERROR),
        Some(false) => Err(UNAUTHORIZED),
        Some(true) => Ok(()),
    }
}

} // verus!
