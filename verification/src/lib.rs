pub mod command;
pub mod model;
pub mod repositories;
pub mod routes;
pub mod utils;

use crate::routes::Status;
use crate::utils::jwt_token::{
    current_timestamp, token_payload, validate_jwt_with, validation_outcome, ClaimsView,
    TokenError, SECRET_KEY,
};
use vstd::prelude::*;

verus! {

/// The identity of a caller whose bearer token was accepted.
#[derive(Debug, Clone, PartialEq, Eq)]
pub struct AuthenticatedUser {
    pub email: String,
    pub id: i32,
}

/// What must stand before the token in the `Authorization` header.
pub const BEARER: &'static str = "Bearer ";

/// Calls `str::strip_prefix`: where the text starts with the prefix, what
/// follows the prefix; else nothing.
#[verifier::external_body]
fn strip_prefix<'a>(text: &'a str, prefix: &str) -> (res: Option<&'a str>)
    ensures
        match res {
            Some(rest) => prefix@.is_prefix_of(text@) && rest@ == text@.skip(prefix@.len() as int),
            None => !prefix@.is_prefix_of(text@),
        },
{
    text.strip_prefix(prefix)
}

/// The token that an `Authorization` header presents, if it presents one.
pub open spec fn bearer_token(authorization: Option<Seq<char>>) -> Option<Seq<char>> {
    match authorization {
        Some(value) => if BEARER@.is_prefix_of(value) {
            Some(value.skip(BEARER@.len() as int))
        } else {
            None
        },
        None => None,
    }
}

/// Whom a request with this `Authorization` header comes from at the time
/// `now`: the identity in the claims of its token, where it presents a token
/// that is valid then under `secret`.
pub open spec fn caller(secret: Seq<char>, authorization: Option<Seq<char>>, now: u64) -> Option<
    (Seq<char>, i32),
> {
    match bearer_token(authorization) {
        Some(token) => match validation_outcome(token_payload(secret, token), now) {
            Ok(claims) => Some((claims.email, claims.id)),
            Err(_) => None,
        },
        None => None,
    }
}

/// The view of a header value that may be missing.
pub open spec fn header_view(authorization: Option<&str>) -> Option<Seq<char>> {
    match authorization {
        Some(value) => Some(value@),
        None => None,
    }
}

impl AuthenticatedUser {
    /// Whether `res` is the answer to a request where `caller` is whom the
    /// request comes from: that identity, or `Unauthorized` where there is
    /// none.
    pub open spec fn admitted(
        res: Result<AuthenticatedUser, Status>,
        caller: Option<(Seq<char>, i32)>,
    ) -> bool {
        match res {
            Ok(user) => caller == Some((user.email@, user.id)),
            Err(status) => caller is None && status == Status::Unauthorized,
        }
    }

    /// Admits a request as of the time `now`, with tokens signed under
    /// `secret`.
    ///
    /// The caller is admitted, under the identity in the claims, exactly
    /// when the header is there, starts with `Bearer ` and the rest is a
    /// token valid at `now` under the secret. Every other request is
    /// `Unauthorized`.
    pub fn from_request_with(secret: &str, authorization: Option<&str>, now: u64) -> (res: Result<
        AuthenticatedUser,
        Status,
    >)
        ensures
            Self::admitted(res, caller(secret@, header_view(authorization), now)),
    {
        match authorization {
            Some(value) => match strip_prefix(value, BEARER) {
                Some(token) => match validate_jwt_with(secret, token, now) {
                    Ok(claims) => Ok(AuthenticatedUser { email: claims.email, id: claims.id }),
                    Err(_) => Err(Status::Unauthorized),
                },
                None => Err(Status::Unauthorized),
            },
            None => Err(Status::Unauthorized),
        }
    }

    /// Admits a request as of the time `now`, with tokens signed under
    /// `SECRET_KEY`.
    pub fn from_request_at(authorization: Option<&str>, now: u64) -> (res: Result<
        AuthenticatedUser,
        Status,
    >)
        ensures
            Self::admitted(res, caller(SECRET_KEY@, header_view(authorization), now)),
    {
        Self::from_request_with(SECRET_KEY, authorization, now)
    }

    /// Admits a request as of now by the machine's clock, with tokens signed
    /// under `SECRET_KEY`: the answer is what `from_request_at` gives at
    /// some time.
    pub fn from_request(authorization: Option<&str>) -> (res: Result<AuthenticatedUser, Status>)
        ensures
            exists|now: u64|
                Self::admitted(
                    res,
                    #[trigger] caller(SECRET_KEY@, header_view(authorization), now),
                ),
    {
        let now = current_timestamp();
        Self::from_request_at(authorization, now)
    }
}

/// A request without an `Authorization` header is never admitted.
pub proof fn lemma_no_header_no_caller(secret: Seq<char>, now: u64)
    ensures
        caller(secret, None, now) is None,
{
}

/// A request whose token has expired is not admitted.
pub proof fn lemma_expired_token_no_caller(secret: Seq<char>, authorization: Seq<char>, now: u64)
    requires
        bearer_token(Some(authorization)) matches Some(token) && validation_outcome(
            token_payload(secret, token),
            now,
        ) == Err::<ClaimsView, TokenError>(TokenError::Expired),
    ensures
        caller(secret, Some(authorization), now) is None,
{
}

} // verus!
