use crate::model::text_of;
use vstd::prelude::*;

verus! {

/// The error type of the token crate, carried through unopened.
#[verifier::external_type_specification]
#[verifier::external_body]
pub struct ExJwtError(jsonwebtoken::errors::Error);

/// The key under which tokens are signed and checked where the caller
/// supplies none. The functions whose names end in `_with` take the secret
/// from the caller; the others use this key.
pub const SECRET_KEY: &'static str = "your_secret_key";

/// How long a token stays valid after it was issued, in seconds.
pub const TOKEN_TTL: u64 = 3600;

/// The identity and the expiry that a bearer token carries.
#[derive(Debug, Clone, PartialEq, Eq)]
pub struct Claims {
    pub email: String,
    pub id: i32,
    pub exp: usize,
}

/// The mathematical value of a `Claims`.
pub struct ClaimsView {
    pub email: Seq<char>,
    pub id: i32,
    pub exp: usize,
}

impl View for Claims {
    type V = ClaimsView;

    open spec fn view(&self) -> ClaimsView {
        ClaimsView { email: self.email@, id: self.id, exp: self.exp }
    }
}

/// Why a token could not be issued or was not accepted.
#[derive(Debug, Clone, Copy, PartialEq, Eq, Structural)]
pub enum TokenError {
    /// The signing crate could not produce a token.
    Encoding,
    /// The expiry of a token issued at this time does not fit the claims; so
    /// it is where the clock cannot be read.
    ClockOutOfRange,
    /// The signature is wrong, or the payload is not a set of claims.
    Invalid,
    /// The token was valid once and its expiry has passed.
    Expired,
}

/// The compact HS256 token that `jsonwebtoken::encode` makes, under the
/// secret, of the claims object with the members `email`, `id` and `exp`;
/// `None` where it reports an error.
pub uninterp spec fn signed_token(secret: Seq<char>, email: Seq<char>, id: i32, exp: u64) -> Option<
    Seq<char>,
>;

/// What `jsonwebtoken::decode` finds in a token under the secret when it
/// checks everything but the clock: `None` where it rejects the token, else
/// the members `email`, `id` and `exp` of the payload, each `None` where the
/// member is missing or is not a string, a signed or an unsigned integer.
pub uninterp spec fn token_payload(secret: Seq<char>, token: Seq<char>) -> Option<
    (Option<Seq<char>>, Option<i64>, Option<u64>),
>;

/// Calls `SystemTime::now` and `SystemTime::duration_since` with the Unix
/// epoch, and gives the whole seconds of the duration: the time by the
/// machine's clock, of which nothing is known; nothing where the clock
/// stands before the epoch.
#[verifier::external_body]
fn seconds_since_epoch() -> Option<u64> {
    match std::time::SystemTime::now().duration_since(std::time::UNIX_EPOCH) {
        Ok(elapsed) => Some(elapsed.as_secs()),
        Err(_) => None,
    }
}

/// The latest time there is.
pub const LATEST: u64 = 0xffff_ffff_ffff_ffff;

/// The time to go by, given what the clock said: a clock that cannot be
/// read counts as the latest time there is. No token is issued then, and
/// only a token that is valid at every time is accepted.
pub fn time_or_latest(clock: Option<u64>) -> (now: u64)
    ensures
        now == (match clock {
            Some(time) => time,
            None => LATEST,
        }),
{
    match clock {
        Some(time) => time,
        None => LATEST,
    }
}

/// The time to go by, as of the machine's clock.
pub(crate) fn current_timestamp() -> u64 {
    time_or_latest(seconds_since_epoch())
}

/// Calls `jsonwebtoken::encode` with the default header (HS256), a JSON
/// object of the three members and the secret as an HMAC key. The token is
/// a function of the arguments. Decoding it under the same secret checks the
/// same signature and parses the same object back, so the payload of a token
/// just made holds the three members as given.
#[verifier::external_body]
fn encode_claims(secret: &str, email: &str, id: i32, exp: u64) -> (res: Result<
    String,
    jsonwebtoken::errors::Error,
>)
    ensures
        match res {
            Ok(token) => signed_token(secret@, email@, id, exp) == Some(token@) && token_payload(
                secret@,
                token@,
            ) == Some((Some(email@), Some(id as i64), Some(exp))),
            Err(_) => signed_token(secret@, email@, id, exp) is None,
        },
{
    let mut claims = serde_json::Map::new();
    claims.insert("email".to_owned(), serde_json::Value::from(email));
    claims.insert("id".to_owned(), serde_json::Value::from(id));
    claims.insert("exp".to_owned(), serde_json::Value::from(exp));
    let key = jsonwebtoken::EncodingKey::from_secret(secret.as_bytes());
    jsonwebtoken::encode(&jsonwebtoken::Header::default(), &serde_json::Value::Object(claims), &key)
}

/// Calls `jsonwebtoken::decode` with the secret as an HMAC key and the
/// default validation, in which the check of `exp` against the clock is
/// switched off: the claim must still be there, and the signature and the
/// algorithm are checked. What comes back is then a function of the
/// arguments. The three members are read with `Value::as_str`,
/// `Value::as_i64` and `Value::as_u64`.
#[verifier::external_body]
fn decode_claims(secret: &str, token: &str) -> (res: Result<
    (Option<String>, Option<i64>, Option<u64>),
    jsonwebtoken::errors::Error,
>)
    ensures
        match res {
            Ok(found) => token_payload(secret@, token@) == Some(
                (text_of(found.0), found.1, found.2),
            ),
            Err(_) => token_payload(secret@, token@) is None,
        },
{
    let mut rules = jsonwebtoken::Validation::default();
    rules.validate_exp = false;
    let key = jsonwebtoken::DecodingKey::from_secret(secret.as_bytes());
    let data = jsonwebtoken::decode::<serde_json::Value>(token, &key, &rules)?;
    let email = data.claims["email"].as_str().map(|s| s.to_owned());
    Ok((email, data.claims["id"].as_i64(), data.claims["exp"].as_u64()))
}

/// The claims of a token issued at `now`, where its expiry can be written.
pub open spec fn issued_claims(email: Seq<char>, id: i32, now: u64) -> Option<ClaimsView> {
    if now + TOKEN_TTL <= usize::MAX && now + TOKEN_TTL <= u64::MAX {
        Some(ClaimsView { email, id, exp: (now + TOKEN_TTL) as usize })
    } else {
        None
    }
}

/// What a decoded payload is worth at the time `now`: the claims, where all
/// three members are there, fit their types and the expiry has not passed.
pub open spec fn claims_outcome(
    email: Option<Seq<char>>,
    id: Option<i64>,
    exp: Option<u64>,
    now: u64,
) -> Result<ClaimsView, TokenError> {
    match (email, id, exp) {
        (Some(email), Some(id), Some(exp)) => {
            if id < i32::MIN || id > i32::MAX || exp > usize::MAX {
                Err(TokenError::Invalid)
            } else if now > exp {
                Err(TokenError::Expired)
            } else {
                Ok(ClaimsView { email, id: id as i32, exp: exp as usize })
            }
        },
        _ => Err(TokenError::Invalid),
    }
}

/// What a token is worth at the time `now`, given what decoding found in it.
pub open spec fn validation_outcome(
    payload: Option<(Option<Seq<char>>, Option<i64>, Option<u64>)>,
    now: u64,
) -> Result<ClaimsView, TokenError> {
    match payload {
        Some((email, id, exp)) => claims_outcome(email, id, exp, now),
        None => Err(TokenError::Invalid),
    }
}

/// The view of the result of a validation.
pub open spec fn outcome_view(res: Result<Claims, TokenError>) -> Result<ClaimsView, TokenError> {
    match res {
        Ok(claims) => Ok(claims@),
        Err(e) => Err(e),
    }
}

/// Turns the members found in a payload into claims, or says why not.
///
/// A missing member, an `id` outside `i32` or an expiry outside `usize` make
/// the payload invalid; a payload in order is expired once `now` is later
/// than its expiry, and still valid at the very second of the expiry.
pub fn claims_from_payload(
    email: Option<String>,
    id: Option<i64>,
    exp: Option<u64>,
    now: u64,
) -> (res: Result<Claims, TokenError>)
    ensures
        outcome_view(res) == claims_outcome(text_of(email), id, exp, now),
{
    match (email, id, exp) {
        (Some(email), Some(id), Some(exp)) => {
            if id < i32::MIN as i64 || id > i32::MAX as i64 || exp > usize::MAX as u64 {
                Err(TokenError::Invalid)
            } else if now > exp {
                Err(TokenError::Expired)
            } else {
                Ok(Claims { email, id: id as i32, exp: exp as usize })
            }
        },
        _ => Err(TokenError::Invalid),
    }
}

/// The view of the result of issuing a token.
pub open spec fn token_view(res: Result<String, TokenError>) -> Result<Seq<char>, TokenError> {
    match res {
        Ok(token) => Ok(token@),
        Err(e) => Err(e),
    }
}

/// Whether `res` is a result of issuing a token under `secret` for the
/// identity at `now`: the token that the signing gives for the identity and
/// the expiry `now + TOKEN_TTL`, with these three in its payload;
/// `ClockOutOfRange` where that expiry cannot be written; `Encoding` where
/// the signing fails.
pub open spec fn issue_result_at(
    secret: Seq<char>,
    email: Seq<char>,
    id: i32,
    now: u64,
    res: Result<Seq<char>, TokenError>,
) -> bool {
    match res {
        Ok(token) => {
            &&& issued_claims(email, id, now) is Some
            &&& signed_token(secret, email, id, (now + TOKEN_TTL) as u64) == Some(token)
            &&& token_payload(secret, token) == Some(
                (Some(email), Some(id as i64), Some((now + TOKEN_TTL) as u64)),
            )
        },
        Err(e) => if issued_claims(email, id, now) is None {
            e == TokenError::ClockOutOfRange
        } else {
            e == TokenError::Encoding && signed_token(
                secret,
                email,
                id,
                (now + TOKEN_TTL) as u64,
            ) is None
        },
    }
}

/// Issues a token under `secret` for the identity as of the time `now`.
///
/// The token carries the identity and the expiry `now + TOKEN_TTL`. It is
/// refused only where that expiry cannot be written or the signing fails.
pub fn generate_jwt_with(secret: &str, email: &str, id: i32, now: u64) -> (res: Result<
    String,
    TokenError,
>)
    ensures
        issue_result_at(secret@, email@, id, now, token_view(res)),
{
    if now > u64::MAX - TOKEN_TTL {
        return Err(TokenError::ClockOutOfRange);
    }
    let exp: u64 = now + TOKEN_TTL;
    if exp > usize::MAX as u64 {
        return Err(TokenError::ClockOutOfRange);
    }
    match encode_claims(secret, email, id, exp) {
        Ok(token) => Ok(token),
        Err(_) => Err(TokenError::Encoding),
    }
}

/// Validates a token under `secret` as of the time `now`.
///
/// The claims come back exactly where the token decodes under the secret,
/// its payload is a set of claims and `now` is not later than the expiry.
pub fn validate_jwt_with(secret: &str, token: &str, now: u64) -> (res: Result<Claims, TokenError>)
    ensures
        outcome_view(res) == validation_outcome(token_payload(secret@, token@), now),
{
    match decode_claims(secret, token) {
        Ok((email, id, exp)) => claims_from_payload(email, id, exp, now),
        Err(_) => Err(TokenError::Invalid),
    }
}

/// Issues a token under `SECRET_KEY` for the identity as of the time `now`.
pub fn generate_jwt_at(email: &str, id: i32, now: u64) -> (res: Result<String, TokenError>)
    ensures
        issue_result_at(SECRET_KEY@, email@, id, now, token_view(res)),
{
    generate_jwt_with(SECRET_KEY, email, id, now)
}

/// Validates a token under `SECRET_KEY` as of the time `now`.
pub fn validate_jwt_at(token: &str, now: u64) -> (res: Result<Claims, TokenError>)
    ensures
        outcome_view(res) == validation_outcome(token_payload(SECRET_KEY@, token@), now),
{
    validate_jwt_with(SECRET_KEY, token, now)
}

/// Issues a token for the identity, valid for `TOKEN_TTL` seconds from now
/// by the machine's clock: the result is what `generate_jwt_at` gives at
/// some time.
pub fn generate_jwt(email: &str, id: i32) -> (res: Result<String, TokenError>)
    ensures
        exists|now: u64| #[trigger] issue_result_at(SECRET_KEY@, email@, id, now, token_view(res)),
{
    let now = current_timestamp();
    generate_jwt_at(email, id, now)
}

/// Validates a token as of now by the machine's clock: the result is what
/// `validate_jwt_at` gives at some time.
pub fn validate_jwt(token: &str) -> (res: Result<Claims, TokenError>)
    ensures
        exists|now: u64|
            outcome_view(res) == #[trigger] validation_outcome(
                token_payload(SECRET_KEY@, token@),
                now,
            ),
{
    let now = current_timestamp();
    validate_jwt_at(token, now)
}

/// A token validates, under the secret it was issued under, to the identity
/// it was issued for, at every time from its issue up to and including its
/// expiry.
pub proof fn lemma_issued_token_validates(
    secret: Seq<char>,
    email: Seq<char>,
    id: i32,
    now: u64,
    token: Seq<char>,
    at: u64,
)
    requires
        issue_result_at(secret, email, id, now, Ok(token)),
        at <= now + TOKEN_TTL,
    ensures
        validation_outcome(token_payload(secret, token), at) == Ok::<ClaimsView, TokenError>(
            ClaimsView { email, id, exp: (now + TOKEN_TTL) as usize },
        ),
{
}

/// Once the time to live has elapsed, a token that was issued is expired.
pub proof fn lemma_issued_token_expires(
    secret: Seq<char>,
    email: Seq<char>,
    id: i32,
    now: u64,
    token: Seq<char>,
    at: u64,
)
    requires
        issue_result_at(secret, email, id, now, Ok(token)),
        at > now + TOKEN_TTL,
    ensures
        validation_outcome(token_payload(secret, token), at) == Err::<ClaimsView, TokenError>(
            TokenError::Expired,
        ),
{
}

/// What is valid at the latest time there is, is valid at every time, with
/// the same claims.
pub proof fn lemma_valid_at_latest_is_valid_always(
    payload: Option<(Option<Seq<char>>, Option<i64>, Option<u64>)>,
    at: u64,
)
    requires
        validation_outcome(payload, LATEST) is Ok,
    ensures
        validation_outcome(payload, at) == validation_outcome(payload, LATEST),
{
}

/// No token is issued at the latest time there is.
pub proof fn lemma_nothing_issued_at_latest(
    secret: Seq<char>,
    email: Seq<char>,
    id: i32,
    res: Result<Seq<char>, TokenError>,
)
    requires
        issue_result_at(secret, email, id, LATEST, res),
    ensures
        res == Err::<Seq<char>, TokenError>(TokenError::ClockOutOfRange),
{
}

} // verus!
