use vstd::prelude::*;
use vstd::string::*;

verus! {

/// The error type of the password hashing crate, carried through unopened.
#[verifier::external_type_specification]
#[verifier::external_body]
pub struct ExPasswordHashError(argon2::password_hash::Error);

/// Why a digest could not be produced or a password was not accepted.
#[derive(Debug, Clone, Copy, PartialEq, Eq, Structural)]
pub enum HashingError {
    /// The password does not belong to the digest.
    Password,
    /// The digest or the salt is malformed, no salt could be drawn, or the
    /// algorithm itself failed.
    Failure,
}

/// What Argon2 with its default parameters answers when asked whether
/// `password` belongs to the PHC string `digest`: `Some(true)` when it does;
/// `Some(false)` when the digest can be read and does not accept the
/// password, be it that it was made from another password or that it holds
/// no salt or no hash; `None` when the digest cannot be read or the
/// algorithm fails.
pub uninterp spec fn digest_verdict(digest: Seq<char>, password: Seq<char>) -> Option<bool>;

/// The PHC string that Argon2 with its default parameters makes of
/// `password` under the B64 salt `salt`; `None` where the salt is refused or
/// the algorithm fails.
pub uninterp spec fn salted_digest(password: Seq<char>, salt: Seq<char>) -> Option<Seq<char>>;

/// The salt field of a PHC string, as `PasswordHash::new` reads it.
pub uninterp spec fn salt_in(digest: Seq<char>) -> Seq<char>;

/// Fills a buffer of `Salt::RECOMMENDED_LENGTH` bytes through
/// `OsRng::try_fill_bytes` and writes it as B64 with
/// `SaltString::encode_b64`. The salt depends on chance, so nothing is
/// stated of it; nothing comes back where the system's random source fails.
#[verifier::external_body]
fn fresh_salt() -> Option<String> {
    let mut bytes = [0u8; argon2::password_hash::Salt::RECOMMENDED_LENGTH];
    let mut source = argon2::password_hash::rand_core::OsRng;
    argon2::password_hash::rand_core::RngCore::try_fill_bytes(&mut source, &mut bytes).ok()?;
    let salt = argon2::password_hash::SaltString::encode_b64(&bytes).ok()?;
    Some(salt.as_str().to_owned())
}

/// Calls `SaltString::from_b64` on the salt and then
/// `Argon2::default().hash_password`. The digest is a function of the two
/// strings. It is written as a PHC string with the salt as one of its
/// fields, so the salt can be read in it again; and verification recomputes
/// the hash from the salt and parameters written in the digest, so the
/// digest accepts the password it was made from.
#[verifier::external_body]
fn argon2_hash_with(password: &str, salt: &str) -> (res: Result<
    String,
    argon2::password_hash::Error,
>)
    ensures
        match res {
            Ok(digest) => {
                &&& salted_digest(password@, salt@) == Some(digest@)
                &&& salt_in(digest@) == salt@
                &&& digest_verdict(digest@, password@) == Some(true)
            },
            Err(_) => salted_digest(password@, salt@) is None,
        },
{
    let salt = argon2::password_hash::SaltString::from_b64(salt)?;
    let hasher = argon2::Argon2::default();
    let hashed = argon2::PasswordHasher::hash_password(&hasher, password.as_bytes(), &salt)?;
    Ok(hashed.to_string())
}

/// Calls `PasswordHash::new` on the digest and then
/// `Argon2::default().verify_password`. The answer depends on the two strings
/// alone; `Error::Password`, the crate's word for a mismatch, comes back as
/// `Ok(false)`.
#[verifier::external_body]
fn argon2_verify(digest: &str, password: &str) -> (res: Result<bool, argon2::password_hash::Error>)
    ensures
        match res {
            Ok(accepted) => digest_verdict(digest@, password@) == Some(accepted),
            Err(_) => digest_verdict(digest@, password@) is None,
        },
{
    let parsed = argon2::PasswordHash::new(digest)?;
    let hasher = argon2::Argon2::default();
    match argon2::PasswordVerifier::verify_password(&hasher, password.as_bytes(), &parsed) {
        Ok(()) => Ok(true),
        Err(argon2::password_hash::Error::Password) => Ok(false),
        Err(e) => Err(e),
    }
}

/// What `verify_password` returns for each verdict.
pub open spec fn verification_outcome(verdict: Option<bool>) -> Result<(), HashingError> {
    match verdict {
        Some(true) => Ok(()),
        Some(false) => Err(HashingError::Password),
        None => Err(HashingError::Failure),
    }
}

/// Whether `digest` is the digest of `password` under `salt`: what the
/// hashing makes of the two, with the salt written in it, such that it
/// accepts the password, and not the password itself.
pub open spec fn hashed_under(password: Seq<char>, salt: Seq<char>, digest: Seq<char>) -> bool {
    &&& salted_digest(password, salt) == Some(digest)
    &&& salt_in(digest) == salt
    &&& verification_outcome(digest_verdict(digest, password)) == Ok::<(), HashingError>(())
    &&& digest != password
}

/// Whether hashing `password` under `salt` gives nothing that can stand as
/// its digest: the salt is refused, the algorithm fails, or what comes of
/// it is the password itself.
pub open spec fn no_digest(password: Seq<char>, salt: Seq<char>) -> bool {
    salted_digest(password, salt) is None || salted_digest(password, salt) == Some(password)
}

/// Hashes a password under a given salt.
///
/// The digest is the one that belongs to the password and the salt, and it
/// is never the password itself. The hashing fails exactly where the salt
/// is refused, the algorithm fails, or what comes of it is the password.
pub fn hash_password_with(password: &str, salt: &str) -> (res: Result<String, HashingError>)
    ensures
        match res {
            Ok(digest) => hashed_under(password@, salt@, digest@) && digest@ != password@,
            Err(e) => e == HashingError::Failure && no_digest(password@, salt@),
        },
{
    match argon2_hash_with(password, salt) {
        Ok(digest) => {
            if same_text(digest.as_str(), password) {
                Err(HashingError::Failure)
            } else {
                Ok(digest)
            }
        },
        Err(_) => Err(HashingError::Failure),
    }
}

/// Whether two texts are the same.
fn same_text(a: &str, b: &str) -> (res: bool)
    ensures
        res == (a@ == b@),
{
    String::from_str(a) == String::from_str(b)
}

/// The digest of a password under the salt that was drawn, if one was
/// drawn.
pub fn hash_under_drawn(password: &str, drawn: Option<String>) -> (res: Result<
    String,
    HashingError,
>)
    ensures
        match drawn {
            Some(salt) => match res {
                Ok(digest) => hashed_under(password@, salt@, digest@),
                Err(e) => e == HashingError::Failure && no_digest(password@, salt@),
            },
            None => res == Err::<String, HashingError>(HashingError::Failure),
        },
{
    match drawn {
        Some(salt) => hash_password_with(password, salt.as_str()),
        None => Err(HashingError::Failure),
    }
}

/// Hashes a password under a fresh random salt.
///
/// Every digest that comes back is the digest of the password under the
/// salt written in it, accepts the password, and is not the password.
pub fn hash_password(password: &str) -> (res: Result<String, HashingError>)
    ensures
        match res {
            Ok(digest) => hashed_under(password@, salt_in(digest@), digest@) && digest@
                != password@,
            Err(e) => e == HashingError::Failure,
        },
{
    let drawn = fresh_salt();
    hash_under_drawn(password, drawn)
}

/// The answer to a check, given the verdict on the digest and the password:
/// a mismatch is `Password`, a digest that cannot be read is `Failure`.
pub fn verdict_result(verdict: Option<bool>) -> (res: Result<(), HashingError>)
    ensures
        res == verification_outcome(verdict),
{
    match verdict {
        Some(true) => Ok(()),
        Some(false) => Err(HashingError::Password),
        None => Err(HashingError::Failure),
    }
}

/// Checks a password against a stored digest.
pub fn verify_password(db_password: &str, credential_password: &str) -> (res: Result<
    (),
    HashingError,
>)
    ensures
        res == verification_outcome(digest_verdict(db_password@, credential_password@)),
{
    let verdict = match argon2_verify(db_password, credential_password) {
        Ok(accepted) => Some(accepted),
        Err(_) => None,
    };
    verdict_result(verdict)
}

/// Two digests made under different salts differ, whatever the passwords:
/// so two digests of one password are told apart by their salts.
pub proof fn lemma_salts_tell_digests_apart(
    first_password: Seq<char>,
    first_salt: Seq<char>,
    first: Seq<char>,
    second_password: Seq<char>,
    second_salt: Seq<char>,
    second: Seq<char>,
)
    requires
        hashed_under(first_password, first_salt, first),
        hashed_under(second_password, second_salt, second),
        first_salt != second_salt,
    ensures
        first != second,
{
}

/// Under one salt, one password has one digest.
pub proof fn lemma_one_digest_under_one_salt(
    password: Seq<char>,
    salt: Seq<char>,
    first: Seq<char>,
    second: Seq<char>,
)
    requires
        hashed_under(password, salt, first),
        hashed_under(password, salt, second),
    ensures
        first == second,
{
}

} // verus!
