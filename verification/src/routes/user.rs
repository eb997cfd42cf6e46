use crate::model::{LoginCredentials, NewUser, User};
use crate::repositories::{Event, StorageError, Step};
use crate::routes::{bare, refuse_fields, refused_fields, reply, Body, Reply, Status};
use crate::utils::hashing::{digest_verdict, hash_password, verify_password, HashingError};
use crate::utils::jwt_token::{
    current_timestamp, generate_jwt_with, issued_claims, signed_token, TokenError, SECRET_KEY,
    TOKEN_TTL,
};
use crate::AuthenticatedUser;
use vstd::prelude::*;

verus! {

/// A user as shown to clients: without the password digest.
#[derive(Debug, Clone, PartialEq, Eq)]
pub struct UserResponse {
    pub id: i32,
    pub username: String,
    pub email: String,
}

/// What a client gets on logging in: who it is, and the token to come back
/// with.
#[derive(Debug, Clone, PartialEq, Eq)]
pub struct CreateUserResponse {
    pub user: UserResponse,
    pub token: String,
}

/// The same user with a digest in place of the password. Nothing comes back
/// where the password could not be hashed, nor where what came back as the
/// digest is the password itself: what is stored is never the password as
/// it was sent.
pub open spec fn digest_in_place(user: NewUser, hashed: Result<String, HashingError>) -> Option<
    NewUser,
> {
    match hashed {
        Ok(digest) => if digest@ == user.password_hash@ {
            None
        } else {
            Some(NewUser { password_hash: digest, ..user })
        },
        Err(_) => None,
    }
}

/// Puts the digest in the place of the password, where there is a digest
/// and it is not the password itself.
pub fn with_digest(user: NewUser, hashed: Result<String, HashingError>) -> (res: Option<NewUser>)
    ensures
        res == digest_in_place(user, hashed),
{
    match hashed {
        Ok(digest) => {
            if digest == user.password_hash {
                None
            } else {
                Some(NewUser { username: user.username, email: user.email, password_hash: digest })
            }
        },
        Err(_) => None,
    }
}

/// Whether `stored` is `user` with a digest of its password in place of the
/// password: the same name and address, and a text that is not the password
/// and that the hasher accepts for it.
pub open spec fn digested(user: NewUser, stored: NewUser) -> bool {
    &&& stored.username == user.username
    &&& stored.email == user.email
    &&& stored.password_hash@ != user.password_hash@
    &&& digest_verdict(stored.password_hash@, user.password_hash@) == Some(true)
}

/// Hashes the password of a user who is about to be stored.
///
/// Whatever comes back holds the same name and address and, in place of the
/// password, a digest that accepts it and is not the password itself.
/// Nothing comes back only where the hashing failed or gave the password
/// back.
pub fn hashed_user(user: NewUser) -> (res: Option<NewUser>)
    ensures
        res matches Some(stored) ==> digested(user, stored),
{
    let hashed = hash_password(user.password_hash.as_str());
    with_digest(user, hashed)
}

/// Whether `step` is a next step in registering `new_user` after `event`.
///
/// A user who breaks a field rule is refused with all the rules broken,
/// whatever the event. Else the address is looked up first. If it is taken,
/// by the lookup or by the storage's own word on the insert, the answer is
/// `Conflict`. If it is free, the user is stored with a digest in place of
/// the password, unless the hashing fails. The user as stored is the reply
/// to `Created`.
pub open spec fn registration(new_user: NewUser, event: Event<User>, step: Step<
    NewUser,
    Reply<User>,
>) -> bool {
    if new_user.field_errors().len() > 0 {
        refused_fields(step, new_user.field_errors())
    } else {
        match event {
            Event::Begin => step == Step::<NewUser, Reply<User>>::FindByEmail(new_user.email),
            Event::Found(Ok(None)) => {
                ||| step matches Step::Create(stored) && digested(new_user, stored)
                ||| step == bare::<NewUser, User>(Status::InternalServerError)
            },
            Event::Found(Ok(Some(_))) => step == bare::<NewUser, User>(Status::Conflict),
            Event::Created(Ok(user)) => step == Step::<NewUser, Reply<User>>::Done(
                Reply { status: Status::Created, body: Body::Record(user) },
            ),
            Event::Created(Err(StorageError::UniqueViolation)) => step == bare::<NewUser, User>(
                Status::Conflict,
            ),
            _ => step == bare::<NewUser, User>(Status::InternalServerError),
        }
    }
}

/// Registers a user.
///
/// Nothing is stored unless the user is valid and the lookup found the
/// address free, and what is stored holds a digest, never the password as
/// sent.
pub fn create_user(new_user: NewUser, event: Event<User>) -> (step: Step<NewUser, Reply<User>>)
    ensures
        registration(new_user, event, step),
        step.writes() ==> new_user.field_errors().len() == 0 && event matches Event::Found(
            Ok(None),
        ),
        step matches Step::Create(stored) ==> stored.password_hash@ != new_user.password_hash@,
{
    match new_user.validate() {
        Err(errors) => refuse_fields(errors),
        Ok(()) => match event {
            Event::Begin => Step::FindByEmail(new_user.email.clone()),
            Event::Found(Ok(None)) => match hashed_user(new_user) {
                Some(stored) => Step::Create(stored),
                None => reply(Status::InternalServerError),
            },
            Event::Found(Ok(Some(_))) => reply(Status::Conflict),
            Event::Created(Ok(user)) => Step::Done(
                Reply { status: Status::Created, body: Body::Record(user) },
            ),
            Event::Created(Err(StorageError::UniqueViolation)) => reply(Status::Conflict),
            _ => reply(Status::InternalServerError),
        },
    }
}

/// The token that a login at `now` hands out under `secret`, where one can
/// be made.
pub open spec fn session_token(secret: Seq<char>, email: Seq<char>, id: i32, now: u64) -> Option<
    Seq<char>,
> {
    if issued_claims(email, id, now) is Some {
        signed_token(secret, email, id, (now + TOKEN_TTL) as u64)
    } else {
        None
    }
}

/// Whether the stored user's digest accepts the password in the credentials.
pub open spec fn password_accepted(user: User, credentials: &LoginCredentials) -> bool {
    digest_verdict(user.password_hash@, credentials.password_hash@) == Some(true)
}

/// The user as shown to clients: without the digest.
pub open spec fn shown(user: User) -> UserResponse {
    UserResponse { id: user.id, username: user.username, email: user.email }
}

/// Whether `step` is the next step in logging in with `credentials` after
/// `event`, at the time `now`, with tokens signed under `secret`.
///
/// Credentials that break a field rule are refused with all the rules
/// broken, whatever the event. Else the user is looked up by the address.
/// An unknown address and a password that the digest does not accept get
/// one and the same reply, `Forbidden` with nothing in it. A user whose
/// password is accepted gets a token issued at `now` and is shown without
/// the digest.
pub open spec fn login_at_time(
    secret: Seq<char>,
    credentials: &LoginCredentials,
    event: Event<User>,
    now: u64,
    step: Step<NewUser, Reply<CreateUserResponse>>,
) -> bool {
    if credentials.field_errors().len() > 0 {
        refused_fields(step, credentials.field_errors())
    } else {
        match event {
            Event::Begin => step == Step::<NewUser, Reply<CreateUserResponse>>::FindByEmail(
                credentials.email,
            ),
            Event::Found(Ok(Some(user))) => if password_accepted(user, credentials) {
                match session_token(secret, user.email@, user.id, now) {
                    Some(token) => {
                        &&& step matches Step::Done(reply)
                        &&& reply.status == Status::Success
                        &&& reply.body matches Body::Record(session)
                        &&& session.token@ == token
                        &&& session.user == shown(user)
                    },
                    None => step == bare::<NewUser, CreateUserResponse>(
                        Status::InternalServerError,
                    ),
                }
            } else {
                step == bare::<NewUser, CreateUserResponse>(Status::Forbidden)
            },
            Event::Found(Ok(None)) => step == bare::<NewUser, CreateUserResponse>(
                Status::Forbidden,
            ),
            _ => step == bare::<NewUser, CreateUserResponse>(Status::InternalServerError),
        }
    }
}

/// The end of a login whose password was accepted, given what issuing the
/// token came to: the user and the token, or an internal error where no
/// token could be issued.
pub open spec fn session_end(user: User, issued: Result<String, TokenError>) -> Step<
    NewUser,
    Reply<CreateUserResponse>,
> {
    match issued {
        Ok(token) => Step::Done(
            Reply {
                status: Status::Success,
                body: Body::Record(CreateUserResponse { user: shown(user), token }),
            },
        ),
        Err(_) => bare(Status::InternalServerError),
    }
}

/// Ends a login whose password was accepted.
pub fn session_reply(user: User, issued: Result<String, TokenError>) -> (step: Step<
    NewUser,
    Reply<CreateUserResponse>,
>)
    ensures
        step == session_end(user, issued),
{
    match issued {
        Ok(token) => Step::Done(
            Reply {
                status: Status::Success,
                body: Body::Record(
                    CreateUserResponse {
                        user: UserResponse {
                            id: user.id,
                            username: user.username,
                            email: user.email,
                        },
                        token,
                    },
                ),
            },
        ),
        Err(_) => reply(Status::InternalServerError),
    }
}

/// Logs a user in as of the time `now`, with tokens signed under `secret`.
///
/// No step of a login writes to the storage.
pub fn login_with(
    secret: &str,
    credentials: &LoginCredentials,
    event: Event<User>,
    now: u64,
) -> (step: Step<NewUser, Reply<CreateUserResponse>>)
    ensures
        login_at_time(secret@, credentials, event, now, step),
        !step.writes(),
{
    match credentials.validate() {
        Err(errors) => refuse_fields(errors),
        Ok(()) => match event {
            Event::Begin => Step::FindByEmail(credentials.email.clone()),
            Event::Found(Ok(Some(user))) => {
                match verify_password(
                    user.password_hash.as_str(),
                    credentials.password_hash.as_str(),
                ) {
                    Ok(()) => {
                        let issued = generate_jwt_with(secret, user.email.as_str(), user.id, now);
                        session_reply(user, issued)
                    },
                    Err(_) => reply(Status::Forbidden),
                }
            },
            Event::Found(Ok(None)) => reply(Status::Forbidden),
            _ => reply(Status::InternalServerError),
        },
    }
}

/// Logs a user in as of the time `now`, with tokens signed under
/// `SECRET_KEY`.
pub fn login_at(credentials: &LoginCredentials, event: Event<User>, now: u64) -> (step: Step<
    NewUser,
    Reply<CreateUserResponse>,
>)
    ensures
        login_at_time(SECRET_KEY@, credentials, event, now, step),
        !step.writes(),
{
    login_with(SECRET_KEY, credentials, event, now)
}

/// Logs a user in as of now by the machine's clock, with tokens signed under
/// `SECRET_KEY`: the step is what `login_at` gives at some time.
pub fn login(credentials: &LoginCredentials, event: Event<User>) -> (step: Step<
    NewUser,
    Reply<CreateUserResponse>,
>)
    ensures
        exists|now: u64| #[trigger] login_at_time(SECRET_KEY@, credentials, event, now, step),
        !step.writes(),
{
    let now = current_timestamp();
    login_at(credentials, event, now)
}

/// Whether `step` is a next step in giving the user with this id the values
/// in `user`, after `event`.
///
/// Values that break a field rule are refused with all the rules broken,
/// whatever the event. Else the user is looked for by the id, and only if
/// there is one it is overwritten, with a digest in place of the password,
/// unless the hashing fails. An id that no user has is `NotFound`.
pub open spec fn user_update(id: i32, user: NewUser, event: Event<User>, step: Step<
    NewUser,
    Reply<User>,
>) -> bool {
    if user.field_errors().len() > 0 {
        refused_fields(step, user.field_errors())
    } else {
        match event {
            Event::Begin => step == Step::<NewUser, Reply<User>>::Find(id),
            Event::Found(Ok(Some(_))) => {
                ||| step matches Step::Update(target, stored) && target == id && digested(
                    user,
                    stored,
                )
                ||| step == bare::<NewUser, User>(Status::InternalServerError)
            },
            Event::Found(Ok(None)) => step == bare::<NewUser, User>(Status::NotFound),
            Event::Updated(Ok(updated)) => step == Step::<NewUser, Reply<User>>::Done(
                Reply { status: Status::Success, body: Body::Updated(updated) },
            ),
            _ => step == bare::<NewUser, User>(Status::InternalServerError),
        }
    }
}

/// Updates the user with this id.
///
/// Nothing is written unless the new values are valid and the user with the
/// id was found, and what is written holds a digest, never the password as
/// sent. Whose account it is plays no part: any caller who is admitted can
/// update it.
pub fn update_user(
    _auth: &AuthenticatedUser,
    id: i32,
    user: NewUser,
    event: Event<User>,
) -> (step: Step<NewUser, Reply<User>>)
    ensures
        user_update(id, user, event, step),
        step.writes() ==> user.field_errors().len() == 0 && event matches Event::Found(
            Ok(Some(_)),
        ),
        step matches Step::Update(_, stored) ==> stored.password_hash@ != user.password_hash@,
{
    match user.validate() {
        Err(errors) => refuse_fields(errors),
        Ok(()) => match event {
            Event::Begin => Step::Find(id),
            Event::Found(Ok(Some(_))) => match hashed_user(user) {
                Some(stored) => Step::Update(id, stored),
                None => reply(Status::InternalServerError),
            },
            Event::Found(Ok(None)) => reply(Status::NotFound),
            Event::Updated(Ok(updated)) => Step::Done(
                Reply { status: Status::Success, body: Body::Updated(updated) },
            ),
            _ => reply(Status::InternalServerError),
        },
    }
}

/// A login with an address that nobody has and a login with a password that
/// the digest does not accept end in one and the same reply: `Forbidden`,
/// with nothing in it that tells the two apart.
pub proof fn lemma_refusals_alike(
    secret: Seq<char>,
    credentials: &LoginCredentials,
    user: User,
    unknown_at: u64,
    wrong_at: u64,
    unknown: Step<NewUser, Reply<CreateUserResponse>>,
    wrong: Step<NewUser, Reply<CreateUserResponse>>,
)
    requires
        credentials.field_errors().len() == 0,
        !password_accepted(user, credentials),
        login_at_time(secret, credentials, Event::Found(Ok(None)), unknown_at, unknown),
        login_at_time(secret, credentials, Event::Found(Ok(Some(user))), wrong_at, wrong),
    ensures
        unknown == wrong,
        unknown == bare::<NewUser, CreateUserResponse>(Status::Forbidden),
{
}

} // verus!
