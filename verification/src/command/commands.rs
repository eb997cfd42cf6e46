use crate::command::errors::AppError;
use crate::model::{NewUser, User, UserResponse};
use crate::repositories::{Event, Step};
use crate::routes::user::{digested, hashed_user};
use crate::routes::LIST_LIMIT;
use vstd::prelude::*;

verus! {

/// The end of a command with this result.
pub open spec fn finished(result: Result<(), AppError>) -> Step<NewUser, Result<(), AppError>> {
    Step::Done(result)
}

fn finish(result: Result<(), AppError>) -> (step: Step<NewUser, Result<(), AppError>>)
    ensures
        step == finished(result),
{
    Step::Done(result)
}

/// Whether `step` is a next step in creating `user` after `event`.
///
/// The address is looked up first. If it is free, the user is stored with a
/// digest in place of the password, unless the hashing fails; if it is taken
/// or the storage fails, the command ends with `UserRepositoryError`.
pub open spec fn user_creation(user: NewUser, event: Event<User>, step: Step<
    NewUser,
    Result<(), AppError>,
>) -> bool {
    match event {
        Event::Begin => step == Step::<NewUser, Result<(), AppError>>::FindByEmail(user.email),
        Event::Found(Ok(None)) => {
            ||| step matches Step::Create(stored) && digested(user, stored)
            ||| step == finished(Err(AppError::HashingError))
        },
        Event::Found(_) => step == finished(Err(AppError::UserRepositoryError)),
        Event::Created(Ok(_)) => step == finished(Ok(())),
        Event::Created(Err(_)) => step == finished(Err(AppError::UserRepositoryError)),
        _ => step == finished(Err(AppError::Error)),
    }
}

/// Creates a user from the command line.
///
/// Nothing is stored unless the lookup found the address free, and what is
/// stored holds a digest, never the password as typed.
pub fn create_user(
    username: String,
    email: String,
    password_hash: String,
    event: Event<User>,
) -> (step: Step<NewUser, Result<(), AppError>>)
    ensures
        user_creation(NewUser { username, email, password_hash }, event, step),
        step.writes() ==> event matches Event::Found(Ok(None)),
        step matches Step::Create(stored) ==> stored.password_hash@ != password_hash@,
{
    let user = NewUser { username, email, password_hash };
    match event {
        Event::Begin => Step::FindByEmail(user.email.clone()),
        Event::Found(Ok(None)) => match hashed_user(user) {
            Some(stored) => Step::Create(stored),
            None => finish(Err(AppError::HashingError)),
        },
        Event::Found(_) => finish(Err(AppError::UserRepositoryError)),
        Event::Created(Ok(_)) => finish(Ok(())),
        Event::Created(Err(_)) => finish(Err(AppError::UserRepositoryError)),
        _ => finish(Err(AppError::Error)),
    }
}

/// Whether `step` is a next step in giving the user known by
/// `current_email` the values in `user`, after `event`.
///
/// The user is looked up by the current address. If there is one, that user
/// is overwritten, with a digest in place of the password, unless the
/// hashing fails; if there is none or the storage fails, the command ends
/// with `UserRepositoryError`.
pub open spec fn user_replacement(
    current_email: String,
    user: NewUser,
    event: Event<User>,
    step: Step<NewUser, Result<(), AppError>>,
) -> bool {
    match event {
        Event::Begin => step == Step::<NewUser, Result<(), AppError>>::FindByEmail(current_email),
        Event::Found(Ok(Some(found))) => {
            ||| step matches Step::Update(target, stored) && target == found.id && digested(
                user,
                stored,
            )
            ||| step == finished(Err(AppError::HashingError))
        },
        Event::Found(_) => step == finished(Err(AppError::UserRepositoryError)),
        Event::Updated(Ok(_)) => step == finished(Ok(())),
        Event::Updated(Err(_)) => step == finished(Err(AppError::UserRepositoryError)),
        _ => step == finished(Err(AppError::Error)),
    }
}

/// Updates a user from the command line.
///
/// Nothing is written unless the lookup found the user, and what is written
/// holds a digest, never the password as typed.
pub fn update_user(
    current_email: String,
    username: String,
    email: String,
    password_hash: String,
    event: Event<User>,
) -> (step: Step<NewUser, Result<(), AppError>>)
    ensures
        user_replacement(current_email, NewUser { username, email, password_hash }, event, step),
        step.writes() ==> event matches Event::Found(Ok(Some(_))),
        step matches Step::Update(_, stored) ==> stored.password_hash@ != password_hash@,
{
    let user = NewUser { username, email, password_hash };
    match event {
        Event::Begin => Step::FindByEmail(current_email),
        Event::Found(Ok(Some(found))) => match hashed_user(user) {
            Some(stored) => Step::Update(found.id, stored),
            None => finish(Err(AppError::HashingError)),
        },
        Event::Found(_) => finish(Err(AppError::UserRepositoryError)),
        Event::Updated(Ok(_)) => finish(Ok(())),
        Event::Updated(Err(_)) => finish(Err(AppError::UserRepositoryError)),
        _ => finish(Err(AppError::Error)),
    }
}

/// A user as shown: the same id, name and address, without the digest.
pub open spec fn shown(user: User) -> UserResponse {
    UserResponse { id: user.id, username: user.username, email: user.email }
}

/// Shows each of the users, in their order.
pub fn show_users(users: &Vec<User>) -> (res: Vec<UserResponse>)
    ensures
        res@.len() == users@.len(),
        forall|i: int| 0 <= i < users@.len() ==> res@[i] == shown(users@[i]),
{
    let mut res: Vec<UserResponse> = Vec::new();
    let mut i: usize = 0;
    while i < users.len()
        invariant
            i <= users.len(),
            res@.len() == i,
            forall|j: int| 0 <= j < i ==> res@[j] == shown(users@[j]),
        decreases users.len() - i,
    {
        let user = &users[i];
        res.push(
            UserResponse {
                id: user.id,
                username: user.username.clone(),
                email: user.email.clone(),
            },
        );
        i += 1;
    }
    res
}

/// Whether `step` is the next step in listing the users after `event`: up
/// to `LIST_LIMIT` users are read and shown in their order, without their
/// digests; the command ends with `UserRepositoryError` where they cannot be
/// read.
pub open spec fn user_listing(event: Event<User>, step: Step<
    NewUser,
    Result<Vec<UserResponse>, AppError>,
>) -> bool {
    match event {
        Event::Begin => step == Step::<NewUser, Result<Vec<UserResponse>, AppError>>::FindMany(
            LIST_LIMIT,
        ),
        Event::FoundMany(Ok(Some(users))) => match step {
            Step::Done(Ok(listed)) => listed@.len() == users@.len() && forall|i: int|
                0 <= i < users@.len() ==> listed@[i] == shown(users@[i]),
            _ => false,
        },
        Event::FoundMany(_) => step == Step::<NewUser, Result<Vec<UserResponse>, AppError>>::Done(
            Err(AppError::UserRepositoryError),
        ),
        _ => step == Step::<NewUser, Result<Vec<UserResponse>, AppError>>::Done(
            Err(AppError::Error),
        ),
    }
}

/// Lists the users from the command line. No step writes to the storage.
pub fn list_users(event: Event<User>) -> (step: Step<NewUser, Result<Vec<UserResponse>, AppError>>)
    ensures
        user_listing(event, step),
        !step.writes(),
{
    match event {
        Event::Begin => Step::FindMany(LIST_LIMIT),
        Event::FoundMany(Ok(Some(users))) => Step::Done(Ok(show_users(&users))),
        Event::FoundMany(_) => Step::Done(Err(AppError::UserRepositoryError)),
        _ => Step::Done(Err(AppError::Error)),
    }
}

/// The next step in deleting the user with this id after `event`: the user
/// is deleted without a lookup, and the command ends with
/// `UserRepositoryError` where the storage fails.
pub open spec fn user_deletion(id: i32, event: Event<User>) -> Step<NewUser, Result<(), AppError>> {
    match event {
        Event::Begin => Step::Delete(id),
        Event::Deleted(Ok(_)) => finished(Ok(())),
        Event::Deleted(Err(_)) => finished(Err(AppError::UserRepositoryError)),
        _ => finished(Err(AppError::Error)),
    }
}

/// Deletes a user from the command line.
pub fn delete_users(id: i32, event: Event<User>) -> (step: Step<NewUser, Result<(), AppError>>)
    ensures
        step == user_deletion(id, event),
{
    match event {
        Event::Begin => Step::Delete(id),
        Event::Deleted(Ok(_)) => finish(Ok(())),
        Event::Deleted(Err(_)) => finish(Err(AppError::UserRepositoryError)),
        _ => finish(Err(AppError::Error)),
    }
}

} // verus!
