use finance_manager::command::commands::{
    create_user, delete_users, list_users, show_users, update_user,
};
use finance_manager::command::errors::AppError;
use finance_manager::model::{NewUser, User, UserResponse};
use finance_manager::repositories::{Event, Step, StorageError};
use finance_manager::utils::hashing::verify_password;

fn bob() -> User {
    User {
        id: 4,
        username: "bob".to_owned(),
        email: "b@x.com".to_owned(),
        password_hash: "$digest".to_owned(),
    }
}

fn create(event: Event<User>) -> Step<NewUser, Result<(), AppError>> {
    create_user("alice".to_owned(), "a@x.com".to_owned(), "secret1".to_owned(), event)
}

fn update(event: Event<User>) -> Step<NewUser, Result<(), AppError>> {
    update_user(
        "b@x.com".to_owned(),
        "robert".to_owned(),
        "r@x.com".to_owned(),
        "secret9".to_owned(),
        event,
    )
}

#[test]
fn a_user_is_created_where_the_address_is_free() {
    assert_eq!(create(Event::Begin), Step::FindByEmail("a@x.com".to_owned()));
    match create(Event::Found(Ok(None))) {
        Step::Create(stored) => {
            assert_eq!(stored.username, "alice");
            assert_eq!(stored.email, "a@x.com");
            assert_eq!(verify_password(&stored.password_hash, "secret1"), Ok(()));
        }
        other => panic!("not stored: {:?}", other),
    }
    assert_eq!(create(Event::Created(Ok(bob()))), Step::Done(Ok(())));
}

#[test]
fn a_user_is_not_created_where_the_address_is_taken() {
    assert_eq!(
        create(Event::Found(Ok(Some(bob())))),
        Step::Done(Err(AppError::UserRepositoryError))
    );
}

#[test]
fn a_failure_of_the_storage_ends_the_creation() {
    for error in [StorageError::Failure, StorageError::UniqueViolation] {
        assert_eq!(
            create(Event::Found(Err(error))),
            Step::Done(Err(AppError::UserRepositoryError))
        );
        assert_eq!(
            create(Event::Created(Err(error))),
            Step::Done(Err(AppError::UserRepositoryError))
        );
    }
    assert_eq!(create(Event::Deleted(Ok(1))), Step::Done(Err(AppError::Error)));
}

#[test]
fn a_user_is_updated_where_the_current_address_is_known() {
    assert_eq!(update(Event::Begin), Step::FindByEmail("b@x.com".to_owned()));
    match update(Event::Found(Ok(Some(bob())))) {
        Step::Update(id, stored) => {
            assert_eq!(id, 4);
            assert_eq!(stored.username, "robert");
            assert_eq!(stored.email, "r@x.com");
            assert_eq!(verify_password(&stored.password_hash, "secret9"), Ok(()));
        }
        other => panic!("not written: {:?}", other),
    }
    assert_eq!(update(Event::Updated(Ok(Some(bob())))), Step::Done(Ok(())));
    assert_eq!(update(Event::Updated(Ok(None))), Step::Done(Ok(())));
}

#[test]
fn a_user_is_not_updated_where_the_current_address_is_unknown() {
    assert_eq!(update(Event::Found(Ok(None))), Step::Done(Err(AppError::UserRepositoryError)));
    assert_eq!(
        update(Event::Found(Err(StorageError::Failure))),
        Step::Done(Err(AppError::UserRepositoryError))
    );
    assert_eq!(
        update(Event::Updated(Err(StorageError::Failure))),
        Step::Done(Err(AppError::UserRepositoryError))
    );
    assert_eq!(update(Event::Created(Ok(bob()))), Step::Done(Err(AppError::Error)));
}

#[test]
fn users_are_shown_without_their_digests() {
    let alice = User {
        id: 1,
        username: "alice".to_owned(),
        email: "a@x.com".to_owned(),
        password_hash: "$other".to_owned(),
    };
    let shown = vec![
        UserResponse { id: 1, username: "alice".to_owned(), email: "a@x.com".to_owned() },
        UserResponse { id: 4, username: "bob".to_owned(), email: "b@x.com".to_owned() },
    ];
    assert_eq!(show_users(&vec![alice.clone(), bob()]), shown);
    assert_eq!(show_users(&Vec::new()), Vec::new());
    assert_eq!(list_users(Event::Begin), Step::FindMany(100));
    assert_eq!(list_users(Event::FoundMany(Ok(Some(vec![alice, bob()])))), Step::Done(Ok(shown)));
    assert_eq!(
        list_users(Event::FoundMany(Ok(None))),
        Step::Done(Err(AppError::UserRepositoryError))
    );
    assert_eq!(
        list_users(Event::FoundMany(Err(StorageError::Failure))),
        Step::Done(Err(AppError::UserRepositoryError))
    );
    assert_eq!(list_users(Event::Found(Ok(None))), Step::Done(Err(AppError::Error)));
}

#[test]
fn a_user_is_deleted_without_a_lookup() {
    assert_eq!(delete_users(4, Event::Begin), Step::Delete(4));
    assert_eq!(delete_users(4, Event::Deleted(Ok(1))), Step::Done(Ok(())));
    assert_eq!(delete_users(4, Event::Deleted(Ok(0))), Step::Done(Ok(())));
    assert_eq!(
        delete_users(4, Event::Deleted(Err(StorageError::Failure))),
        Step::Done(Err(AppError::UserRepositoryError))
    );
    assert_eq!(delete_users(4, Event::Found(Ok(None))), Step::Done(Err(AppError::Error)));
}

#[test]
fn what_the_user_is_told_of_each_error() {
    assert_eq!(AppError::DbConnectionError.message(), "Database connection error");
    assert_eq!(AppError::HashingError.message(), "Hashing error");
    assert_eq!(AppError::UserRepositoryError.message(), "User repository error");
    assert_eq!(AppError::ClapError.message(), "Clap error");
    assert_eq!(AppError::Error.message(), "server error");
}
