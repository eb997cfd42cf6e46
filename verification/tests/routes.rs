use finance_manager::model::{
    Budget, Date, Decimal, FieldError, Goals, Income, LoginCredentials, NewBudget, NewGoal,
    NewIncome, NewTransaction, NewUser, Rejection, Transaction, UpdateBudget, UpdateTransaction,
    User, ValidationError,
};
use finance_manager::repositories::{Event, Step, StorageError};
use finance_manager::routes::budget::{
    create_budget, delete_budget, update_budget, view_budget, view_budgets,
};
use finance_manager::routes::goal::{create_goal, delete_goal, update_goal, view_goal, view_goals};
use finance_manager::routes::income::{
    create_income, delete_income, update_income, view_income, view_incomes,
};
use finance_manager::routes::transactions::{
    create_transaction, delete_transaction, update_transaction, view_transaction,
    view_transactions,
};
use finance_manager::routes::user::{
    create_user, hashed_user, login, login_at, login_with, session_reply, update_user,
    with_digest, CreateUserResponse, UserResponse,
};
use finance_manager::routes::{
    create_step, delete_step, list_step, update_step, view_step, Body, Reply, Status, LIST_LIMIT,
};
use finance_manager::utils::hashing::{hash_password, verify_password, HashingError};
use finance_manager::utils::jwt_token::{
    validate_jwt, validate_jwt_at, validate_jwt_with, Claims, TokenError,
};
use finance_manager::AuthenticatedUser;

fn bare<R>(status: Status) -> Reply<R> {
    Reply { status, body: Body::Empty }
}

fn rule(error: ValidationError) -> Rejection {
    Rejection { fields: Vec::new(), record: Some(error) }
}

fn short(fields: Vec<FieldError>) -> Rejection {
    Rejection { fields, record: None }
}

fn alice() -> AuthenticatedUser {
    AuthenticatedUser { email: "a@x.com".to_owned(), id: 7 }
}

fn day(year: i32, month: u32, day: u32) -> Date {
    Date { year, month, day }
}

fn new_budget(value: i32, start: Date, end: Date) -> NewBudget {
    NewBudget {
        user_id: Some(99),
        category: "rent".to_owned(),
        amount: Decimal::from_i32(value),
        start_date: start,
        end_date: end,
    }
}

fn patch(value: i32) -> UpdateBudget {
    UpdateBudget {
        category: "other".to_owned(),
        amount: Decimal::from_i32(value),
        start_date: day(2024, 1, 1),
        end_date: day(2024, 3, 1),
    }
}

/// Budgets kept in memory, to answer the steps of the handlers.
struct Budgets {
    rows: Vec<Budget>,
    next_id: i32,
    writes: usize,
}

fn no_budgets() -> Budgets {
    Budgets { rows: Vec::new(), next_id: 1, writes: 0 }
}

fn insert_budget(store: &mut Budgets, record: NewBudget) -> Budget {
    let stored = Budget {
        id: store.next_id,
        user_id: record.user_id,
        category: record.category,
        amount: record.amount,
        start_date: record.start_date,
        end_date: record.end_date,
    };
    store.next_id += 1;
    store.writes += 1;
    store.rows.push(stored.clone());
    stored
}

fn find_budget(store: &Budgets, id: i32) -> Option<Budget> {
    store.rows.iter().find(|row| row.id == id).cloned()
}

fn run_create_budget(store: &mut Budgets, auth: &AuthenticatedUser, record: NewBudget) -> Reply<Budget> {
    let mut event = Event::Begin;
    loop {
        match create_budget(auth, record.clone(), event) {
            Step::Done(reply) => return reply,
            Step::Create(owned) => event = Event::Created(Ok(insert_budget(store, owned))),
            other => panic!("a step that creation does not take: {:?}", other),
        }
    }
}

fn run_update_budget(store: &mut Budgets, id: i32, values: UpdateBudget) -> Reply<Budget> {
    let mut event = Event::Begin;
    loop {
        match update_budget(&alice(), id, values.clone(), event) {
            Step::Done(reply) => return reply,
            Step::Find(wanted) => event = Event::Found(Ok(find_budget(store, wanted))),
            Step::Update(wanted, values) => {
                store.writes += 1;
                for row in store.rows.iter_mut().filter(|row| row.id == wanted) {
                    row.category = values.category.clone();
                    row.amount = values.amount.clone();
                    row.start_date = values.start_date;
                    row.end_date = values.end_date;
                }
                event = Event::Updated(Ok(find_budget(store, wanted)));
            }
            other => panic!("a step that an update does not take: {:?}", other),
        }
    }
}

fn run_delete_budget(store: &mut Budgets, id: i32) -> Reply<Budget> {
    let mut event = Event::Begin;
    loop {
        match delete_budget(&alice(), id, event) {
            Step::Done(reply) => return reply,
            Step::Find(wanted) => event = Event::Found(Ok(find_budget(store, wanted))),
            Step::Delete(wanted) => {
                let before = store.rows.len();
                store.rows.retain(|row| row.id != wanted);
                store.writes += 1;
                event = Event::Deleted(Ok(before - store.rows.len()));
            }
            other => panic!("a step that a deletion does not take: {:?}", other),
        }
    }
}

fn run_view_budget(store: &Budgets, id: i32) -> Reply<Budget> {
    let mut event = Event::Begin;
    loop {
        match view_budget(&alice(), id, event) {
            Step::Done(reply) => return reply,
            Step::Find(wanted) => event = Event::Found(Ok(find_budget(store, wanted))),
            other => panic!("a step that a view does not take: {:?}", other),
        }
    }
}

#[test]
fn the_numbers_of_the_statuses() {
    assert_eq!(Status::Success.code(), 200);
    assert_eq!(Status::Created.code(), 201);
    assert_eq!(Status::BadRequest.code(), 400);
    assert_eq!(Status::Unauthorized.code(), 401);
    assert_eq!(Status::Forbidden.code(), 403);
    assert_eq!(Status::NotFound.code(), 404);
    assert_eq!(Status::Conflict.code(), 409);
    assert_eq!(Status::InternalServerError.code(), 500);
    assert_eq!(LIST_LIMIT, 100);
}

#[test]
fn a_budget_is_created_under_the_callers_id() {
    let mut store = no_budgets();
    let reply = run_create_budget(
        &mut store,
        &alice(),
        new_budget(100, day(2024, 1, 1), day(2024, 2, 1)),
    );
    assert_eq!(reply.status, Status::Created);
    let expected = Budget {
        id: 1,
        user_id: Some(7),
        category: "rent".to_owned(),
        amount: Decimal::from_i32(100),
        start_date: day(2024, 1, 1),
        end_date: day(2024, 2, 1),
    };
    assert_eq!(reply.body, Body::Record(expected.clone()));
    assert_eq!(store.rows, vec![expected.clone()]);
    assert_eq!(run_view_budget(&store, 1), Reply { status: Status::Success, body: Body::Record(expected) });
}

#[test]
fn the_owner_sent_by_the_client_is_overwritten() {
    let mut sent = new_budget(100, day(2024, 1, 1), day(2024, 2, 1));
    sent.user_id = None;
    match create_budget(&alice(), sent, Event::Begin) {
        Step::Create(owned) => assert_eq!(owned.user_id, Some(7)),
        other => panic!("not stored: {:?}", other),
    }
    match create_budget(&alice(), new_budget(1, day(2024, 1, 1), day(2024, 1, 1)), Event::Begin) {
        Step::Create(owned) => assert_eq!(owned.user_id, Some(7)),
        other => panic!("not stored: {:?}", other),
    }
}

#[test]
fn a_budget_with_a_negative_amount_is_a_bad_request() {
    let mut store = no_budgets();
    let reply = run_create_budget(
        &mut store,
        &alice(),
        new_budget(-5, day(2024, 1, 1), day(2024, 2, 1)),
    );
    assert_eq!(reply.status.code(), 400);
    assert_eq!(reply.body, Body::Rejected(rule(ValidationError::AmountNotPositive)));
    assert!(ValidationError::AmountNotPositive.code().contains("amount"));
    assert_eq!(store.writes, 0);
}

#[test]
fn a_budget_that_ends_before_it_starts_is_a_bad_request() {
    let mut store = no_budgets();
    let reply = run_create_budget(
        &mut store,
        &alice(),
        new_budget(100, day(2024, 2, 1), day(2024, 1, 1)),
    );
    assert_eq!(reply.status.code(), 400);
    assert_eq!(reply.body, Body::Rejected(rule(ValidationError::StartAfterEnd)));
    assert!(ValidationError::StartAfterEnd.code().contains("start_date"));
    assert_eq!(store.writes, 0);
}

#[test]
fn an_invalid_budget_is_refused_whatever_the_event() {
    let bad = new_budget(-5, day(2024, 1, 1), day(2024, 2, 1));
    let stored = Budget {
        id: 1,
        user_id: Some(7),
        category: "rent".to_owned(),
        amount: Decimal::from_i32(1),
        start_date: day(2024, 1, 1),
        end_date: day(2024, 2, 1),
    };
    for event in [
        Event::Begin,
        Event::Found(Ok(None)),
        Event::Found(Ok(Some(stored.clone()))),
        Event::Created(Ok(stored.clone())),
        Event::Deleted(Ok(1)),
    ] {
        assert_eq!(
            create_budget(&alice(), bad.clone(), event),
            Step::Done(Reply {
                status: Status::BadRequest,
                body: Body::Rejected(rule(ValidationError::AmountNotPositive))
            })
        );
    }
}

#[test]
fn a_failure_of_the_storage_is_an_internal_error() {
    let good = new_budget(5, day(2024, 1, 1), day(2024, 2, 1));
    for error in [StorageError::Failure, StorageError::UniqueViolation] {
        assert_eq!(
            create_budget(&alice(), good.clone(), Event::Created(Err(error))),
            Step::Done(bare(Status::InternalServerError))
        );
        assert_eq!(
            view_budget(&alice(), 1, Event::Found(Err(error))),
            Step::Done(bare(Status::InternalServerError))
        );
        assert_eq!(
            view_budgets(&alice(), Event::FoundMany(Err(error))),
            Step::Done(bare(Status::InternalServerError))
        );
        assert_eq!(
            update_budget(&alice(), 1, patch(5), Event::Found(Err(error))),
            Step::Done(bare(Status::InternalServerError))
        );
        assert_eq!(
            update_budget(&alice(), 1, patch(5), Event::Updated(Err(error))),
            Step::Done(bare(Status::InternalServerError))
        );
        assert_eq!(
            delete_budget(&alice(), 1, Event::Found(Err(error))),
            Step::Done(bare(Status::InternalServerError))
        );
        assert_eq!(
            delete_budget(&alice(), 1, Event::Deleted(Err(error))),
            Step::Done(bare(Status::InternalServerError))
        );
    }
}

#[test]
fn an_answer_that_was_not_asked_for_is_an_internal_error() {
    assert_eq!(
        view_budget(&alice(), 1, Event::Deleted(Ok(1))),
        Step::Done(bare(Status::InternalServerError))
    );
    assert_eq!(
        view_budgets(&alice(), Event::Found(Ok(None))),
        Step::Done(bare(Status::InternalServerError))
    );
    assert_eq!(
        delete_budget(&alice(), 1, Event::FoundMany(Ok(None))),
        Step::Done(bare(Status::InternalServerError))
    );
    assert_eq!(
        update_budget(&alice(), 1, patch(5), Event::Deleted(Ok(1))),
        Step::Done(bare(Status::InternalServerError))
    );
    assert_eq!(
        create_budget(
            &alice(),
            new_budget(5, day(2024, 1, 1), day(2024, 2, 1)),
            Event::Found(Ok(None))
        ),
        Step::Done(bare(Status::InternalServerError))
    );
}

#[test]
fn updating_a_budget_that_is_not_there_is_not_found() {
    let mut store = no_budgets();
    let reply = run_update_budget(&mut store, 42, patch(5));
    assert_eq!(reply, bare(Status::NotFound));
    assert_eq!(reply.status.code(), 404);
    assert_eq!(store.writes, 0);
}

#[test]
fn deleting_a_budget_that_is_not_there_is_not_found() {
    let mut store = no_budgets();
    let reply = run_delete_budget(&mut store, 42);
    assert_eq!(reply, bare(Status::NotFound));
    assert_eq!(reply.status.code(), 404);
    assert_eq!(store.writes, 0);
}

#[test]
fn viewing_a_budget_that_is_not_there_is_not_found() {
    assert_eq!(run_view_budget(&no_budgets(), 42), bare(Status::NotFound));
}

#[test]
fn an_update_shows_in_the_budget() {
    let mut store = no_budgets();
    run_create_budget(&mut store, &alice(), new_budget(100, day(2024, 1, 1), day(2024, 2, 1)));
    let reply = run_update_budget(&mut store, 1, patch(250));
    let expected = Budget {
        id: 1,
        user_id: Some(7),
        category: "other".to_owned(),
        amount: Decimal::from_i32(250),
        start_date: day(2024, 1, 1),
        end_date: day(2024, 3, 1),
    };
    assert_eq!(reply, Reply { status: Status::Created, body: Body::Updated(Some(expected.clone())) });
    assert_eq!(run_view_budget(&store, 1).body, Body::Record(expected));
}

#[test]
fn invalid_new_values_are_refused_before_the_lookup() {
    let mut store = no_budgets();
    run_create_budget(&mut store, &alice(), new_budget(100, day(2024, 1, 1), day(2024, 2, 1)));
    let before = store.rows.clone();
    let reply = run_update_budget(&mut store, 1, patch(0));
    assert_eq!(
        reply,
        Reply { status: Status::BadRequest, body: Body::Rejected(rule(ValidationError::AmountNotPositive)) }
    );
    assert_eq!(store.rows, before);
    // Also for a budget that is not there.
    assert_eq!(run_update_budget(&mut store, 42, patch(0)).status, Status::BadRequest);
}

#[test]
fn a_budget_that_went_while_it_was_updated_is_shown_as_gone() {
    assert_eq!(
        update_budget(&alice(), 1, patch(5), Event::Updated(Ok(None))),
        Step::Done(Reply { status: Status::Created, body: Body::Updated(None) })
    );
}

#[test]
fn a_deleted_budget_is_gone() {
    let mut store = no_budgets();
    run_create_budget(&mut store, &alice(), new_budget(100, day(2024, 1, 1), day(2024, 2, 1)));
    assert_eq!(run_delete_budget(&mut store, 1), bare(Status::Success));
    assert_eq!(run_view_budget(&store, 1), bare(Status::NotFound));
    assert_eq!(run_delete_budget(&mut store, 1), bare(Status::NotFound));
}

#[test]
fn budgets_are_listed_up_to_the_limit() {
    assert_eq!(view_budgets(&alice(), Event::Begin), Step::FindMany(100));
    let mut store = no_budgets();
    run_create_budget(&mut store, &alice(), new_budget(1, day(2024, 1, 1), day(2024, 2, 1)));
    run_create_budget(&mut store, &alice(), new_budget(2, day(2024, 1, 1), day(2024, 2, 1)));
    assert_eq!(
        view_budgets(&alice(), Event::FoundMany(Ok(Some(store.rows.clone())))),
        Step::Done(Reply { status: Status::Success, body: Body::Records(store.rows.clone()) })
    );
    assert_eq!(
        view_budgets(&alice(), Event::FoundMany(Ok(Some(Vec::new())))),
        Step::Done(Reply { status: Status::Success, body: Body::Records(Vec::new()) })
    );
    assert_eq!(
        view_budgets(&alice(), Event::FoundMany(Ok(None))),
        Step::Done(bare(Status::NotFound))
    );
}

#[test]
fn the_steps_of_each_flow() {
    let verdict = || -> Result<(), Rejection> { Ok(()) };
    assert_eq!(create_step::<u8, u8>(verdict(), 3, Event::Begin), Step::Create(3));
    assert_eq!(
        create_step::<u8, u8>(verdict(), 3, Event::Created(Ok(4))),
        Step::Done(Reply { status: Status::Created, body: Body::Record(4) })
    );
    assert_eq!(
        create_step::<u8, u8>(Err(rule(ValidationError::WrongCategory)), 3, Event::Begin),
        Step::Done(Reply {
            status: Status::BadRequest,
            body: Body::Rejected(rule(ValidationError::WrongCategory))
        })
    );
    assert_eq!(view_step::<u8, u8>(5, Event::Begin), Step::Find(5));
    assert_eq!(
        view_step::<u8, u8>(5, Event::Found(Ok(Some(9)))),
        Step::Done(Reply { status: Status::Success, body: Body::Record(9) })
    );
    assert_eq!(list_step::<u8, u8>(Event::Begin), Step::FindMany(100));
    assert_eq!(update_step::<u8, u8>(verdict(), 5, 3, Status::Success, Event::Begin), Step::Find(5));
    assert_eq!(
        update_step::<u8, u8>(verdict(), 5, 3, Status::Success, Event::Found(Ok(Some(1)))),
        Step::Update(5, 3)
    );
    assert_eq!(
        update_step::<u8, u8>(verdict(), 5, 3, Status::Success, Event::Updated(Ok(Some(3)))),
        Step::Done(Reply { status: Status::Success, body: Body::Updated(Some(3)) })
    );
    assert_eq!(delete_step::<u8, u8>(5, Event::Begin), Step::Find(5));
    assert_eq!(delete_step::<u8, u8>(5, Event::Found(Ok(Some(1)))), Step::Delete(5));
    assert_eq!(delete_step::<u8, u8>(5, Event::Found(Ok(None))), Step::Done(bare(Status::NotFound)));
    assert_eq!(delete_step::<u8, u8>(5, Event::Deleted(Ok(0))), Step::Done(bare(Status::Success)));
}

fn transaction(value: i32, category: &str) -> NewTransaction {
    NewTransaction {
        user_id: None,
        amount: Decimal::from_i32(value),
        category: category.to_owned(),
        description: Some("lunch".to_owned()),
        date: day(2024, 5, 1),
    }
}

#[test]
fn transactions_go_through_the_same_flows() {
    match create_transaction(&alice(), transaction(12, "groceries"), Event::Begin) {
        Step::Create(owned) => {
            assert_eq!(owned.user_id, Some(7));
            assert_eq!(owned.amount, Decimal::from_i32(12));
        }
        other => panic!("not stored: {:?}", other),
    }
    assert_eq!(
        create_transaction(&alice(), transaction(12, "lunch"), Event::Begin),
        Step::Done(Reply {
            status: Status::BadRequest,
            body: Body::Rejected(rule(ValidationError::WrongCategory))
        })
    );
    let stored = Transaction {
        id: 3,
        user_id: Some(7),
        amount: Decimal::from_i32(12),
        category: "groceries".to_owned(),
        description: None,
        date: day(2024, 5, 1),
    };
    assert_eq!(
        create_transaction(&alice(), transaction(12, "groceries"), Event::Created(Ok(stored.clone()))),
        Step::Done(Reply { status: Status::Created, body: Body::Record(stored.clone()) })
    );
    assert_eq!(view_transaction(&alice(), 3, Event::Begin), Step::Find(3));
    assert_eq!(view_transactions(&alice(), Event::Begin), Step::FindMany(100));
    let values = UpdateTransaction {
        amount: Decimal::from_i32(15),
        category: "other".to_owned(),
        description: None,
        date: day(2024, 5, 2),
    };
    assert_eq!(update_transaction(&alice(), 3, values.clone(), Event::Begin), Step::Find(3));
    assert_eq!(
        update_transaction(&alice(), 3, values.clone(), Event::Found(Ok(Some(stored.clone())))),
        Step::Update(3, values.clone())
    );
    assert_eq!(
        update_transaction(&alice(), 3, values.clone(), Event::Found(Ok(None))),
        Step::Done(bare(Status::NotFound))
    );
    assert_eq!(
        update_transaction(&alice(), 3, values, Event::Updated(Ok(Some(stored.clone())))),
        Step::Done(Reply { status: Status::Success, body: Body::Updated(Some(stored.clone())) })
    );
    assert_eq!(delete_transaction(&alice(), 3, Event::Found(Ok(Some(stored)))), Step::Delete(3));
    assert_eq!(
        delete_transaction(&alice(), 3, Event::Found(Ok(None))),
        Step::Done(bare(Status::NotFound))
    );
}

#[test]
fn incomes_go_through_the_same_flows() {
    let income = |value: i32| NewIncome {
        user_id: Some(1),
        amount: Decimal::from_i32(value),
        source: "job".to_owned(),
        date: day(2024, 5, 1),
    };
    match create_income(&alice(), income(1200), Event::Begin) {
        Step::Create(owned) => assert_eq!(owned.user_id, Some(7)),
        other => panic!("not stored: {:?}", other),
    }
    assert_eq!(
        create_income(&alice(), income(0), Event::Begin),
        Step::Done(Reply {
            status: Status::BadRequest,
            body: Body::Rejected(rule(ValidationError::AmountNotPositive))
        })
    );
    let stored = Income {
        id: 2,
        user_id: Some(7),
        amount: Decimal::from_i32(1200),
        source: "job".to_owned(),
        date: day(2024, 5, 1),
    };
    assert_eq!(view_income(&alice(), 2, Event::Begin), Step::Find(2));
    assert_eq!(
        view_income(&alice(), 2, Event::Found(Ok(Some(stored.clone())))),
        Step::Done(Reply { status: Status::Success, body: Body::Record(stored.clone()) })
    );
    assert_eq!(view_incomes(&alice(), Event::Begin), Step::FindMany(100));
    assert_eq!(
        update_income(&alice(), 2, income(1300), Event::Found(Ok(Some(stored.clone())))),
        Step::Update(2, income(1300))
    );
    assert_eq!(
        update_income(&alice(), 2, income(-1), Event::Found(Ok(Some(stored.clone())))),
        Step::Done(Reply {
            status: Status::BadRequest,
            body: Body::Rejected(rule(ValidationError::AmountNotPositive))
        })
    );
    assert_eq!(
        update_income(&alice(), 2, income(1300), Event::Found(Ok(None))),
        Step::Done(bare(Status::NotFound))
    );
    assert_eq!(delete_income(&alice(), 2, Event::Found(Ok(Some(stored)))), Step::Delete(2));
    assert_eq!(delete_income(&alice(), 2, Event::Deleted(Ok(1))), Step::Done(bare(Status::Success)));
}

#[test]
fn goals_go_through_the_same_flows() {
    let goal = |value: i32| NewGoal {
        user_id: None,
        goal_description: "a bicycle".to_owned(),
        goal_amount: Decimal::from_i32(value),
        deadline: day(2024, 12, 31),
        saving: None,
    };
    match create_goal(&alice(), goal(500), Event::Begin) {
        Step::Create(owned) => assert_eq!(owned.user_id, Some(7)),
        other => panic!("not stored: {:?}", other),
    }
    assert_eq!(
        create_goal(&alice(), goal(-500), Event::Begin),
        Step::Done(Reply {
            status: Status::BadRequest,
            body: Body::Rejected(rule(ValidationError::AmountNotPositive))
        })
    );
    let stored = Goals {
        id: 4,
        user_id: Some(7),
        goal_description: "a bicycle".to_owned(),
        goal_amount: Decimal::from_i32(500),
        deadline: day(2024, 12, 31),
        saving: None,
    };
    assert_eq!(view_goal(&alice(), 4, Event::Found(Ok(None))), Step::Done(bare(Status::NotFound)));
    assert_eq!(view_goals(&alice(), Event::FoundMany(Ok(None))), Step::Done(bare(Status::NotFound)));
    assert_eq!(
        update_goal(&alice(), 4, goal(600), Event::Found(Ok(Some(stored.clone())))),
        Step::Update(4, goal(600))
    );
    assert_eq!(
        update_goal(&alice(), 4, goal(600), Event::Updated(Ok(Some(stored.clone())))),
        Step::Done(Reply { status: Status::Success, body: Body::Updated(Some(stored.clone())) })
    );
    assert_eq!(delete_goal(&alice(), 4, Event::Begin), Step::Find(4));
    assert_eq!(delete_goal(&alice(), 4, Event::Found(Ok(Some(stored)))), Step::Delete(4));
}

/// Users kept in memory, to answer the steps of the handlers.
struct Users {
    rows: Vec<User>,
    next_id: i32,
}

fn answer(store: &mut Users, step: Step<NewUser, Reply<User>>) -> Event<User> {
    match step {
        Step::Find(id) => Event::Found(Ok(store.rows.iter().find(|row| row.id == id).cloned())),
        Step::FindByEmail(email) => {
            Event::Found(Ok(store.rows.iter().find(|row| row.email == email).cloned()))
        }
        Step::Create(record) => {
            if store.rows.iter().any(|row| row.email == record.email) {
                return Event::Created(Err(StorageError::UniqueViolation));
            }
            let stored = User {
                id: store.next_id,
                username: record.username,
                email: record.email,
                password_hash: record.password_hash,
            };
            store.next_id += 1;
            store.rows.push(stored.clone());
            Event::Created(Ok(stored))
        }
        Step::Update(id, record) => {
            for row in store.rows.iter_mut().filter(|row| row.id == id) {
                row.username = record.username.clone();
                row.email = record.email.clone();
                row.password_hash = record.password_hash.clone();
            }
            Event::Updated(Ok(store.rows.iter().find(|row| row.email == record.email).cloned()))
        }
        other => panic!("a step that the users are not asked: {:?}", other),
    }
}

fn register(store: &mut Users, user: NewUser) -> Reply<User> {
    let mut event = Event::Begin;
    loop {
        match create_user(user.clone(), event) {
            Step::Done(reply) => return reply,
            step => event = answer(store, step),
        }
    }
}

fn log_in(store: &Users, email: &str, password: &str, now: u64) -> Reply<CreateUserResponse> {
    let credentials =
        LoginCredentials { email: email.to_owned(), password_hash: password.to_owned() };
    let mut event = Event::Begin;
    loop {
        match login_at(&credentials, event, now) {
            Step::Done(reply) => return reply,
            Step::FindByEmail(wanted) => {
                event = Event::Found(Ok(store.rows.iter().find(|row| row.email == wanted).cloned()))
            }
            other => panic!("a step that a login does not take: {:?}", other),
        }
    }
}

fn alice_registers() -> NewUser {
    NewUser {
        username: "alice".to_owned(),
        email: "a@x.com".to_owned(),
        password_hash: "secret1".to_owned(),
    }
}

#[test]
fn a_user_registers_once() {
    let mut store = Users { rows: Vec::new(), next_id: 1 };
    let first = register(&mut store, alice_registers());
    assert_eq!(first.status, Status::Created);
    assert_eq!(first.status.code(), 201);
    match first.body {
        Body::Record(user) => {
            assert_eq!(user.id, 1);
            assert_eq!(user.username, "alice");
            assert_eq!(user.email, "a@x.com");
            assert_ne!(user.password_hash, "secret1");
            assert_eq!(verify_password(&user.password_hash, "secret1"), Ok(()));
        }
        other => panic!("no user in the reply: {:?}", other),
    }
    let second = register(&mut store, alice_registers());
    assert_eq!(second, bare(Status::Conflict));
    assert_eq!(second.status.code(), 409);
    assert_eq!(store.rows.len(), 1);
}

#[test]
fn the_same_address_under_another_name_is_a_conflict() {
    let mut store = Users { rows: Vec::new(), next_id: 1 };
    register(&mut store, alice_registers());
    let mut other = alice_registers();
    other.username = "alicia".to_owned();
    other.password_hash = "secret2".to_owned();
    assert_eq!(register(&mut store, other), bare(Status::Conflict));
}

#[test]
fn a_unique_violation_on_insert_is_a_conflict() {
    assert_eq!(
        create_user(alice_registers(), Event::Created(Err(StorageError::UniqueViolation))),
        Step::Done(bare(Status::Conflict))
    );
    assert_eq!(
        create_user(alice_registers(), Event::Created(Err(StorageError::Failure))),
        Step::Done(bare(Status::InternalServerError))
    );
    assert_eq!(
        create_user(alice_registers(), Event::Found(Err(StorageError::Failure))),
        Step::Done(bare(Status::InternalServerError))
    );
}

#[test]
fn registration_looks_the_address_up_first() {
    assert_eq!(
        create_user(alice_registers(), Event::Begin),
        Step::FindByEmail("a@x.com".to_owned())
    );
}

#[test]
fn an_invalid_user_is_told_every_broken_rule() {
    let mut store = Users { rows: Vec::new(), next_id: 1 };
    let reply = register(
        &mut store,
        NewUser { username: "al".to_owned(), email: "nobody".to_owned(), password_hash: "123".to_owned() },
    );
    assert_eq!(
        reply,
        Reply {
            status: Status::BadRequest,
            body: Body::Fields(vec![
                FieldError::UsernameTooShort,
                FieldError::InvalidEmail,
                FieldError::PasswordTooShort
            ])
        }
    );
    assert!(store.rows.is_empty());
}

#[test]
fn the_password_is_replaced_by_a_digest() {
    let stored = hashed_user(alice_registers()).expect("hashing works");
    assert_eq!(stored.username, "alice");
    assert_eq!(stored.email, "a@x.com");
    assert_eq!(verify_password(&stored.password_hash, "secret1"), Ok(()));
    assert_eq!(
        with_digest(alice_registers(), Ok("digest".to_owned())),
        Some(NewUser {
            username: "alice".to_owned(),
            email: "a@x.com".to_owned(),
            password_hash: "digest".to_owned()
        })
    );
    assert_eq!(with_digest(alice_registers(), Err(HashingError::Failure)), None);
    // What came back as the digest is the password itself: it is not stored.
    assert_eq!(with_digest(alice_registers(), Ok("secret1".to_owned())), None);
}

#[test]
fn a_login_with_the_right_password_gets_a_token() {
    let mut store = Users { rows: Vec::new(), next_id: 1 };
    register(&mut store, alice_registers());
    let reply = log_in(&store, "a@x.com", "secret1", 1_000_000);
    assert_eq!(reply.status, Status::Success);
    match reply.body {
        Body::Record(session) => {
            assert_eq!(
                session.user,
                UserResponse { id: 1, username: "alice".to_owned(), email: "a@x.com".to_owned() }
            );
            assert_eq!(
                validate_jwt_at(&session.token, 1_000_000),
                Ok(Claims { email: "a@x.com".to_owned(), id: 1, exp: 1_003_600 })
            );
        }
        other => panic!("no session in the reply: {:?}", other),
    }
}

#[test]
fn a_wrong_password_and_an_unknown_address_get_the_same_reply() {
    let mut store = Users { rows: Vec::new(), next_id: 1 };
    register(&mut store, alice_registers());
    let wrong_password = log_in(&store, "a@x.com", "secret2", 1_000_000);
    let unknown = log_in(&store, "b@x.com", "secret1", 1_000_000);
    assert_eq!(wrong_password.status.code(), 403);
    assert_eq!(unknown.status.code(), 403);
    assert_eq!(wrong_password, unknown);
    assert_eq!(wrong_password, bare(Status::Forbidden));
}

#[test]
fn a_stored_digest_that_is_malformed_is_forbidden_too() {
    let broken = User {
        id: 1,
        username: "alice".to_owned(),
        email: "a@x.com".to_owned(),
        password_hash: "plain".to_owned(),
    };
    let credentials =
        LoginCredentials { email: "a@x.com".to_owned(), password_hash: "secret1".to_owned() };
    assert_eq!(
        login_at(&credentials, Event::Found(Ok(Some(broken))), 0),
        Step::Done(bare(Status::Forbidden))
    );
}

#[test]
fn invalid_credentials_are_a_bad_request() {
    let store = Users { rows: Vec::new(), next_id: 1 };
    assert_eq!(
        log_in(&store, "nobody", "123", 0),
        Reply {
            status: Status::BadRequest,
            body: Body::Fields(vec![FieldError::InvalidEmail, FieldError::PasswordTooShort])
        }
    );
}

#[test]
fn a_login_that_cannot_read_the_users_is_an_internal_error() {
    let credentials =
        LoginCredentials { email: "a@x.com".to_owned(), password_hash: "secret1".to_owned() };
    assert_eq!(
        login_at(&credentials, Event::Found(Err(StorageError::Failure)), 0),
        Step::Done(bare(Status::InternalServerError))
    );
    assert_eq!(
        login_at(&credentials, Event::Created(Err(StorageError::Failure)), 0),
        Step::Done(bare(Status::InternalServerError))
    );
}

#[test]
fn a_login_at_the_end_of_time_is_an_internal_error() {
    let digest = hash_password("secret1").expect("hashing works");
    let found = User {
        id: 1,
        username: "alice".to_owned(),
        email: "a@x.com".to_owned(),
        password_hash: digest,
    };
    let credentials =
        LoginCredentials { email: "a@x.com".to_owned(), password_hash: "secret1".to_owned() };
    assert_eq!(
        login_at(&credentials, Event::Found(Ok(Some(found))), u64::MAX),
        Step::Done(bare(Status::InternalServerError))
    );
}

#[test]
fn a_login_now_gets_a_token_valid_now() {
    let digest = hash_password("secret1").expect("hashing works");
    let found = User {
        id: 5,
        username: "alice".to_owned(),
        email: "a@x.com".to_owned(),
        password_hash: digest,
    };
    let credentials =
        LoginCredentials { email: "a@x.com".to_owned(), password_hash: "secret1".to_owned() };
    assert_eq!(login(&credentials, Event::Begin), Step::FindByEmail("a@x.com".to_owned()));
    match login(&credentials, Event::Found(Ok(Some(found)))) {
        Step::Done(Reply { status: Status::Success, body: Body::Record(session) }) => {
            let claims = validate_jwt(&session.token).expect("valid at once");
            assert_eq!(claims.email, "a@x.com");
            assert_eq!(claims.id, 5);
        }
        other => panic!("no session: {:?}", other),
    }
}

#[test]
fn a_user_is_updated_after_a_lookup() {
    let mut store = Users { rows: Vec::new(), next_id: 1 };
    register(&mut store, alice_registers());
    let mut values = alice_registers();
    values.username = "alice2".to_owned();
    values.password_hash = "secret2".to_owned();
    let mut event = Event::Begin;
    let reply = loop {
        match update_user(&alice(), 1, values.clone(), event) {
            Step::Done(reply) => break reply,
            step => event = answer(&mut store, step),
        }
    };
    assert_eq!(reply.status, Status::Success);
    match reply.body {
        Body::Updated(Some(user)) => {
            assert_eq!(user.id, 1);
            assert_eq!(user.username, "alice2");
            assert_eq!(verify_password(&user.password_hash, "secret2"), Ok(()));
            assert_eq!(
                verify_password(&user.password_hash, "secret1"),
                Err(HashingError::Password)
            );
        }
        other => panic!("no user in the reply: {:?}", other),
    }
}

#[test]
fn updating_a_user_who_is_not_there_is_not_found() {
    let mut store = Users { rows: Vec::new(), next_id: 1 };
    let mut event = Event::Begin;
    let reply = loop {
        match update_user(&alice(), 1, alice_registers(), event) {
            Step::Done(reply) => break reply,
            step => event = answer(&mut store, step),
        }
    };
    assert_eq!(reply, bare(Status::NotFound));
    let mut bad = alice_registers();
    bad.password_hash = "123".to_owned();
    assert_eq!(
        update_user(&alice(), 1, bad, Event::Begin),
        Step::Done(Reply {
            status: Status::BadRequest,
            body: Body::Fields(vec![FieldError::PasswordTooShort])
        })
    );
}

#[test]
fn a_login_ends_with_the_user_and_the_token() {
    let found = User {
        id: 5,
        username: "alice".to_owned(),
        email: "a@x.com".to_owned(),
        password_hash: "$digest".to_owned(),
    };
    assert_eq!(
        session_reply(found.clone(), Ok("token".to_owned())),
        Step::Done(Reply {
            status: Status::Success,
            body: Body::Record(CreateUserResponse {
                user: UserResponse {
                    id: 5,
                    username: "alice".to_owned(),
                    email: "a@x.com".to_owned()
                },
                token: "token".to_owned()
            })
        })
    );
    for error in [TokenError::Encoding, TokenError::ClockOutOfRange] {
        assert_eq!(
            session_reply(found.clone(), Err(error)),
            Step::Done(bare(Status::InternalServerError))
        );
    }
}

#[test]
fn a_refusal_holds_the_rules_of_both_kinds() {
    // A category that is too short and an amount that is not positive.
    let mut sent = new_budget(-5, day(2024, 1, 1), day(2024, 2, 1));
    sent.category = "ab".to_owned();
    assert_eq!(
        create_budget(&alice(), sent, Event::Begin),
        Step::Done(Reply {
            status: Status::BadRequest,
            body: Body::Rejected(Rejection {
                fields: vec![FieldError::CategoryTooShort],
                record: Some(ValidationError::AmountNotPositive)
            })
        })
    );
    let mut values = patch(-5);
    values.category = "ab".to_owned();
    assert_eq!(
        update_budget(&alice(), 1, values, Event::Begin),
        Step::Done(Reply {
            status: Status::BadRequest,
            body: Body::Rejected(Rejection {
                fields: vec![FieldError::CategoryTooShort],
                record: Some(ValidationError::AmountNotPositive)
            })
        })
    );
    let mut empty = patch(5);
    empty.category = String::new();
    assert_eq!(
        update_budget(&alice(), 1, empty, Event::Begin),
        Step::Done(Reply {
            status: Status::BadRequest,
            body: Body::Rejected(Rejection {
                fields: vec![FieldError::CategoryTooShort],
                record: Some(ValidationError::WrongCategory)
            })
        })
    );
}

#[test]
fn every_broken_field_rule_of_a_transaction_is_reported() {
    let mut sent = transaction(-1, "x");
    sent.description = Some("ab".to_owned());
    assert_eq!(
        create_transaction(&alice(), sent, Event::Begin),
        Step::Done(Reply {
            status: Status::BadRequest,
            body: Body::Rejected(Rejection {
                fields: vec![FieldError::CategoryTooShort, FieldError::DescriptionTooShort],
                record: Some(ValidationError::AmountNotPositive)
            })
        })
    );
    let mut brief = transaction(10, "rent");
    brief.description = Some("ab".to_owned());
    assert_eq!(
        create_transaction(&alice(), brief, Event::Begin),
        Step::Done(Reply {
            status: Status::BadRequest,
            body: Body::Rejected(short(vec![FieldError::DescriptionTooShort]))
        })
    );
    let mut none = transaction(10, "rent");
    none.description = None;
    match create_transaction(&alice(), none, Event::Begin) {
        Step::Create(owned) => assert_eq!(owned.description, None),
        other => panic!("not stored: {:?}", other),
    }
    let values = UpdateTransaction {
        amount: Decimal::from_i32(15),
        category: "other".to_owned(),
        description: Some("x".to_owned()),
        date: day(2024, 5, 2),
    };
    assert_eq!(
        update_transaction(&alice(), 3, values, Event::Begin),
        Step::Done(Reply {
            status: Status::BadRequest,
            body: Body::Rejected(short(vec![FieldError::DescriptionTooShort]))
        })
    );
}

#[test]
fn a_short_source_or_description_is_a_bad_request() {
    let income = |value: i32| NewIncome {
        user_id: None,
        amount: Decimal::from_i32(value),
        source: "me".to_owned(),
        date: day(2024, 5, 1),
    };
    assert_eq!(
        create_income(&alice(), income(10), Event::Begin),
        Step::Done(Reply {
            status: Status::BadRequest,
            body: Body::Rejected(short(vec![FieldError::SourceTooShort]))
        })
    );
    assert_eq!(
        update_income(&alice(), 2, income(10), Event::Begin),
        Step::Done(Reply {
            status: Status::BadRequest,
            body: Body::Rejected(short(vec![FieldError::SourceTooShort]))
        })
    );
    // The amount rule is reported beside the length rule.
    assert_eq!(
        create_income(&alice(), income(-1), Event::Begin),
        Step::Done(Reply {
            status: Status::BadRequest,
            body: Body::Rejected(Rejection {
                fields: vec![FieldError::SourceTooShort],
                record: Some(ValidationError::AmountNotPositive)
            })
        })
    );
    let goal = |value: i32| NewGoal {
        user_id: None,
        goal_description: "go".to_owned(),
        goal_amount: Decimal::from_i32(value),
        deadline: day(2024, 12, 31),
        saving: None,
    };
    assert_eq!(
        create_goal(&alice(), goal(10), Event::Begin),
        Step::Done(Reply {
            status: Status::BadRequest,
            body: Body::Rejected(short(vec![FieldError::GoalDescriptionTooShort]))
        })
    );
    assert_eq!(
        update_goal(&alice(), 4, goal(0), Event::Found(Ok(None))),
        Step::Done(Reply {
            status: Status::BadRequest,
            body: Body::Rejected(Rejection {
                fields: vec![FieldError::GoalDescriptionTooShort],
                record: Some(ValidationError::AmountNotPositive)
            })
        })
    );
}

#[test]
fn a_budget_is_found_by_its_id_whoever_owns_it() {
    let mut store = no_budgets();
    run_create_budget(&mut store, &alice(), new_budget(100, day(2024, 1, 1), day(2024, 2, 1)));
    let bob = AuthenticatedUser { email: "b@x.com".to_owned(), id: 8 };
    let stored = find_budget(&store, 1).expect("stored");
    assert_eq!(stored.user_id, Some(7));
    assert_eq!(
        update_budget(&bob, 1, patch(5), Event::Found(Ok(Some(stored.clone())))),
        Step::Update(1, patch(5))
    );
    assert_eq!(delete_budget(&bob, 1, Event::Found(Ok(Some(stored.clone())))), Step::Delete(1));
    assert_eq!(
        view_budget(&bob, 1, Event::Found(Ok(Some(stored.clone())))),
        Step::Done(Reply { status: Status::Success, body: Body::Record(stored) })
    );
}

#[test]
fn a_user_is_looked_up_by_the_id_before_an_update() {
    assert_eq!(update_user(&alice(), 12, alice_registers(), Event::Begin), Step::Find(12));
    assert_eq!(
        update_user(&alice(), 12, alice_registers(), Event::Found(Ok(None))),
        Step::Done(bare(Status::NotFound))
    );
}

#[test]
fn a_user_can_change_to_a_fresh_address() {
    let mut store = Users { rows: Vec::new(), next_id: 1 };
    register(&mut store, alice_registers());
    let mut values = alice_registers();
    values.email = "alice@y.org".to_owned();
    let mut event = Event::Begin;
    let reply = loop {
        match update_user(&alice(), 1, values.clone(), event) {
            Step::Done(reply) => break reply,
            step => event = answer(&mut store, step),
        }
    };
    assert_eq!(reply.status, Status::Success);
    assert_eq!(store.rows[0].email, "alice@y.org");
    // An id that no user has is not found, whoever holds the address.
    let mut event = Event::Begin;
    let reply = loop {
        match update_user(&alice(), 2, values.clone(), event) {
            Step::Done(reply) => break reply,
            step => event = answer(&mut store, step),
        }
    };
    assert_eq!(reply, bare(Status::NotFound));
}

#[test]
fn a_login_signs_under_the_secret_it_is_given() {
    let digest = hash_password("secret1").expect("hashing works");
    let found = User {
        id: 5,
        username: "alice".to_owned(),
        email: "a@x.com".to_owned(),
        password_hash: digest,
    };
    let credentials =
        LoginCredentials { email: "a@x.com".to_owned(), password_hash: "secret1".to_owned() };
    match login_with("from outside", &credentials, Event::Found(Ok(Some(found))), 1_000_000) {
        Step::Done(Reply { status: Status::Success, body: Body::Record(session) }) => {
            assert_eq!(
                validate_jwt_with("from outside", &session.token, 1_000_000),
                Ok(Claims { email: "a@x.com".to_owned(), id: 5, exp: 1_003_600 })
            );
            assert_eq!(validate_jwt_at(&session.token, 1_000_000), Err(TokenError::Invalid));
        }
        other => panic!("no session: {:?}", other),
    }
}
