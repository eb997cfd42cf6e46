use crate::model::{NewTransaction, Transaction, UpdateTransaction, ValidationError};
use crate::repositories::{Event, Step};
use crate::routes::{
    checked, create_flow, create_step, delete_flow, delete_step, list_flow, list_step, refused,
    update_flow, update_step, view_flow, view_step, Reply, Status,
};
use crate::AuthenticatedUser;
use vstd::prelude::*;

verus! {

/// The transaction that is stored for a caller: the one sent, owned by the caller
/// whatever owner the client wrote into it.
pub open spec fn owned_transaction(
    auth: &AuthenticatedUser,
    record: NewTransaction,
) -> NewTransaction {
    NewTransaction { user_id: Some(auth.id), ..record }
}

/// Creates a transaction for the caller.
///
/// The transaction is made the caller's own first and validated next. One that
/// breaks a rule is refused with every field rule that it breaks and the
/// first rule on the record as a whole that it breaks; an amount that is
/// not positive is always among them. So the transaction is
/// stored only if it breaks no rule, and always under the caller's id.
pub fn create_transaction(
    auth: &AuthenticatedUser,
    record: NewTransaction,
    event: Event<Transaction>,
) -> (step: Step<NewTransaction, Reply<Transaction>>)
    ensures
        checked(
            owned_transaction(auth, record).field_errors(),
            owned_transaction(auth, record).verdict(),
            step,
            create_flow(owned_transaction(auth, record), event),
        ),
        !record.amount.positive() ==> refused(
            step,
            owned_transaction(auth, record).field_errors(),
            Some(ValidationError::AmountNotPositive),
        ),
        step matches Step::Create(stored) ==> stored.user_id == Some(auth.id)
            && stored.valid(),
{
    let mut owned = record;
    owned.user_id = Some(auth.id);
    let verdict = owned.validate();
    create_step(verdict, owned, event)
}

/// Shows the transaction with this id, whoever owns it.
pub fn view_transaction(
    _auth: &AuthenticatedUser,
    id: i32,
    event: Event<Transaction>,
) -> (step: Step<NewTransaction, Reply<Transaction>>)
    ensures
        step == view_flow::<NewTransaction, Transaction>(id, event),
        !step.writes(),
{
    view_step(id, event)
}

/// Lists transactions, whoever owns them.
pub fn view_transactions(_auth: &AuthenticatedUser, event: Event<Transaction>) -> (step: Step<
    NewTransaction,
    Reply<Transaction>,
>)
    ensures
        step == list_flow::<NewTransaction, Transaction>(event),
        !step.writes(),
{
    list_step(event)
}

/// Updates the transaction with this id.
///
/// The new values are validated as a new transaction is, before anything is
/// looked for. Nothing is written unless they break no rule and the transaction
/// was found. It is looked for by its id alone: whose it is plays no part,
/// so any caller who is admitted can update it.
pub fn update_transaction(
    _auth: &AuthenticatedUser,
    id: i32,
    transaction: UpdateTransaction,
    event: Event<Transaction>,
) -> (step: Step<UpdateTransaction, Reply<Transaction>>)
    ensures
        checked(
            transaction.field_errors(),
            transaction.verdict(),
            step,
            update_flow(id, transaction, Status::Success, event),
        ),
        !transaction.amount.positive() ==> refused(
            step,
            transaction.field_errors(),
            Some(ValidationError::AmountNotPositive),
        ),
        step.writes() ==> transaction.valid() && event matches Event::Found(Ok(Some(_))),
{
    let verdict = transaction.validate();
    update_step(verdict, id, transaction, Status::Success, event)
}

/// Deletes the transaction with this id.
///
/// Nothing is deleted unless the transaction was found. It is looked for by its
/// id alone: whose it is plays no part, so any caller who is admitted can
/// delete it.
pub fn delete_transaction(
    _auth: &AuthenticatedUser,
    id: i32,
    event: Event<Transaction>,
) -> (step: Step<NewTransaction, Reply<Transaction>>)
    ensures
        step == delete_flow::<NewTransaction, Transaction>(id, event),
        step.writes() ==> event matches Event::Found(Ok(Some(_))),
{
    delete_step(id, event)
}

} // verus!
