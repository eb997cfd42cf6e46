use crate::model::{Income, NewIncome, ValidationError};
use crate::repositories::{Event, Step};
use crate::routes::{
    checked, create_flow, create_step, delete_flow, delete_step, list_flow, list_step, refused,
    update_flow, update_step, view_flow, view_step, Reply, Status,
};
use crate::AuthenticatedUser;
use vstd::prelude::*;

verus! {

/// The income that is stored for a caller: the one sent, owned by the caller
/// whatever owner the client wrote into it.
pub open spec fn owned_income(auth: &AuthenticatedUser, record: NewIncome) -> NewIncome {
    NewIncome { user_id: Some(auth.id), ..record }
}

/// Creates an income for the caller.
///
/// The income is made the caller's own first and validated next. One that
/// breaks a rule is refused with every field rule that it breaks and the
/// first rule on the record as a whole that it breaks; an amount that is
/// not positive is always among them. So the income is
/// stored only if it breaks no rule, and always under the caller's id.
pub fn create_income(
    auth: &AuthenticatedUser,
    record: NewIncome,
    event: Event<Income>,
) -> (step: Step<NewIncome, Reply<Income>>)
    ensures
        checked(
            owned_income(auth, record).field_errors(),
            owned_income(auth, record).verdict(),
            step,
            create_flow(owned_income(auth, record), event),
        ),
        !record.amount.positive() ==> refused(
            step,
            owned_income(auth, record).field_errors(),
            Some(ValidationError::AmountNotPositive),
        ),
        step matches Step::Create(stored) ==> stored.user_id == Some(auth.id)
            && stored.valid(),
{
    let mut owned = record;
    owned.user_id = Some(auth.id);
    let verdict = owned.validate();
    create_step(verdict, owned, event)
}

/// Shows the income with this id, whoever owns it.
pub fn view_income(
    _auth: &AuthenticatedUser,
    id: i32,
    event: Event<Income>,
) -> (step: Step<NewIncome, Reply<Income>>)
    ensures
        step == view_flow::<NewIncome, Income>(id, event),
        !step.writes(),
{
    view_step(id, event)
}

/// Lists incomes, whoever owns them.
pub fn view_incomes(_auth: &AuthenticatedUser, event: Event<Income>) -> (step: Step<
    NewIncome,
    Reply<Income>,
>)
    ensures
        step == list_flow::<NewIncome, Income>(event),
        !step.writes(),
{
    list_step(event)
}

/// Updates the income with this id.
///
/// The new values are validated as a new income is, before anything is
/// looked for. Nothing is written unless they break no rule and the income
/// was found. It is looked for by its id alone: whose it is plays no part,
/// so any caller who is admitted can update it.
pub fn update_income(
    _auth: &AuthenticatedUser,
    id: i32,
    income: NewIncome,
    event: Event<Income>,
) -> (step: Step<NewIncome, Reply<Income>>)
    ensures
        checked(
            income.field_errors(),
            income.verdict(),
            step,
            update_flow(id, income, Status::Success, event),
        ),
        !income.amount.positive() ==> refused(
            step,
            income.field_errors(),
            Some(ValidationError::AmountNotPositive),
        ),
        step.writes() ==> income.valid() && event matches Event::Found(Ok(Some(_))),
{
    let verdict = income.validate();
    update_step(verdict, id, income, Status::Success, event)
}

/// Deletes the income with this id.
///
/// Nothing is deleted unless the income was found. It is looked for by its
/// id alone: whose it is plays no part, so any caller who is admitted can
/// delete it.
pub fn delete_income(
    _auth: &AuthenticatedUser,
    id: i32,
    event: Event<Income>,
) -> (step: Step<NewIncome, Reply<Income>>)
    ensures
        step == delete_flow::<NewIncome, Income>(id, event),
        step.writes() ==> event matches Event::Found(Ok(Some(_))),
{
    delete_step(id, event)
}

} // verus!
