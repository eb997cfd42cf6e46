use crate::model::{Budget, NewBudget, UpdateBudget, ValidationError};
use crate::repositories::{Event, Step};
use crate::routes::{
    checked, create_flow, create_step, delete_flow, delete_step, list_flow, list_step, refused,
    update_flow, update_step, view_flow, view_step, Reply, Status,
};
use crate::AuthenticatedUser;
use vstd::prelude::*;

verus! {

/// The budget that is stored for a caller: the one sent, owned by the caller
/// whatever owner the client wrote into it.
pub open spec fn owned_budget(auth: &AuthenticatedUser, record: NewBudget) -> NewBudget {
    NewBudget { user_id: Some(auth.id), ..record }
}

/// Creates a budget for the caller.
///
/// The budget is made the caller's own first and validated next. One that
/// breaks a rule is refused with every field rule that it breaks and the
/// first rule on the record as a whole that it breaks; an amount that is
/// not positive is always among them. So the budget is
/// stored only if it breaks no rule, and always under the caller's id.
pub fn create_budget(
    auth: &AuthenticatedUser,
    record: NewBudget,
    event: Event<Budget>,
) -> (step: Step<NewBudget, Reply<Budget>>)
    ensures
        checked(
            owned_budget(auth, record).field_errors(),
            owned_budget(auth, record).verdict(),
            step,
            create_flow(owned_budget(auth, record), event),
        ),
        !record.amount.positive() ==> refused(
            step,
            owned_budget(auth, record).field_errors(),
            Some(ValidationError::AmountNotPositive),
        ),
        step matches Step::Create(stored) ==> stored.user_id == Some(auth.id)
            && stored.valid(),
{
    let mut owned = record;
    owned.user_id = Some(auth.id);
    let verdict = owned.validate();
    create_step(verdict, owned, event)
}

/// Shows the budget with this id, whoever owns it.
pub fn view_budget(
    _auth: &AuthenticatedUser,
    id: i32,
    event: Event<Budget>,
) -> (step: Step<NewBudget, Reply<Budget>>)
    ensures
        step == view_flow::<NewBudget, Budget>(id, event),
        !step.writes(),
{
    view_step(id, event)
}

/// Lists budgets, whoever owns them.
pub fn view_budgets(_auth: &AuthenticatedUser, event: Event<Budget>) -> (step: Step<
    NewBudget,
    Reply<Budget>,
>)
    ensures
        step == list_flow::<NewBudget, Budget>(event),
        !step.writes(),
{
    list_step(event)
}

/// Updates the budget with this id.
///
/// The new values are validated as a new budget is, before anything is
/// looked for. Nothing is written unless they break no rule and the budget
/// was found. It is looked for by its id alone: whose it is plays no part,
/// so any caller who is admitted can update it.
pub fn update_budget(
    _auth: &AuthenticatedUser,
    id: i32,
    budget: UpdateBudget,
    event: Event<Budget>,
) -> (step: Step<UpdateBudget, Reply<Budget>>)
    ensures
        checked(
            budget.field_errors(),
            budget.verdict(),
            step,
            update_flow(id, budget, Status::Created, event),
        ),
        !budget.amount.positive() ==> refused(
            step,
            budget.field_errors(),
            Some(ValidationError::AmountNotPositive),
        ),
        step.writes() ==> budget.valid() && event matches Event::Found(Ok(Some(_))),
{
    let verdict = budget.validate();
    update_step(verdict, id, budget, Status::Created, event)
}

/// Deletes the budget with this id.
///
/// Nothing is deleted unless the budget was found. It is looked for by its
/// id alone: whose it is plays no part, so any caller who is admitted can
/// delete it.
pub fn delete_budget(
    _auth: &AuthenticatedUser,
    id: i32,
    event: Event<Budget>,
) -> (step: Step<NewBudget, Reply<Budget>>)
    ensures
        step == delete_flow::<NewBudget, Budget>(id, event),
        step.writes() ==> event matches Event::Found(Ok(Some(_))),
{
    delete_step(id, event)
}

} // verus!
