use crate::model::{Goals, NewGoal, ValidationError};
use crate::repositories::{Event, Step};
use crate::routes::{
    checked, create_flow, create_step, delete_flow, delete_step, list_flow, list_step, refused,
    update_flow, update_step, view_flow, view_step, Reply, Status,
};
use crate::AuthenticatedUser;
use vstd::prelude::*;

verus! {

/// The goal that is stored for a caller: the one sent, owned by the caller
/// whatever owner the client wrote into it.
pub open spec fn owned_goal(auth: &AuthenticatedUser, record: NewGoal) -> NewGoal {
    NewGoal { user_id: Some(auth.id), ..record }
}

/// Creates a goal for the caller.
///
/// The goal is made the caller's own first and validated next. One that
/// breaks a rule is refused with every field rule that it breaks and the
/// first rule on the record as a whole that it breaks; an amount that is
/// not positive is always among them. So the goal is
/// stored only if it breaks no rule, and always under the caller's id.
pub fn create_goal(
    auth: &AuthenticatedUser,
    record: NewGoal,
    event: Event<Goals>,
) -> (step: Step<NewGoal, Reply<Goals>>)
    ensures
        checked(
            owned_goal(auth, record).field_errors(),
            owned_goal(auth, record).verdict(),
            step,
            create_flow(owned_goal(auth, record), event),
        ),
        !record.goal_amount.positive() ==> refused(
            step,
            owned_goal(auth, record).field_errors(),
            Some(ValidationError::AmountNotPositive),
        ),
        step matches Step::Create(stored) ==> stored.user_id == Some(auth.id)
            && stored.valid(),
{
    let mut owned = record;
    owned.user_id = Some(auth.id);
    let verdict = owned.validate();
    create_step(verdict, owned, event)
}

/// Shows the goal with this id, whoever owns it.
pub fn view_goal(
    _auth: &AuthenticatedUser,
    id: i32,
    event: Event<Goals>,
) -> (step: Step<NewGoal, Reply<Goals>>)
    ensures
        step == view_flow::<NewGoal, Goals>(id, event),
        !step.writes(),
{
    view_step(id, event)
}

/// Lists goals, whoever owns them.
pub fn view_goals(_auth: &AuthenticatedUser, event: Event<Goals>) -> (step: Step<
    NewGoal,
    Reply<Goals>,
>)
    ensures
        step == list_flow::<NewGoal, Goals>(event),
        !step.writes(),
{
    list_step(event)
}

/// Updates the goal with this id.
///
/// The new values are validated as a new goal is, before anything is
/// looked for. Nothing is written unless they break no rule and the goal
/// was found. It is looked for by its id alone: whose it is plays no part,
/// so any caller who is admitted can update it.
pub fn update_goal(
    _auth: &AuthenticatedUser,
    id: i32,
    goal: NewGoal,
    event: Event<Goals>,
) -> (step: Step<NewGoal, Reply<Goals>>)
    ensures
        checked(
            goal.field_errors(),
            goal.verdict(),
            step,
            update_flow(id, goal, Status::Success, event),
        ),
        !goal.goal_amount.positive() ==> refused(
            step,
            goal.field_errors(),
            Some(ValidationError::AmountNotPositive),
        ),
        step.writes() ==> goal.valid() && event matches Event::Found(Ok(Some(_))),
{
    let verdict = goal.validate();
    update_step(verdict, id, goal, Status::Success, event)
}

/// Deletes the goal with this id.
///
/// Nothing is deleted unless the goal was found. It is looked for by its
/// id alone: whose it is plays no part, so any caller who is admitted can
/// delete it.
pub fn delete_goal(
    _auth: &AuthenticatedUser,
    id: i32,
    event: Event<Goals>,
) -> (step: Step<NewGoal, Reply<Goals>>)
    ensures
        step == delete_flow::<NewGoal, Goals>(id, event),
        step.writes() ==> event matches Event::Found(Ok(Some(_))),
{
    delete_step(id, event)
}

} // verus!
