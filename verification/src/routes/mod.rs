pub mod budget;
pub mod goal;
pub mod income;
pub mod transactions;
pub mod user;

use crate::model::{broken, FieldError, Rejection, ValidationError};
use crate::repositories::{Event, Step};
use vstd::prelude::*;

verus! {

/// The status of a reply.
#[derive(Debug, Clone, Copy, PartialEq, Eq, Structural)]
pub enum Status {
    Success,
    Created,
    BadRequest,
    Unauthorized,
    Forbidden,
    NotFound,
    Conflict,
    InternalServerError,
}

impl Status {
    /// The number of the status.
    pub open spec fn code_spec(&self) -> u16 {
        match self {
            Status::Success => 200,
            Status::Created => 201,
            Status::BadRequest => 400,
            Status::Unauthorized => 401,
            Status::Forbidden => 403,
            Status::NotFound => 404,
            Status::Conflict => 409,
            Status::InternalServerError => 500,
        }
    }

    /// The number of the status.
    pub fn code(&self) -> (res: u16)
        ensures
            res == self.code_spec(),
    {
        match self {
            Status::Success => 200,
            Status::Created => 201,
            Status::BadRequest => 400,
            Status::Unauthorized => 401,
            Status::Forbidden => 403,
            Status::NotFound => 404,
            Status::Conflict => 409,
            Status::InternalServerError => 500,
        }
    }
}

/// What a reply carries besides its status.
#[derive(Debug, PartialEq, Eq)]
pub enum Body<R> {
    /// One record.
    Record(R),
    /// The records that were read.
    Records(Vec<R>),
    /// The record as it is after an update, if it is still there.
    Updated(Option<R>),
    /// The rules that the record breaks.
    Rejected(Rejection),
    /// The field rules that the record breaks.
    Fields(Vec<FieldError>),
    /// Nothing but what the status says.
    Empty,
}

/// The reply to a request.
#[derive(Debug, PartialEq, Eq)]
pub struct Reply<R> {
    pub status: Status,
    pub body: Body<R>,
}

/// How many records a listing reads at most.
pub const LIST_LIMIT: i64 = 100;

/// The end with a reply that carries nothing but its status.
pub open spec fn bare<P, R>(status: Status) -> Step<P, Reply<R>> {
    Step::Done(Reply { status, body: Body::Empty })
}

/// Whether a step is the refusal of a record that breaks these field rules
/// and this rule on the record as a whole: a bad request that holds them
/// all.
pub open spec fn refused<P, R>(
    step: Step<P, Reply<R>>,
    errors: Seq<FieldError>,
    record: Option<ValidationError>,
) -> bool {
    match step {
        Step::Done(
            Reply { status: Status::BadRequest, body: Body::Rejected(rejection) },
        ) => rejection.fields@ == errors && rejection.record == record,
        _ => false,
    }
}

/// Whether a step is the refusal of a record that breaks these field rules:
/// a bad request that lists them all.
pub open spec fn refused_fields<P, R>(step: Step<P, Reply<R>>, errors: Seq<FieldError>) -> bool {
    match step {
        Step::Done(Reply { status: Status::BadRequest, body: Body::Fields(found) }) => found@
            == errors,
        _ => false,
    }
}

/// Whether `step` is what becomes of a record with these field errors and
/// this answer of the rules on the record as a whole: the refusal that
/// holds every broken rule where one is broken, whatever the event, and
/// `otherwise` where none is.
pub open spec fn checked<P, R>(
    errors: Seq<FieldError>,
    verdict: Result<(), ValidationError>,
    step: Step<P, Reply<R>>,
    otherwise: Step<P, Reply<R>>,
) -> bool {
    if errors.len() > 0 || verdict is Err {
        refused(step, errors, broken(verdict))
    } else {
        step == otherwise
    }
}

/// The refusal with this rejection.
pub open spec fn rejected<P, R>(rejection: Rejection) -> Step<P, Reply<R>> {
    Step::Done(Reply { status: Status::BadRequest, body: Body::Rejected(rejection) })
}

/// The refusal of a record that breaks these field rules.
pub fn refuse_fields<P, R>(errors: Vec<FieldError>) -> (step: Step<P, Reply<R>>)
    ensures
        refused_fields(step, errors@),
        !step.writes(),
{
    Step::Done(Reply { status: Status::BadRequest, body: Body::Fields(errors) })
}

/// The reply that carries nothing but its status.
pub fn reply<P, R>(status: Status) -> (step: Step<P, Reply<R>>)
    ensures
        step == bare::<P, R>(status),
{
    Step::Done(Reply { status, body: Body::Empty })
}

/// How a record that breaks no rule is created: it is stored first, and
/// the answer of the storage decides between `Created` and
/// `InternalServerError`.
pub open spec fn create_flow<P, R>(record: P, event: Event<R>) -> Step<P, Reply<R>> {
    match event {
        Event::Begin => Step::Create(record),
        Event::Created(Ok(stored)) => Step::Done(
            Reply { status: Status::Created, body: Body::Record(stored) },
        ),
        _ => bare(Status::InternalServerError),
    }
}

/// How one record is read: it is looked for first, and the answer decides
/// between `Ok` with the record, `NotFound` and `InternalServerError`.
pub open spec fn view_flow<P, R>(id: i32, event: Event<R>) -> Step<P, Reply<R>> {
    match event {
        Event::Begin => Step::Find(id),
        Event::Found(Ok(Some(record))) => Step::Done(
            Reply { status: Status::Success, body: Body::Record(record) },
        ),
        Event::Found(Ok(None)) => bare(Status::NotFound),
        _ => bare(Status::InternalServerError),
    }
}

/// How records are listed: up to `LIST_LIMIT` of them are read, and the
/// answer decides between `Ok` with the records, `NotFound` and
/// `InternalServerError`.
pub open spec fn list_flow<P, R>(event: Event<R>) -> Step<P, Reply<R>> {
    match event {
        Event::Begin => Step::FindMany(LIST_LIMIT),
        Event::FoundMany(Ok(Some(records))) => Step::Done(
            Reply { status: Status::Success, body: Body::Records(records) },
        ),
        Event::FoundMany(Ok(None)) => bare(Status::NotFound),
        _ => bare(Status::InternalServerError),
    }
}

/// How a record is updated with new values that break no rule: the record
/// is looked for, and only if it is there it is overwritten. `success` is
/// the status of the reply that carries the record as it then is.
pub open spec fn update_flow<P, R>(id: i32, patch: P, success: Status, event: Event<R>) -> Step<
    P,
    Reply<R>,
> {
    match event {
        Event::Begin => Step::Find(id),
        Event::Found(Ok(Some(_))) => Step::Update(id, patch),
        Event::Found(Ok(None)) => bare(Status::NotFound),
        Event::Updated(Ok(record)) => Step::Done(
            Reply { status: success, body: Body::Updated(record) },
        ),
        _ => bare(Status::InternalServerError),
    }
}

/// How a record is deleted: it is looked for, and only if it is there it is
/// deleted.
pub open spec fn delete_flow<P, R>(id: i32, event: Event<R>) -> Step<P, Reply<R>> {
    match event {
        Event::Begin => Step::Find(id),
        Event::Found(Ok(Some(_))) => Step::Delete(id),
        Event::Found(Ok(None)) => bare(Status::NotFound),
        Event::Deleted(Ok(_)) => bare(Status::Success),
        _ => bare(Status::InternalServerError),
    }
}

/// The next step in creating a record, given what `validate` said of it: a
/// record that was rejected is refused whatever the event.
pub fn create_step<P, R>(verdict: Result<(), Rejection>, record: P, event: Event<R>) -> (step:
    Step<P, Reply<R>>)
    ensures
        step == (match verdict {
            Err(rejection) => rejected::<P, R>(rejection),
            Ok(()) => create_flow(record, event),
        }),
        step is Create ==> verdict is Ok && event is Begin,
{
    match verdict {
        Err(rejection) => Step::Done(
            Reply { status: Status::BadRequest, body: Body::Rejected(rejection) },
        ),
        Ok(()) => match event {
            Event::Begin => Step::Create(record),
            Event::Created(Ok(stored)) => Step::Done(
                Reply { status: Status::Created, body: Body::Record(stored) },
            ),
            _ => Step::Done(Reply { status: Status::InternalServerError, body: Body::Empty }),
        },
    }
}

/// The next step in reading one record.
pub fn view_step<P, R>(id: i32, event: Event<R>) -> (step: Step<P, Reply<R>>)
    ensures
        step == view_flow::<P, R>(id, event),
        !step.writes(),
{
    match event {
        Event::Begin => Step::Find(id),
        Event::Found(Ok(Some(record))) => Step::Done(
            Reply { status: Status::Success, body: Body::Record(record) },
        ),
        Event::Found(Ok(None)) => Step::Done(Reply { status: Status::NotFound, body: Body::Empty }),
        _ => Step::Done(Reply { status: Status::InternalServerError, body: Body::Empty }),
    }
}

/// The next step in listing records.
pub fn list_step<P, R>(event: Event<R>) -> (step: Step<P, Reply<R>>)
    ensures
        step == list_flow::<P, R>(event),
        !step.writes(),
{
    match event {
        Event::Begin => Step::FindMany(LIST_LIMIT),
        Event::FoundMany(Ok(Some(records))) => Step::Done(
            Reply { status: Status::Success, body: Body::Records(records) },
        ),
        Event::FoundMany(Ok(None)) => Step::Done(
            Reply { status: Status::NotFound, body: Body::Empty },
        ),
        _ => Step::Done(Reply { status: Status::InternalServerError, body: Body::Empty }),
    }
}

/// The next step in updating a record, given what `validate` said of the
/// new values: values that were rejected are refused whatever the event.
pub fn update_step<P, R>(
    verdict: Result<(), Rejection>,
    id: i32,
    patch: P,
    success: Status,
    event: Event<R>,
) -> (step: Step<P, Reply<R>>)
    ensures
        step == (match verdict {
            Err(rejection) => rejected::<P, R>(rejection),
            Ok(()) => update_flow(id, patch, success, event),
        }),
        step.writes() ==> verdict is Ok && event matches Event::Found(Ok(Some(_))),
{
    match verdict {
        Err(rejection) => Step::Done(
            Reply { status: Status::BadRequest, body: Body::Rejected(rejection) },
        ),
        Ok(()) => match event {
            Event::Begin => Step::Find(id),
            Event::Found(Ok(Some(_))) => Step::Update(id, patch),
            Event::Found(Ok(None)) => Step::Done(
                Reply { status: Status::NotFound, body: Body::Empty },
            ),
            Event::Updated(Ok(record)) => Step::Done(
                Reply { status: success, body: Body::Updated(record) },
            ),
            _ => Step::Done(Reply { status: Status::InternalServerError, body: Body::Empty }),
        },
    }
}

/// The next step in deleting a record.
pub fn delete_step<P, R>(id: i32, event: Event<R>) -> (step: Step<P, Reply<R>>)
    ensures
        step == delete_flow::<P, R>(id, event),
        step.writes() ==> event matches Event::Found(Ok(Some(_))),
{
    match event {
        Event::Begin => Step::Find(id),
        Event::Found(Ok(Some(_))) => Step::Delete(id),
        Event::Found(Ok(None)) => Step::Done(Reply { status: Status::NotFound, body: Body::Empty }),
        Event::Deleted(Ok(_)) => Step::Done(Reply { status: Status::Success, body: Body::Empty }),
        _ => Step::Done(Reply { status: Status::InternalServerError, body: Body::Empty }),
    }
}

/// A record whose rules on the record as a whole are broken is refused with
/// the rule that is broken, whatever its fields are like: a broken field
/// rule hides no broken record rule.
pub proof fn lemma_refusal_reports_the_record_rule<P, R>(
    errors: Seq<FieldError>,
    error: ValidationError,
    step: Step<P, Reply<R>>,
    otherwise: Step<P, Reply<R>>,
)
    requires
        checked(errors, Err(error), step, otherwise),
    ensures
        step matches Step::Done(
            Reply { status: Status::BadRequest, body: Body::Rejected(rejection) },
        ) && rejection.record == Some(error) && rejection.fields@ == errors,
{
}

} // verus!
