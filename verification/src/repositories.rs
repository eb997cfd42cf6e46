use vstd::prelude::*;

verus! {

/// Why the storage could not do what it was asked.
#[derive(Debug, Clone, Copy, PartialEq, Eq, Structural)]
pub enum StorageError {
    /// A row with the same unique value is there already.
    UniqueViolation,
    /// Anything else: the connection, the driver, another constraint.
    Failure,
}

/// What the storage answered to the last query, or that nothing was asked
/// yet. `R` is the kind of record stored.
#[derive(Debug, PartialEq, Eq)]
pub enum Event<R> {
    /// The request has just come in.
    Begin,
    /// The answer to `Find` or `FindByEmail`.
    Found(Result<Option<R>, StorageError>),
    /// The answer to `FindMany`.
    FoundMany(Result<Option<Vec<R>>, StorageError>),
    /// The answer to `Create`: the record as stored.
    Created(Result<R, StorageError>),
    /// The answer to `Update`: the record as it now is, if it is still there.
    Updated(Result<Option<R>, StorageError>),
    /// The answer to `Delete`: how many rows went.
    Deleted(Result<usize, StorageError>),
}

/// What is to happen next: a query for the storage, after which the caller
/// comes back with the answer, or the end with an outcome. `P` is the kind
/// of record written, `O` the outcome.
#[derive(Debug, PartialEq, Eq)]
pub enum Step<P, O> {
    /// Look for the record with this id.
    Find(i32),
    /// Look for the user with this email address.
    FindByEmail(String),
    /// Read records, this many at most.
    FindMany(i64),
    /// Store a new record.
    Create(P),
    /// Overwrite the mutable fields of the record with this id.
    Update(i32, P),
    /// Delete the record with this id.
    Delete(i32),
    /// Nothing more to ask: this is the outcome.
    Done(O),
}

impl<P, O> Step<P, O> {
    /// Whether the step writes to the storage.
    pub open spec fn writes(&self) -> bool {
        self is Create || self is Update || self is Delete
    }
}

} // verus!
