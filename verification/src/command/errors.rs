use vstd::prelude::*;
use vstd::string::*;

verus! {

/// Why an administrative command failed.
#[derive(Debug, Clone, Copy, PartialEq, Eq, Structural)]
pub enum AppError {
    /// The database could not be reached.
    DbConnectionError,
    /// The password could not be hashed.
    HashingError,
    /// The users could not be read or written, or the user asked for is
    /// there already or is not there.
    UserRepositoryError,
    /// The command line could not be read.
    ClapError,
    /// Anything else.
    Error,
}

impl AppError {
    /// What the user is told.
    pub open spec fn message_spec(&self) -> Seq<char> {
        match self {
            AppError::DbConnectionError => "Database connection error"@,
            AppError::HashingError => "Hashing error"@,
            AppError::UserRepositoryError => "User repository error"@,
            AppError::ClapError => "Clap error"@,
            AppError::Error => "server error"@,
        }
    }

    /// What the user is told.
    pub fn message(&self) -> (res: String)
        ensures
            res@ == self.message_spec(),
    {
        match self {
            AppError::DbConnectionError => String::from_str("Database connection error"),
            AppError::HashingError => String::from_str("Hashing error"),
            AppError::UserRepositoryError => String::from_str("User repository error"),
            AppError::ClapError => String::from_str("Clap error"),
            AppError::Error => String::from_str("server error"),
        }
    }
}

} // verus!
