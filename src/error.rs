use vstd::prelude::*;

verus! {

/// The kinds of failure that the data-access layer reports to its callers.
#[derive(Clone, Copy, Debug, PartialEq, Eq, Structural)]
pub enum RepoError {
    /// The connection pool could not be created or could not connect.
    Connection,
    /// A schema step failed; the database is in an unknown state.
    Migration,
    /// A lookup by key matched no row.
    NotFound,
    /// A lookup by key matched more than one row.
    Ambiguous,
    /// A required field was missing, or a value does not fit its column.
    Validation,
    /// The store refused the operation for a foreign-key or uniqueness rule.
    ConstraintViolation,
    /// Any other failure while talking to the store.
    Transport,
    /// The operation has no implementation yet.
    NotImplemented,
}

/// What went wrong in the store, as reported by the driver.
#[derive(Clone, Copy, Debug, PartialEq, Eq, Structural)]
pub enum StoreFault {
    /// Opening a connection failed, or the pool is closed or exhausted.
    Connect,
    /// A query that must return a row returned none.
    RowNotFound,
    /// A foreign-key constraint refused the statement.
    ForeignKey,
    /// A unique or primary-key constraint refused the statement.
    Unique,
    /// A NOT NULL or CHECK constraint refused the statement.
    Check,
    /// Any other error reported by the database.
    Database,
    /// A value read back could not be decoded.
    Decode,
    /// Input/output, protocol or timeout failure.
    Io,
}

/// Where in the life of the layer a fault arose.
#[derive(Clone, Copy, Debug, PartialEq, Eq, Structural)]
pub enum Stage {
    Connect,
    Migrate,
    Operate,
}

pub open spec fn classify_spec(fault: StoreFault, stage: Stage) -> RepoError {
    match stage {
        Stage::Connect => RepoError::Connection,
        Stage::Migrate => RepoError::Migration,
        Stage::Operate => match fault {
            StoreFault::Connect => RepoError::Connection,
            StoreFault::RowNotFound => RepoError::NotFound,
            StoreFault::ForeignKey => RepoError::ConstraintViolation,
            StoreFault::Unique => RepoError::ConstraintViolation,
            StoreFault::Check => RepoError::Validation,
            StoreFault::Database => RepoError::Transport,
            StoreFault::Decode => RepoError::Validation,
            StoreFault::Io => RepoError::Transport,
        },
    }
}

/// The error reported for a store fault: every fault while connecting is a
/// connection error, every fault while migrating a migration error; during
/// ordinary operations constraint refusals become constraint violations and
/// are never treated as transient.
pub fn classify(fault: StoreFault, stage: Stage) -> (r: RepoError)
    ensures
        r == classify_spec(fault, stage),
{
    match stage {
        Stage::Connect => RepoError::Connection,
        Stage::Migrate => RepoError::Migration,
        Stage::Operate => match fault {
            StoreFault::Connect => RepoError::Connection,
            StoreFault::RowNotFound => RepoError::NotFound,
            StoreFault::ForeignKey => RepoError::ConstraintViolation,
            StoreFault::Unique => RepoError::ConstraintViolation,
            StoreFault::Check => RepoError::Validation,
            StoreFault::Database => RepoError::Transport,
            StoreFault::Decode => RepoError::Validation,
            StoreFault::Io => RepoError::Transport,
        },
    }
}

/// The single row of a lookup by key: `NotFound` for none, `Ambiguous` for more
/// than one.
pub fn expect_one<T>(rows: Vec<T>) -> (r: Result<T, RepoError>)
    ensures
        rows@.len() == 0 ==> r == Err::<T, RepoError>(RepoError::NotFound),
        rows@.len() == 1 ==> r == Ok::<T, RepoError>(rows@[0]),
        rows@.len() > 1 ==> r == Err::<T, RepoError>(RepoError::Ambiguous),
{
    let mut rows = rows;
    if rows.len() == 0 {
        Err(RepoError::NotFound)
    } else if rows.len() > 1 {
        Err(RepoError::Ambiguous)
    } else {
        Ok(rows.remove(0))
    }
}

} // verus!
