//! Data-access layer of a reading tracker: entity records, the partial-update
//! merge rules, the row codec with its width checks, the "exactly one row"
//! rule, error classification, transaction-scope decisions and versioned
//! schema migration. Talking to the database itself is left to the caller.

pub mod date;
pub mod error;
pub mod entity;
pub mod codec;
pub mod rows;
pub mod repo;
pub mod migrate;
pub mod ddl;
pub mod sql;
pub mod scope;
