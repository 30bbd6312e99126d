//! A conditional update with existence disambiguation against a relational
//! store: given a row identified by a primary key and an update guarded by an
//! additional predicate, the caller learns in a single atomic round trip
//! whether the row was missing, present but rejected by the guard, or
//! updated.
//!
//! The statement wrapper ([`statement`]) pairs a caller-supplied update
//! statement with the row's key; the compiler ([`sql`]) renders the pair into
//! one SQL statement built from two named sub-results, `found` and `updated`;
//! the interpreter ([`outcome`]) classifies the single row that statement
//! yields into the tri-state outcome.

pub mod error;
pub mod outcome;
pub mod sql;
pub mod statement;

pub use error::Error;
pub use outcome::check_result;
pub use outcome::UpdateAndQueryResult;
pub use sql::CompiledStatement;
pub use statement::TableIdentity;
pub use statement::UpdateAndQueryStatement;
pub use statement::UpdateCte;
pub use statement::UpdateStatement;
