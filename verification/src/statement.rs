//! The statement wrapper: pairing a caller-supplied update statement with the
//! key of the row whose existence is in question.

use vstd::prelude::*;

use crate::error::Error;

verus! {

/// A table as the conditional update sees it: its name and the name of its
/// primary-key column, both plain identifiers (the compiler quotes them).
#[derive(Clone, Debug)]
pub struct TableIdentity {
    /// The table's name.
    pub name: String,
    /// The name of the primary-key column.
    pub pk_column: String,
}

/// An update statement as the caller supplies it: the table, the column
/// assignments of its `SET` clause and the guard predicate of its `WHERE`
/// clause — both pre-validated, pre-rendered SQL fragments, opaque to this
/// crate — plus a result-projection clause if the caller already added one
/// (which wrapping and compilation reject).
#[derive(Clone, Debug)]
pub struct UpdateStatement {
    /// The table being updated.
    pub table: TableIdentity,
    /// The `SET` assignments, without the `SET` keyword.
    pub set_sql: String,
    /// The guard predicate, without the `WHERE` keyword. The compiled
    /// statement binds the request's key as its first parameter, so the
    /// fragment may refer to that key as `$1`.
    pub where_sql: String,
    /// A `RETURNING` clause of the caller's own, if any, without the
    /// `RETURNING` keyword.
    pub returning_sql: Option<String>,
}

/// An update statement paired with the primary-key value identifying the
/// target row. Compiling it yields a single statement whose one result row
/// tells whether the row exists and whether the update reached it.
#[derive(Clone, Debug)]
pub struct UpdateAndQueryStatement {
    /// The caller's update statement, carrying the guard predicate.
    pub update_statement: UpdateStatement,
    /// The primary-key value of the target row, held as its 128 bits (a
    /// UUID's value, or any narrower key widened into it). The compiled
    /// statement binds it as a parameter; it is never spliced into the text.
    pub key: u128,
}

impl UpdateAndQueryStatement {
    /// A request is well formed when its update statement carries no
    /// result-projection clause of its own, so that the compiler's
    /// `RETURNING` clause is the only one.
    pub open spec fn wf(&self) -> bool {
        self.update_statement.returning_sql is None
    }
}

/// Wrapper around an update statement for a table, which allows callers to
/// distinguish between "not found", "found but not updated", and "updated".
pub trait UpdateCte: Sized {
    /// The update statement that `self` stands for.
    spec fn spec_update_statement(&self) -> UpdateStatement;

    /// Nests the update statement in a CTE request which identifies whether
    /// the row exists (by key), even if the row cannot be successfully
    /// updated.
    ///
    /// Pure data composition, touching no store. It fails, with
    /// [`Error::Configuration`], exactly when the update statement already
    /// carries a result-projection clause.
    fn check_if_exists(self, key: u128) -> (r: Result<UpdateAndQueryStatement, Error>)
        ensures
            self.spec_update_statement().returning_sql is Some ==> r == Err::<
                UpdateAndQueryStatement,
                Error,
            >(Error::Configuration),
            self.spec_update_statement().returning_sql is None ==> r == Ok::<
                UpdateAndQueryStatement,
                Error,
            >((UpdateAndQueryStatement { update_statement: self.spec_update_statement(), key })),
            r matches Ok(q) ==> q.wf(),
    ;
}

impl UpdateCte for UpdateStatement {
    open spec fn spec_update_statement(&self) -> UpdateStatement {
        *self
    }

    fn check_if_exists(self, key: u128) -> (r: Result<UpdateAndQueryStatement, Error>) {
        if self.returning_sql.is_some() {
            Err(Error::Configuration)
        } else {
            Ok(UpdateAndQueryStatement { update_statement: self, key })
        }
    }
}

} // verus!
