//! The CTE compiler: rendering a wrapped update statement into one SQL
//! statement built from two named sub-results.
//!
//! `found` selects the primary-key column by key equality alone, never
//! through the guard predicate, so that "row exists" and "row satisfies the
//! guard" are independently observable. `updated` is the caller's update
//! statement with the compiler's own `RETURNING` clause appended. Both are
//! named sub-results of one statement, so the store evaluates them against a
//! single consistent snapshot: nothing can interleave between the existence
//! check and the update attempt, which is the point of the construct.

use vstd::prelude::*;
use vstd::string::StringExecFns;

use crate::error::Error;
use crate::statement::UpdateAndQueryStatement;

verus! {

/// `s` with every double quote doubled.
pub open spec fn escape_quotes(s: Seq<char>) -> Seq<char>
    decreases s.len(),
{
    if s.len() == 0 {
        Seq::empty()
    } else if s[0] == '"' {
        seq!['"', '"'] + escape_quotes(s.skip(1))
    } else {
        seq![s[0]] + escape_quotes(s.skip(1))
    }
}

/// An identifier quoted for the PostgreSQL dialect: wrapped in double quotes,
/// with every double quote inside it doubled.
pub open spec fn quoted(s: Seq<char>) -> Seq<char> {
    seq!['"'] + escape_quotes(s) + seq!['"']
}

/// Relies on diesel's PostgreSQL query builder: `push_identifier` writes the
/// identifier wrapped in double quotes, doubling every double quote inside
/// it, and never fails.
#[verifier::external_body]
fn quote_identifier(name: &str) -> (r: String)
    ensures
        r@ == quoted(name@),
{
    let mut builder = diesel::pg::PgQueryBuilder::new();
    let _ = <diesel::pg::PgQueryBuilder as diesel::query_builder::QueryBuilder<
        diesel::pg::Pg,
    >>::push_identifier(&mut builder, name);
    <diesel::pg::PgQueryBuilder as diesel::query_builder::QueryBuilder<diesel::pg::Pg>>::finish(
        builder,
    )
}

/// The statement text before the key's bind parameter: the opening of the
/// `found` sub-result, up to where the key is bound.
pub open spec fn cte_sql_before_key(table: Seq<char>, pk: Seq<char>) -> Seq<char> {
    "WITH found AS (SELECT "@ + quoted(pk) + " FROM "@ + quoted(table) + " WHERE "@ + quoted(pk)
        + " = "@
}

/// The statement text after the key's bind parameter: the `updated`
/// sub-result — the caller's update with the compiler's `RETURNING` clause —
/// and the projection of the two keys from the left outer join of `found` to
/// `updated`.
pub open spec fn cte_sql_after_key(
    table: Seq<char>,
    pk: Seq<char>,
    set_sql: Seq<char>,
    where_sql: Seq<char>,
) -> Seq<char> {
    "), updated AS (UPDATE "@ + quoted(table) + " SET "@ + set_sql + " WHERE "@ + where_sql
        + " RETURNING *) SELECT found."@ + quoted(pk) + ", updated."@ + quoted(pk)
        + " FROM found LEFT JOIN updated ON found."@ + quoted(pk) + " = updated."@ + quoted(pk)
}

/// The whole statement text, with the key parameter written as `$1`.
pub open spec fn cte_sql(
    table: Seq<char>,
    pk: Seq<char>,
    set_sql: Seq<char>,
    where_sql: Seq<char>,
) -> Seq<char> {
    cte_sql_before_key(table, pk) + "$1"@ + cte_sql_after_key(table, pk, set_sql, where_sql)
}

/// A compiled conditional update: one SQL statement, held in two parts around
/// the point where the key must be bound, so that a client can either splice
/// a positional `$1` marker in (see [`CompiledStatement::sql_text`]) or push
/// its own bind marker between the parts.
#[derive(Clone, Debug)]
pub struct CompiledStatement {
    /// The statement text before the key's bind parameter.
    pub sql_before_key: String,
    /// The statement text after the key's bind parameter.
    pub sql_after_key: String,
    /// The value to bind for the key parameter — the request's key, passed to
    /// the store as a parameter, never spliced into the text.
    pub key_bind: u128,
    /// Always false: the text embeds the table's name and join shape, which
    /// vary per table, not just per parameter value, so a prepared form of
    /// one statement must not be reused for another.
    pub safe_to_cache_prepared: bool,
}

impl CompiledStatement {
    /// The whole statement as one text, with the key parameter written as
    /// `$1`.
    pub open spec fn full_sql(&self) -> Seq<char> {
        self.sql_before_key@ + "$1"@ + self.sql_after_key@
    }

    /// The full statement text with the key parameter written as `$1`, for
    /// clients that bind parameters by position in the text.
    pub fn sql_text(&self) -> (r: String)
        ensures
            r@ == self.full_sql(),
    {
        let mut s = String::new();
        s.append(self.sql_before_key.as_str());
        s.append("$1");
        s.append(self.sql_after_key.as_str());
        proof {
            assert(s@ =~= self.sql_before_key@ + "$1"@ + self.sql_after_key@);
        }
        s
    }
}

impl UpdateAndQueryStatement {
    /// Renders the request into the single CTE statement, quoting the table
    /// and primary-key identifiers for the target dialect.
    ///
    /// Fails, with [`Error::Configuration`], exactly when the update
    /// statement carries a result-projection clause of its own: the
    /// compiler's `RETURNING` clause would conflict with it, and overwriting
    /// silently is not an option.
    pub fn compile(&self) -> (r: Result<CompiledStatement, Error>)
        ensures
            r is Ok <==> self.wf(),
            !self.wf() ==> r == Err::<CompiledStatement, Error>(Error::Configuration),
            r matches Ok(c) ==> {
                &&& c.sql_before_key@ == cte_sql_before_key(
                    self.update_statement.table.name@,
                    self.update_statement.table.pk_column@,
                )
                &&& c.sql_after_key@ == cte_sql_after_key(
                    self.update_statement.table.name@,
                    self.update_statement.table.pk_column@,
                    self.update_statement.set_sql@,
                    self.update_statement.where_sql@,
                )
                &&& c.full_sql() == cte_sql(
                    self.update_statement.table.name@,
                    self.update_statement.table.pk_column@,
                    self.update_statement.set_sql@,
                    self.update_statement.where_sql@,
                )
                &&& c.key_bind == self.key
                &&& c.safe_to_cache_prepared == false
            },
    {
        if self.update_statement.returning_sql.is_some() {
            return Err(Error::Configuration);
        }
        let quoted_table = quote_identifier(self.update_statement.table.name.as_str());
        let quoted_pk = quote_identifier(self.update_statement.table.pk_column.as_str());

        let mut before = String::new();
        before.append("WITH found AS (SELECT ");
        before.append(quoted_pk.as_str());
        before.append(" FROM ");
        before.append(quoted_table.as_str());
        before.append(" WHERE ");
        before.append(quoted_pk.as_str());
        before.append(" = ");

        let mut after = String::new();
        after.append("), updated AS (UPDATE ");
        after.append(quoted_table.as_str());
        after.append(" SET ");
        after.append(self.update_statement.set_sql.as_str());
        after.append(" WHERE ");
        after.append(self.update_statement.where_sql.as_str());
        after.append(" RETURNING *) SELECT found.");
        after.append(quoted_pk.as_str());
        after.append(", updated.");
        after.append(quoted_pk.as_str());
        after.append(" FROM found LEFT JOIN updated ON found.");
        after.append(quoted_pk.as_str());
        after.append(" = updated.");
        after.append(quoted_pk.as_str());

        proof {
            assert(before@ =~= cte_sql_before_key(
                self.update_statement.table.name@,
                self.update_statement.table.pk_column@,
            ));
            assert(after@ =~= cte_sql_after_key(
                self.update_statement.table.name@,
                self.update_statement.table.pk_column@,
                self.update_statement.set_sql@,
                self.update_statement.where_sql@,
            ));
        }
        Ok(
            CompiledStatement {
                sql_before_key: before,
                sql_after_key: after,
                key_bind: self.key,
                safe_to_cache_prepared: false,
            },
        )
    }
}

} // verus!
