//! The outcome interpreter: classifying the rows that the compiled statement
//! returned into the tri-state outcome.

use vstd::prelude::*;

use crate::error::Error;

verus! {

/// Result of a conditional update whose row exists.
#[derive(Copy, Clone, PartialEq, Eq, Structural, Debug)]
pub enum UpdateAndQueryResult {
    /// The row exists and was updated.
    Updated,
    /// The row exists, but was not updated.
    NotUpdatedButExists,
}

/// What the rows returned by the compiled statement mean. The statement is
/// built so that it yields at most one row per key, shaped as the pair of
/// nullable keys (one from `found`, one from `updated`):
/// - no row at all: the key matched nothing, [`Error::NotFound`];
/// - the `updated` key is null: the row exists but the guard rejected the
///   update, [`UpdateAndQueryResult::NotUpdatedButExists`];
/// - both keys present and equal: the row was updated,
///   [`UpdateAndQueryResult::Updated`];
/// - any other shape (two distinct keys, or a null `found` key beside an
///   `updated` one): impossible by the join construction,
///   [`Error::InternalInvariant`].
pub open spec fn interpretation(rows: Seq<(Option<u128>, Option<u128>)>) -> Result<
    UpdateAndQueryResult,
    Error,
> {
    if rows.len() == 0 {
        Err(Error::NotFound)
    } else {
        match rows[0] {
            (Some(found), Some(updated)) => if found == updated {
                Ok(UpdateAndQueryResult::Updated)
            } else {
                Err(Error::InternalInvariant)
            },
            (Some(found), None) => Ok(UpdateAndQueryResult::NotUpdatedButExists),
            (None, _) => Err(Error::InternalInvariant),
        }
    }
}

/// Classifies the raw result rows of one execution of the compiled statement.
///
/// The equality check between the two keys is logically redundant once the
/// join is correctly constructed — both keys, when present, equal the request
/// key — but is kept as a defensive double check: a mismatch is surfaced
/// loudly as [`Error::InternalInvariant`], never defaulted to a
/// plausible-looking outcome.
pub fn check_result(rows: &Vec<(Option<u128>, Option<u128>)>) -> (r: Result<
    UpdateAndQueryResult,
    Error,
>)
    ensures
        r == interpretation(rows@),
{
    if rows.len() == 0 {
        return Err(Error::NotFound);
    }
    let (found, updated) = rows[0];
    match (found, updated) {
        (Some(f), Some(u)) => {
            if f == u {
                Ok(UpdateAndQueryResult::Updated)
            } else {
                Err(Error::InternalInvariant)
            }
        },
        (Some(_), None) => Ok(UpdateAndQueryResult::NotUpdatedButExists),
        (None, _) => Err(Error::InternalInvariant),
    }
}

/// The rows that one execution of the compiled statement yields, given what
/// the store saw in its single consistent snapshot: whether a row with the
/// key exists (`row_exists`), and whether the caller's update statement
/// matched and so updated that row (`update_applied`).
///
/// `found` selects the key by identity alone, so it holds the key exactly
/// when the row exists; `updated` is the caller's update with the compiler's
/// `RETURNING` clause, so it holds the key exactly when the update reached
/// the row; the left outer join of the two on key equality therefore yields
/// one row when the key exists — the key beside the key again, or beside
/// null — and no row otherwise.
pub open spec fn cte_result_rows(row_exists: bool, update_applied: bool, key: u128) -> Seq<
    (Option<u128>, Option<u128>),
> {
    if !row_exists {
        Seq::empty()
    } else if update_applied {
        seq![(Some(key), Some(key))]
    } else {
        seq![(Some(key), None)]
    }
}

/// For any row satisfying both the identity key and the guard predicate — so
/// the update reached it — interpreting what the statement returns yields
/// `Updated`.
pub proof fn lemma_guard_passed_yields_updated(key: u128)
    ensures
        interpretation(cte_result_rows(true, true, key)) == Ok::<UpdateAndQueryResult, Error>(
            UpdateAndQueryResult::Updated,
        ),
{
}

/// For any row satisfying the identity key but failing the guard predicate —
/// so the update did not reach it — interpreting what the statement returns
/// yields `NotUpdatedButExists`.
pub proof fn lemma_guard_failed_yields_not_updated(key: u128)
    ensures
        interpretation(cte_result_rows(true, false, key)) == Ok::<UpdateAndQueryResult, Error>(
            UpdateAndQueryResult::NotUpdatedButExists,
        ),
{
}

/// For any key matching no row, interpretation yields the not-found error,
/// whether or not the caller's update statement matched other rows.
pub proof fn lemma_missing_row_yields_not_found(update_applied: bool, key: u128)
    ensures
        interpretation(cte_result_rows(false, update_applied, key)) == Err::<
            UpdateAndQueryResult,
            Error,
        >(Error::NotFound),
{
}

/// Idempotence under a monotonic guard: the row exists and passes the guard
/// at a first request, and that update falsifies the guard it passed (as an
/// update does that pushes a counter past the threshold the guard requires it
/// below). The first request is then interpreted as `Updated`, and an
/// immediately repeated one as `NotUpdatedButExists` — never as a second
/// update.
pub proof fn lemma_idempotent_under_monotonic_guard(
    key: u128,
    first_applies: bool,
    second_applies: bool,
)
    requires
        first_applies,
        first_applies ==> !second_applies,
    ensures
        interpretation(cte_result_rows(true, first_applies, key)) == Ok::<
            UpdateAndQueryResult,
            Error,
        >(UpdateAndQueryResult::Updated),
        interpretation(cte_result_rows(true, second_applies, key)) == Ok::<
            UpdateAndQueryResult,
            Error,
        >(UpdateAndQueryResult::NotUpdatedButExists),
{
}

} // verus!
