//! Error kinds of the conditional update.

use vstd::prelude::*;

verus! {

/// What can go wrong while wrapping, compiling or executing a conditional
/// update.
#[derive(Clone, Debug, PartialEq, Eq)]
pub enum Error {
    /// The supplied update statement already carries a result-projection
    /// (`RETURNING`) clause. The compiler injects its own, so a pre-existing
    /// one is a configuration error, not a value to overwrite silently.
    Configuration,
    /// The key matched no row: the compiled statement returned no result row.
    NotFound,
    /// A failure surfaced by the backing store during execution (connectivity,
    /// syntax, a violated constraint), passed through unchanged.
    Store(String),
    /// The result row carried two non-null keys that differ, which the join
    /// construction makes impossible. It signals a defect in the compiled
    /// statement, never a normal outcome.
    InternalInvariant,
}

} // verus!
