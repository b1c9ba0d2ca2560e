//! Builder-time errors: every construction failure is surfaced as a value at
//! build time, never deferred to render time.

use vstd::prelude::*;

verus! {

/// Why a builder refused to finish its value.
#[derive(Clone, Copy, Debug, PartialEq, Eq, Structural)]
pub enum BuildError {
    /// The mandatory name was never set.
    MissingName,
    /// The mandatory predicate list was never set.
    MissingPredicates,
    /// The predicate list was set but holds no predicate.
    EmptyPredicates,
    /// The mandatory root filter was never set.
    MissingRootFilter,
    /// The mandatory block kind was never set.
    MissingQueryType,
    /// The mandatory block list was never set.
    MissingQueryBlocks,
    /// A condition breaks the regular-expression invariant: a regexp
    /// comparison whose right-hand value is not the regexp variant.
    InvalidCondition,
}

} // verus!
