//! Failures of a run. The source of the item graph promises internal
//! consistency (every referenced identifier resolves, every mapped item
//! carries the names it needs); breaking that promise is one tier of
//! failure. Input shapes outside the supported subset are the other tier:
//! expected, recoverable, and distinguished so a caller can report them.

use vstd::prelude::*;
use crate::model::Id;

verus! {

/// Why a run stopped.
#[derive(Debug, Clone, Copy, PartialEq, Eq, Structural)]
pub enum Error {
    /// An identifier referenced by an item's payload is absent from the
    /// item store: the graph broke its internal-consistency contract.
    MissingItem { id: Id },
    /// An item that must carry a name (a struct being mapped, or one of
    /// its fields) has none.
    MissingName { id: Id },
    /// A reference to the optional wrapper carries no generic arguments.
    MissingGenericArgs { id: Id },
    /// A path summary consulted for a forward reference has no segments.
    EmptyPath,
    /// A field's primitive type is outside the supported subset (only the
    /// 8-bit unsigned integer is mapped).
    UnsupportedPrimitive,
    /// The optional wrapper's type argument is not a primitive.
    UnsupportedGenericArg,
    /// A forward reference lands on a path summary whose coarse kind is
    /// not a struct.
    UnsupportedSummaryKind,
    /// A field item is not field-shaped, or its declared type is neither
    /// a primitive nor a resolved-path reference.
    UnsupportedFieldShape,
}

impl Error {
    /// Whether this failure belongs to the internal-consistency tier.
    pub open spec fn spec_is_inconsistency(self) -> bool {
        match self {
            Error::MissingItem { .. } => true,
            Error::MissingName { .. } => true,
            Error::MissingGenericArgs { .. } => true,
            Error::EmptyPath => true,
            Error::UnsupportedPrimitive => false,
            Error::UnsupportedGenericArg => false,
            Error::UnsupportedSummaryKind => false,
            Error::UnsupportedFieldShape => false,
        }
    }

    /// True for a violated internal-consistency assumption (a defect in
    /// the graph's producer); false for an unsupported input shape.
    pub fn is_inconsistency(&self) -> (r: bool)
        ensures
            r == self.spec_is_inconsistency(),
    {
        match self {
            Error::MissingItem { .. } => true,
            Error::MissingName { .. } => true,
            Error::MissingGenericArgs { .. } => true,
            Error::EmptyPath => true,
            Error::UnsupportedPrimitive => false,
            Error::UnsupportedGenericArg => false,
            Error::UnsupportedSummaryKind => false,
            Error::UnsupportedFieldShape => false,
        }
    }
}

} // verus!
