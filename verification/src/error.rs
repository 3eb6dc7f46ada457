//! The ways in which an operation on a slice value fails.

use vstd::prelude::*;

verus! {

/// Why an operation on a slice value failed. Every failure is final: no
/// partial result comes with it.
#[derive(Clone, Copy, Debug, PartialEq, Eq, Structural)]
pub enum SliceError {
    /// No argument, or too many, for the constructor; a step of zero; a
    /// negative length.
    InvalidArgument,
    /// A bound that is neither none nor convertible to an integer.
    TypeConversion,
    /// Two bounds that differ and have no order between them.
    Unorderable,
    /// A slice value was asked for its hash.
    Unhashable,
}

} // verus!
