//! Slice values and the arithmetic that turns their three loosely typed
//! bounds into concrete positions of a sequence.
//!
//! A slice value holds a start, a stop and a step. Two computations turn it
//! into positions once the length of a sequence is known: an exact one over
//! integers of any size ([`slice::PySlice::indices`]), and one at machine
//! width in two steps ([`saturated::SaturatedSlice::with_slice`], then
//! [`saturated::SaturatedSlice::adjust_indices`]), of which only the second
//! step looks at the length. [`walk::lemma_paths_agree`] shows that both
//! select the same positions.

pub mod ellipsis;
pub mod error;
pub mod integer;
pub mod saturated;
pub mod slice;
pub mod value;
pub mod walk;
