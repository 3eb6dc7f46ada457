//! The positions that a slice selects, as a sequence, and the proof that the
//! exact computation and the one at machine width select the same.

use crate::error::SliceError;
use crate::saturated::{settled, Adjusted, Bounds};
use crate::slice::SliceView;
use crate::value::ValueView;
use vstd::prelude::*;

verus! {

/// The positions of a walk that sets out at `from`, moves by `step`, and ends
/// as soon as it has reached `bound` or passed it. A step of zero goes
/// nowhere.
pub open spec fn walk(from: int, step: int, bound: int) -> Seq<int>
    decreases
            if step > 0 && from < bound {
                bound - from
            } else if step < 0 && from > bound {
                from - bound
            } else {
                0
            },
{
    if (step > 0 && from < bound) || (step < 0 && from > bound) {
        seq![from] + walk(from + step, step, bound)
    } else {
        Seq::empty()
    }
}

/// The positions that an exact `(start, stop, step)` selects.
pub open spec fn exact_positions(indices: (int, int, int)) -> Seq<int> {
    walk(indices.0, indices.2, indices.1)
}

impl Adjusted {
    /// The positions that the range selects: from its low end upwards, or
    /// from its high end downwards, one step at a time while the walk stays
    /// in the range.
    pub open spec fn positions(self) -> Seq<int> {
        if self.backward {
            walk(self.end - 1, -self.magnitude, self.start - 1)
        } else {
            walk(self.start, self.magnitude, self.end)
        }
    }
}

/// A walk whose first step leaves the range holds its first position alone.
proof fn lemma_single_step(from: int, step: int, bound: int)
    requires
        (step > 0 && from < bound && from + step >= bound) || (step < 0 && from > bound && from
            + step <= bound),
    ensures
        walk(from, step, bound) == seq![from],
{
    assert(walk(from + step, step, bound) == Seq::<int>::empty());
    assert(seq![from] + Seq::<int>::empty() =~= seq![from]);
}

/// The two computations agree: where the exact one succeeds on a length that
/// an `isize` can hold, the one at machine width succeeds too, and the range
/// that it adjusts to that length selects exactly the positions of the exact
/// `(start, stop, step)`.
pub proof fn lemma_paths_agree(slice: SliceView, len: usize)
    requires
        len <= isize::MAX,
        slice.indices(len as int) is Ok,
    ensures
        slice.saturated() is Ok,
        slice.saturated()->Ok_0.adjusted(len).positions() == exact_positions(
            slice.indices(len as int)->Ok_0,
        ),
{
    let (start, stop, step) = slice.indices(len as int)->Ok_0;
    let bounds = slice.saturated()->Ok_0;
    let adjusted = bounds.adjusted(len);
    if step > 0 {
        assert(adjusted.start == start);
        if start < stop {
            assert(adjusted.end == stop);
            if step > isize::MAX {
                lemma_single_step(start, step, stop);
                lemma_single_step(start, adjusted.magnitude, stop);
            }
        }
    } else {
        assert(adjusted.start == stop + 1);
        if start > stop {
            assert(adjusted.end == start + 1);
            if -step > isize::MAX {
                lemma_single_step(start, step, stop);
                lemma_single_step(start, -adjusted.magnitude, stop);
            }
        }
    }
}

/// The two computations fail alike: on every slice and every length, either
/// both succeed or both fail for the same reason.
pub proof fn lemma_same_failure(slice: SliceView, len: usize, e: SliceError)
    ensures
        slice.indices(len as int) == Err::<(int, int, int), SliceError>(e) <==> slice.saturated()
            == Err::<Bounds, SliceError>(e),
{
}

/// A step of zero is refused whatever the start and the stop are, be they
/// integers or not, and whatever the length is.
pub proof fn lemma_zero_step_refused(slice: SliceView, length: int)
    requires
        slice.step == ValueView::Int(0),
    ensures
        slice.inner_indices(length) == Err::<(int, int, int), SliceError>(
            SliceError::InvalidArgument,
        ),
        slice.indices(length) == Err::<(int, int, int), SliceError>(SliceError::InvalidArgument),
        slice.saturated() == Err::<Bounds, SliceError>(
            SliceError::InvalidArgument,
        ),
{
}

/// Without a step that a `usize` can hold, the range holds one position at
/// most: the one that the walk begins with, where there is any.
pub proof fn lemma_no_step_one_position(start: usize, end: usize, backward: bool)
    ensures
        settled(start, end, None, backward).1 - settled(start, end, None, backward).0 == if start
            < end {
            1int
        } else {
            0int
        },
        start < end && backward ==> settled(start, end, None, backward).0 == end - 1,
        start < end && !backward ==> settled(start, end, None, backward).0 == start,
{
}

} // verus!
