//! Slicing at machine width, in two steps: a slice value is first resolved to
//! three `isize` bounds, which asks nothing of any sequence, and the bounds are
//! then adjusted to the length of the sequence at hand.

use crate::error::SliceError;
use crate::integer::{
    big_is_negative, big_to_isize, isize_to_usize, saturated, usize_to_isize,
};
use crate::slice::{bound_integer, PySlice, SliceView};
use crate::value::{Value, ValueView};
use std::ops::Range;
use vstd::prelude::*;

verus! {

/// The bounds of a slice, each held to the range of `isize`, with the
/// defaults filled in and a step that is not zero.
#[derive(Copy, Clone, Debug)]
pub struct SaturatedSlice {
    start: isize,
    stop: isize,
    step: isize,
}

/// The three bounds of a [`SaturatedSlice`].
pub struct Bounds {
    pub start: isize,
    pub stop: isize,
    pub step: isize,
}

impl View for SaturatedSlice {
    type V = Bounds;

    closed spec fn view(&self) -> Bounds {
        Bounds { start: self.start, stop: self.stop, step: self.step }
    }
}

/// The `isize` of a bound: `None` for the none marker, the nearest `isize`
/// for an integer, and a failure for a value that converts to no integer.
pub open spec fn saturated_bound(bound: ValueView) -> Result<Option<isize>, SliceError> {
    match bound_integer(bound) {
        Err(e) => Err(e),
        Ok(None) => Ok(None),
        Ok(Some(v)) => Ok(Some(saturated(v))),
    }
}

/// The start of a walk with this step where none is given.
pub open spec fn default_start(step: isize) -> isize {
    if step < 0 {
        isize::MAX
    } else {
        0
    }
}

/// The stop of a walk with this step where none is given.
pub open spec fn default_stop(step: isize) -> isize {
    if step < 0 {
        isize::MIN
    } else {
        isize::MAX
    }
}

impl SliceView {
    /// The bounds at machine width. The step is read first, then the start,
    /// then the stop, and the first that fails decides the failure.
    pub open spec fn saturated(self) -> Result<Bounds, SliceError> {
        match saturated_bound(self.step) {
            Err(e) => Err(e),
            Ok(Some(step)) if step == 0 => Err(SliceError::InvalidArgument),
            Ok(given) => {
                let step = match given {
                    Some(step) => step,
                    None => 1,
                };
                match saturated_bound(self.start) {
                    Err(e) => Err(e),
                    Ok(start) => match saturated_bound(self.stop) {
                        Err(e) => Err(e),
                        Ok(stop) => Ok(
                            Bounds {
                                start: match start {
                                    Some(start) => start,
                                    None => default_start(step),
                                },
                                stop: match stop {
                                    Some(stop) => stop,
                                    None => default_stop(step),
                                },
                                step,
                            },
                        ),
                    },
                }
            },
        }
    }
}

/// A length as the arithmetic on `isize` sees it: itself, and `isize::MAX`
/// where it is larger.
pub open spec fn signed_length(len: usize) -> isize {
    saturated(len as int)
}

/// A position brought into `0..=len`: counted from the end where it is
/// negative, then held to the two ends.
pub open spec fn clamped(p: isize, len: usize) -> int {
    let from_front = if p >= 0 {
        p as int
    } else if p + signed_length(len) < 0 {
        0
    } else {
        p + signed_length(len)
    };
    if from_front > signed_length(len) {
        signed_length(len) as int
    } else {
        from_front
    }
}

/// One more than `p`, or the place of the last item where `p` is the -1 that
/// stands for it. This turns the bound that a backward walk leaves from, or
/// runs towards, into the matching end of a forward range.
pub open spec fn shifted(p: isize, last: isize) -> isize {
    if p == -1 {
        last
    } else {
        saturated(p + 1)
    }
}

/// What [`SaturatedSlice::adjust_indices`] hands out.
pub struct Adjusted {
    /// The first position of the range.
    pub start: int,
    /// One past the last position of the range.
    pub end: int,
    /// The distance between two positions of the walk.
    pub magnitude: int,
    /// Whether the walk runs from the high end of the range downwards.
    pub backward: bool,
}

impl Bounds {
    /// The lower end of the forward range, before it is held to the length.
    pub open spec fn low(self, len: usize) -> isize {
        if self.step < 0 {
            shifted(self.stop, saturated(signed_length(len) + 1))
        } else {
            self.start
        }
    }

    /// The upper end of the forward range, before it is held to the length.
    pub open spec fn high(self, len: usize) -> isize {
        if self.step < 0 {
            shifted(self.start, signed_length(len))
        } else {
            self.stop
        }
    }

    /// The size of the step.
    pub open spec fn magnitude(self) -> isize {
        saturated(
            if self.step < 0 {
                -self.step
            } else {
                self.step as int
            },
        )
    }

    /// The range and the walk for a sequence of `len` items.
    pub open spec fn adjusted(self, len: usize) -> Adjusted {
        let start = clamped(self.low(len), len);
        let end = clamped(self.high(len), len);
        Adjusted {
            start,
            end: if start >= end {
                start
            } else {
                end
            },
            magnitude: self.magnitude() as int,
            backward: self.step < 0,
        }
    }
}

/// The range between two positions, empty where they are out of order. Where
/// the walk has no step that a `usize` can hold, a range that is not empty
/// is cut down to the one position that the walk begins with.
pub open spec fn settled(start: usize, end: usize, step: Option<usize>, backward: bool) -> (
    int,
    int,
) {
    if start >= end {
        (start as int, start as int)
    } else if step is Some {
        (start as int, end as int)
    } else if backward {
        (end - 1, end as int)
    } else {
        (start as int, start + 1)
    }
}

/// Holds `p` to `0..=len`, counting a negative `p` from the end.
pub fn saturate_index(p: isize, len: usize) -> (r: usize)
    ensures
        r == clamped(p, len),
        0 <= r <= len,
{
    let len = usize_to_isize(len).unwrap_or(isize::MAX);
    let mut p = p;
    if p < 0 {
        p += len;
        if p < 0 {
            p = 0;
        }
    }
    if p > len {
        p = len;
    }
    p as usize
}

/// Converts a bound to an `isize`: `None` for the none marker, and the
/// nearest end of the range for an integer outside it.
pub fn to_isize_index(obj: &Value) -> (r: Result<Option<isize>, SliceError>)
    ensures
        r == saturated_bound(obj@),
{
    if obj.is_none() {
        return Ok(None);
    }
    let value = match obj.index() {
        Ok(value) => value,
        Err(e) => {
            return Err(e);
        },
    };
    let is_negative = big_is_negative(&value);
    Ok(
        Some(
            big_to_isize(&value).unwrap_or(
                if is_negative {
                    isize::MIN
                } else {
                    isize::MAX
                },
            ),
        ),
    )
}

/// Builds the range between two positions; see [`settled`].
pub fn settle_range(start: usize, end: usize, step: Option<usize>, backward: bool) -> (r: Range<
    usize,
>)
    ensures
        (r.start as int, r.end as int) == settled(start, end, step, backward),
        step is None ==> r.end - r.start <= 1,
{
    if start >= end {
        start..start
    } else if step.is_none() {
        if backward {
            (end - 1)..end
        } else {
            start..(start + 1)
        }
    } else {
        start..end
    }
}

impl SaturatedSlice {
    /// Whether the step is other than zero, as it is in every value that
    /// [`Self::with_slice`] hands out.
    pub open spec fn wf(&self) -> bool {
        self@.step != 0
    }

    /// Resolves the bounds of a slice value. No sequence is looked at.
    pub fn with_slice(slice: &PySlice) -> (r: Result<Self, SliceError>)
        ensures
            match r {
                Ok(s) => slice@.saturated() == Ok::<Bounds, SliceError>(s@) && s.wf(),
                Err(e) => slice@.saturated() == Err::<Bounds, SliceError>(e),
            },
    {
        let step = match to_isize_index(slice.step_ref()) {
            Ok(Some(step)) => step,
            Ok(None) => 1,
            Err(e) => {
                return Err(e);
            },
        };
        if step == 0 {
            return Err(SliceError::InvalidArgument);
        }
        let start = match to_isize_index(slice.start_ref()) {
            Ok(Some(start)) => start,
            Ok(None) => if step.is_negative() {
                isize::MAX
            } else {
                0
            },
            Err(e) => {
                return Err(e);
            },
        };
        let stop = match to_isize_index(&slice.stop) {
            Ok(Some(stop)) => stop,
            Ok(None) => if step.is_negative() {
                isize::MIN
            } else {
                isize::MAX
            },
            Err(e) => {
                return Err(e);
            },
        };
        Ok(Self { start, stop, step })
    }

    /// Adjusts the bounds to a sequence of `len` items: the range of
    /// positions, the size of the step, and whether the walk runs backwards.
    pub fn adjust_indices(&self, len: usize) -> (r: (Range<usize>, Option<usize>, bool))
        ensures
            r.0.start == self@.adjusted(len).start,
            r.0.end == self@.adjusted(len).end,
            r.1 == Some(self@.adjusted(len).magnitude as usize),
            r.2 == self@.adjusted(len).backward,
    {
        let ilen = usize_to_isize(len).unwrap_or(isize::MAX);
        let (start, stop, step) = (self.start, self.stop, self.step);
        let (start, stop, step, is_negative_step) = if step.is_negative() {
            (
                if stop == -1 {
                    ilen.saturating_add(1)
                } else {
                    stop.saturating_add(1)
                },
                if start == -1 {
                    ilen
                } else {
                    start.saturating_add(1)
                },
                step.saturating_abs(),
                true,
            )
        } else {
            (start, stop, step, false)
        };

        let step = isize_to_usize(step);

        let range = settle_range(
            saturate_index(start, len),
            saturate_index(stop, len),
            step,
            is_negative_step,
        );
        (range, step, is_negative_step)
    }
}

} // verus!
