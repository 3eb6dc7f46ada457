//! The slice value: three bounds, each of which may be left out, and the exact
//! computation of the positions that they select in a sequence of a given
//! length.

use crate::error::SliceError;
use crate::integer::{
    big_add, big_add_assign, big_clone, big_from_i8, big_gt, big_is_negative, big_is_zero, big_lt,
    big_one, big_value, big_zero,
};
use crate::saturated::{Bounds, SaturatedSlice};
use crate::value::{FieldOrder, Value, ValueView};
use num_bigint::BigInt;
use vstd::prelude::*;

verus! {

/// A slice value. `start` and `step` are `None` where the constructor was not
/// given them; to a reader of the slice that is the same as the none marker.
#[derive(Debug)]
pub struct PySlice {
    pub start: Option<Value>,
    pub stop: Value,
    pub step: Option<Value>,
}

/// What a [`PySlice`] shows to its readers: a value for each bound, the none
/// marker where the bound was left out.
pub struct SliceView {
    pub start: ValueView,
    pub stop: ValueView,
    pub step: ValueView,
}

/// The value that a reader sees for a bound.
pub open spec fn shown(bound: Option<Value>) -> ValueView {
    match bound {
        Some(value) => value@,
        None => ValueView::NoneValue,
    }
}

impl View for PySlice {
    type V = SliceView;

    open spec fn view(&self) -> SliceView {
        SliceView { start: shown(self.start), stop: self.stop@, step: shown(self.step) }
    }
}

/// The integer of a bound: `None` for the none marker, and a failure for a
/// value that converts to no integer.
pub open spec fn bound_integer(bound: ValueView) -> Result<Option<int>, SliceError> {
    match bound {
        ValueView::NoneValue => Ok(None),
        ValueView::Int(v) => Ok(Some(v)),
        ValueView::Other(_) => Err(SliceError::TypeConversion),
    }
}

/// The lowest coordinate that a walk with this step can stand on: 0, and one
/// before it where the walk runs backwards.
pub open spec fn lower_end(step: int) -> int {
    if step < 0 {
        -1
    } else {
        0
    }
}

/// The highest coordinate that a walk with this step can stand on.
pub open spec fn upper_end(step: int, length: int) -> int {
    lower_end(step) + length
}

/// A given bound brought into the coordinates of a sequence: counted from the
/// end where it is negative, and held between the two ends.
pub open spec fn placed(bound: int, step: int, length: int) -> int {
    if bound < 0 {
        if bound + length < lower_end(step) {
            lower_end(step)
        } else {
            bound + length
        }
    } else if bound > upper_end(step, length) {
        upper_end(step, length)
    } else {
        bound
    }
}

/// Where the walk begins: the end that it leaves from where no start is
/// given.
pub open spec fn exact_start(start: Option<int>, step: int, length: int) -> int {
    match start {
        Some(bound) => placed(bound, step, length),
        None => if step < 0 {
            upper_end(step, length)
        } else {
            lower_end(step)
        },
    }
}

/// Where the walk ends: the end that it runs towards where no stop is given.
pub open spec fn exact_stop(stop: Option<int>, step: int, length: int) -> int {
    match stop {
        Some(bound) => placed(bound, step, length),
        None => if step < 0 {
            lower_end(step)
        } else {
            upper_end(step, length)
        },
    }
}

impl SliceView {
    /// The exact `(start, stop, step)` for a sequence of `length` items. The
    /// step is read first, then the start, then the stop, and the first that
    /// fails decides the failure.
    pub open spec fn inner_indices(self, length: int) -> Result<(int, int, int), SliceError> {
        match bound_integer(self.step) {
            Err(e) => Err(e),
            Ok(Some(step)) if step == 0 => Err(SliceError::InvalidArgument),
            Ok(given) => {
                let step = match given {
                    Some(step) => step,
                    None => 1,
                };
                match bound_integer(self.start) {
                    Err(e) => Err(e),
                    Ok(start) => match bound_integer(self.stop) {
                        Err(e) => Err(e),
                        Ok(stop) => Ok(
                            (
                                exact_start(start, step, length),
                                exact_stop(stop, step, length),
                                step,
                            ),
                        ),
                    },
                }
            },
        }
    }

    /// As [`Self::inner_indices`], but a negative length is refused first.
    pub open spec fn indices(self, length: int) -> Result<(int, int, int), SliceError> {
        if length < 0 {
            Err(SliceError::InvalidArgument)
        } else {
            self.inner_indices(length)
        }
    }
}

/// One of the six comparisons between two slice values.
#[derive(Clone, Copy, Debug, PartialEq, Eq, Structural)]
pub enum PyComparisonOp {
    Lt,
    Le,
    Eq,
    Ne,
    Gt,
    Ge,
}

impl SliceView {
    /// How the slice stands to `other`, going by the start, then the stop,
    /// then the step: the first pair that does not tie decides, be it by an
    /// order or by a failure.
    pub open spec fn order(self, other: SliceView) -> Result<FieldOrder, SliceError> {
        match self.start.order(other.start) {
            Ok(FieldOrder::Tie) => match self.stop.order(other.stop) {
                Ok(FieldOrder::Tie) => self.step.order(other.step),
                decided => decided,
            },
            decided => decided,
        }
    }

    /// The outcome of a comparison. Equality never fails; the four others
    /// fail where [`Self::order`] does, and a tie of all three bounds
    /// satisfies `Le` and `Ge` only.
    pub open spec fn compare(self, other: SliceView, op: PyComparisonOp) -> Result<
        bool,
        SliceError,
    > {
        match op {
            PyComparisonOp::Eq => Ok(self == other),
            PyComparisonOp::Ne => Ok(self != other),
            _ => match self.order(other) {
                Err(e) => Err(e),
                Ok(order) => Ok(
                    match op {
                        PyComparisonOp::Lt => order is Less,
                        PyComparisonOp::Le => !(order is Greater),
                        PyComparisonOp::Gt => order is Greater,
                        _ => !(order is Less),
                    },
                ),
            },
        }
    }
}

/// The slice that the constructor makes of one, two or three arguments.
pub open spec fn constructed(args: Seq<Value>) -> PySlice {
    if args.len() == 1 {
        PySlice { start: None, stop: args[0], step: None }
    } else {
        PySlice {
            start: Some(args[0]),
            stop: args[1],
            step: if args.len() == 3 {
                Some(args[2])
            } else {
                None
            },
        }
    }
}

/// The text of a slice whose bounds print as `start`, `stop` and `step`.
pub open spec fn slice_repr(start: Seq<char>, stop: Seq<char>, step: Seq<char>) -> Seq<char> {
    "slice("@ + start + ", "@ + stop + ", "@ + step + ")"@
}

/// `String::push_str`: `more` is appended to `text`.
#[verifier::external_body]
fn push_str(text: &mut String, more: &str)
    ensures
        final(text)@ == old(text)@ + more@,
{
    text.push_str(more);
}

/// The integers of a triple of `BigInt`.
pub open spec fn triple_value(t: (BigInt, BigInt, BigInt)) -> (int, int, int) {
    (big_value(t.0), big_value(t.1), big_value(t.2))
}

/// Brings a given bound into the coordinates between `lower` and `upper`.
fn place(bound: BigInt, length: &BigInt, lower: &BigInt, upper: &BigInt) -> (r: BigInt)
    ensures
        big_value(r) == if big_value(bound) < 0 {
            if big_value(bound) + big_value(*length) < big_value(*lower) {
                big_value(*lower)
            } else {
                big_value(bound) + big_value(*length)
            }
        } else if big_value(bound) > big_value(*upper) {
            big_value(*upper)
        } else {
            big_value(bound)
        },
{
    let mut bound = bound;
    let zero = big_zero();
    if big_lt(&bound, &zero) {
        big_add_assign(&mut bound, length);
        if big_lt(&bound, lower) {
            bound = big_clone(lower);
        }
    } else if big_gt(&bound, upper) {
        bound = big_clone(upper);
    }
    bound
}

impl PySlice {
    /// Makes a slice of one to three arguments: one is the stop; two are the
    /// start and the stop; the third is the step.
    pub fn slot_new(args: Vec<Value>) -> (r: Result<PySlice, SliceError>)
        ensures
            match r {
                Ok(slice) => 1 <= args@.len() <= 3 && slice == constructed(args@),
                Err(e) => e == SliceError::InvalidArgument && !(1 <= args@.len() <= 3),
            },
    {
        let mut args = args;
        match args.len() {
            1 => {
                let stop = args.pop().unwrap();
                Ok(PySlice { start: None, stop, step: None })
            },
            2 => {
                let stop = args.pop().unwrap();
                let start = args.pop().unwrap();
                Ok(PySlice { start: Some(start), stop, step: None })
            },
            3 => {
                let step = args.pop().unwrap();
                let stop = args.pop().unwrap();
                let start = args.pop().unwrap();
                Ok(PySlice { start: Some(start), stop, step: Some(step) })
            },
            _ => Err(SliceError::InvalidArgument),
        }
    }

    /// The start as a reader sees it.
    pub fn start(&self) -> (r: Value)
        ensures
            r@ == self@.start,
    {
        match &self.start {
            Some(value) => value.clone(),
            None => Value::NoneValue,
        }
    }

    /// The start as a reader sees it, without a copy.
    pub fn start_ref(&self) -> (r: &Value)
        ensures
            r@ == self@.start,
    {
        match &self.start {
            Some(value) => value,
            None => &Value::NoneValue,
        }
    }

    /// The stop.
    pub fn stop(&self) -> (r: Value)
        ensures
            r@ == self@.stop,
    {
        self.stop.clone()
    }

    /// The step as a reader sees it.
    pub fn step(&self) -> (r: Value)
        ensures
            r@ == self@.step,
    {
        match &self.step {
            Some(value) => value.clone(),
            None => Value::NoneValue,
        }
    }

    /// The step as a reader sees it, without a copy.
    pub fn step_ref(&self) -> (r: &Value)
        ensures
            r@ == self@.step,
    {
        match &self.step {
            Some(value) => value,
            None => &Value::NoneValue,
        }
    }

    /// The text of the slice: the texts of its three bounds as the reader
    /// sees them, in the form `slice(start, stop, step)`.
    pub fn repr(&self) -> (r: String)
        ensures
            r@ == slice_repr(self@.start.repr(), self@.stop.repr(), self@.step.repr()),
    {
        let start_repr = self.start_ref().repr();
        let stop_repr = self.stop.repr();
        let step_repr = self.step_ref().repr();

        let mut text = "slice(".to_owned();
        push_str(&mut text, start_repr.as_str());
        push_str(&mut text, ", ");
        push_str(&mut text, stop_repr.as_str());
        push_str(&mut text, ", ");
        push_str(&mut text, step_repr.as_str());
        push_str(&mut text, ")");
        text
    }

    /// Resolves the bounds to machine width; see
    /// [`SaturatedSlice::with_slice`].
    pub fn to_saturated(&self) -> (r: Result<SaturatedSlice, SliceError>)
        ensures
            match r {
                Ok(s) => self@.saturated() == Ok::<Bounds, SliceError>(s@) && s.wf(),
                Err(e) => self@.saturated() == Err::<Bounds, SliceError>(e),
            },
    {
        SaturatedSlice::with_slice(self)
    }

    /// How the slice stands to `other`, bound by bound.
    pub fn order(&self, other: &PySlice) -> (r: Result<FieldOrder, SliceError>)
        ensures
            r == self@.order(other@),
    {
        match self.start_ref().order(other.start_ref()) {
            Ok(FieldOrder::Tie) => {},
            decided => {
                return decided;
            },
        }
        match self.stop.order(&other.stop) {
            Ok(FieldOrder::Tie) => {},
            decided => {
                return decided;
            },
        }
        self.step_ref().order(other.step_ref())
    }

    /// Compares the slice with `other`.
    pub fn cmp(&self, other: &PySlice, op: PyComparisonOp) -> (r: Result<bool, SliceError>)
        ensures
            r == self@.compare(other@, op),
    {
        match op {
            PyComparisonOp::Lt | PyComparisonOp::Le => match self.order(other) {
                Ok(FieldOrder::Less) => Ok(true),
                Ok(FieldOrder::Greater) => Ok(false),
                Ok(FieldOrder::Tie) => Ok(op == PyComparisonOp::Le),
                Err(e) => Err(e),
            },
            PyComparisonOp::Eq | PyComparisonOp::Ne => {
                let eq = self.start_ref().identical_or_equal(other.start_ref())
                    && self.stop.identical_or_equal(&other.stop)
                    && self.step_ref().identical_or_equal(other.step_ref());
                if op == PyComparisonOp::Ne {
                    Ok(!eq)
                } else {
                    Ok(eq)
                }
            },
            PyComparisonOp::Gt | PyComparisonOp::Ge => match self.order(other) {
                Ok(FieldOrder::Greater) => Ok(true),
                Ok(FieldOrder::Less) => Ok(false),
                Ok(FieldOrder::Tie) => Ok(op == PyComparisonOp::Ge),
                Err(e) => Err(e),
            },
        }
    }

    /// A slice value has no hash: the call fails, whatever the slice.
    pub fn hash(&self) -> (r: Result<i64, SliceError>)
        ensures
            r == Err::<i64, SliceError>(SliceError::Unhashable),
    {
        Err(SliceError::Unhashable)
    }

    /// The exact `(start, stop, step)` that the slice selects in a sequence
    /// of `length` items.
    pub fn inner_indices(&self, length: &BigInt) -> (r: Result<(BigInt, BigInt, BigInt), SliceError>)
        ensures
            match r {
                Ok(t) => self@.inner_indices(big_value(*length)) == Ok::<
                    (int, int, int),
                    SliceError,
                >(triple_value(t)),
                Err(e) => self@.inner_indices(big_value(*length)) == Err::<
                    (int, int, int),
                    SliceError,
                >(e),
            },
    {
        let step_value = self.step_ref();
        let step = if step_value.is_none() {
            big_one()
        } else {
            let step = match step_value.index() {
                Ok(step) => step,
                Err(e) => {
                    return Err(e);
                },
            };
            if big_is_zero(&step) {
                return Err(SliceError::InvalidArgument);
            }
            step
        };

        let backwards = big_is_negative(&step);

        let lower = if backwards {
            big_from_i8(-1).unwrap()
        } else {
            big_zero()
        };
        let upper = if backwards {
            big_add(big_clone(&lower), length)
        } else {
            big_clone(length)
        };

        let start_value = self.start_ref();
        let start = if start_value.is_none() {
            if backwards {
                big_clone(&upper)
            } else {
                big_clone(&lower)
            }
        } else {
            match start_value.index() {
                Ok(start) => place(start, length, &lower, &upper),
                Err(e) => {
                    return Err(e);
                },
            }
        };

        let stop = if self.stop.is_none() {
            if backwards {
                lower
            } else {
                upper
            }
        } else {
            match self.stop.index() {
                Ok(stop) => place(stop, length, &lower, &upper),
                Err(e) => {
                    return Err(e);
                },
            }
        };

        Ok((start, stop, step))
    }

    /// The exact `(start, stop, step)` that the slice selects in a sequence
    /// of `length` items; a negative length is refused.
    pub fn indices(&self, length: &BigInt) -> (r: Result<(BigInt, BigInt, BigInt), SliceError>)
        ensures
            match r {
                Ok(t) => self@.indices(big_value(*length)) == Ok::<(int, int, int), SliceError>(
                    triple_value(t),
                ),
                Err(e) => self@.indices(big_value(*length)) == Err::<(int, int, int), SliceError>(
                    e,
                ),
            },
    {
        if big_is_negative(length) {
            return Err(SliceError::InvalidArgument);
        }
        self.inner_indices(length)
    }
}

} // verus!
