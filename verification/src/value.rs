//! The runtime's values, as far as a slice reads them: whether a value is the
//! none marker, which integer it converts to, how it prints, and how two of
//! them compare.

use crate::error::SliceError;
use crate::integer::{big_clone, big_eq, big_lt, big_to_string, big_value, decimal};
use num_bigint::BigInt;
use vstd::prelude::*;

verus! {

/// A value of the runtime.
#[derive(Debug)]
pub enum Value {
    /// The none marker.
    NoneValue,
    /// An integer of any size.
    Int(BigInt),
    /// Any other value, known here by the text that the runtime prints for
    /// it. It converts to no integer, equals only a value with the same text
    /// and has no order with any value that differs from it.
    Other(String),
}

/// What a [`Value`] stands for.
pub enum ValueView {
    NoneValue,
    Int(int),
    Other(Seq<char>),
}

/// How one bound stands to another.
#[derive(Clone, Copy, Debug, PartialEq, Eq, Structural)]
pub enum FieldOrder {
    Less,
    Greater,
    Tie,
}

impl View for Value {
    type V = ValueView;

    open spec fn view(&self) -> ValueView {
        match self {
            Value::NoneValue => ValueView::NoneValue,
            Value::Int(n) => ValueView::Int(big_value(*n)),
            Value::Other(text) => ValueView::Other(text@),
        }
    }
}

impl ValueView {
    /// The integer that the value converts to: its own where it is one, and
    /// a failure for everything else, the none marker included.
    pub open spec fn index(self) -> Result<int, SliceError> {
        match self {
            ValueView::Int(v) => Ok(v),
            _ => Err(SliceError::TypeConversion),
        }
    }

    /// The text that the runtime prints for the value.
    pub open spec fn repr(self) -> Seq<char> {
        match self {
            ValueView::NoneValue => "None"@,
            ValueView::Int(v) => decimal(v),
            ValueView::Other(text) => text,
        }
    }

    /// How the value stands to `other`: two integers by their size, two equal
    /// values tie, and no other pair has an order.
    pub open spec fn order(self, other: ValueView) -> Result<FieldOrder, SliceError> {
        if self == other {
            Ok(FieldOrder::Tie)
        } else {
            match (self, other) {
                (ValueView::Int(a), ValueView::Int(b)) => if a < b {
                    Ok(FieldOrder::Less)
                } else {
                    Ok(FieldOrder::Greater)
                },
                _ => Err(SliceError::Unorderable),
            }
        }
    }
}

impl Clone for Value {
    fn clone(&self) -> (r: Self)
        ensures
            r@ == self@,
    {
        match self {
            Value::NoneValue => Value::NoneValue,
            Value::Int(n) => Value::Int(big_clone(n)),
            Value::Other(text) => Value::Other(text.clone()),
        }
    }
}

impl Value {
    /// Whether the value is the none marker.
    pub fn is_none(&self) -> (r: bool)
        ensures
            r == (self@ is NoneValue),
    {
        match self {
            Value::NoneValue => true,
            _ => false,
        }
    }

    /// Converts the value to an integer.
    pub fn index(&self) -> (r: Result<BigInt, SliceError>)
        ensures
            match r {
                Ok(n) => self@.index() == Ok::<int, SliceError>(big_value(n)),
                Err(e) => self@.index() == Err::<int, SliceError>(e),
            },
    {
        match self {
            Value::Int(n) => Ok(big_clone(n)),
            _ => Err(SliceError::TypeConversion),
        }
    }

    /// The text that the runtime prints for the value.
    pub fn repr(&self) -> (r: String)
        ensures
            r@ == self@.repr(),
    {
        match self {
            Value::NoneValue => "None".to_owned(),
            Value::Int(n) => big_to_string(n),
            Value::Other(text) => text.clone(),
        }
    }

    /// Whether the two values are equal.
    pub fn identical_or_equal(&self, other: &Value) -> (r: bool)
        ensures
            r == (self@ == other@),
    {
        match self {
            Value::NoneValue => other.is_none(),
            Value::Int(a) => match other {
                Value::Int(b) => big_eq(a, b),
                _ => false,
            },
            Value::Other(a) => match other {
                Value::Other(b) => *a == *b,
                _ => false,
            },
        }
    }

    /// How the value stands to `other`.
    pub fn order(&self, other: &Value) -> (r: Result<FieldOrder, SliceError>)
        ensures
            r == self@.order(other@),
    {
        if self.identical_or_equal(other) {
            Ok(FieldOrder::Tie)
        } else {
            match (self, other) {
                (Value::Int(a), Value::Int(b)) => if big_lt(a, b) {
                    Ok(FieldOrder::Less)
                } else {
                    Ok(FieldOrder::Greater)
                },
                _ => Err(SliceError::Unorderable),
            }
        }
    }
}

} // verus!
