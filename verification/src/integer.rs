//! Arbitrary-precision integers from `num_bigint`, and the conversions between
//! them and machine-width integers, as far as slicing uses them.
//!
//! Nothing in this file is proved: each contract states what the named outside
//! function does, and the rest of the crate is verified against these
//! statements.

use num_bigint::BigInt;
use num_bigint::ToBigInt;
use num_traits::{One, Signed, ToPrimitive, Zero};
use vstd::prelude::*;

verus! {

#[verifier::external_type_specification]
#[verifier::external_body]
pub struct ExBigInt(num_bigint::BigInt);

/// The mathematical integer that a `BigInt` holds.
pub uninterp spec fn big_value(n: BigInt) -> int;

/// `Zero::zero` of `BigInt`: the integer 0.
#[verifier::external_body]
pub(crate) fn big_zero() -> (r: BigInt)
    ensures
        big_value(r) == 0,
{
    Zero::zero()
}

/// `One::one` of `BigInt`: the integer 1.
#[verifier::external_body]
pub(crate) fn big_one() -> (r: BigInt)
    ensures
        big_value(r) == 1,
{
    One::one()
}

/// `ToBigInt::to_bigint` of `i8`: always `Some`, holding the same integer.
#[verifier::external_body]
pub(crate) fn big_from_i8(n: i8) -> (r: Option<BigInt>)
    ensures
        match r {
            Some(b) => big_value(b) == n,
            None => false,
        },
{
    n.to_bigint()
}

/// `Zero::is_zero` of `BigInt`: whether the integer is 0.
#[verifier::external_body]
pub(crate) fn big_is_zero(n: &BigInt) -> (r: bool)
    ensures
        r == (big_value(*n) == 0),
{
    n.is_zero()
}

/// `Signed::is_negative` of `BigInt`: whether the integer is below 0.
#[verifier::external_body]
pub(crate) fn big_is_negative(n: &BigInt) -> (r: bool)
    ensures
        r == (big_value(*n) < 0),
{
    n.is_negative()
}

/// `Clone::clone` of `BigInt`: a second value holding the same integer.
#[verifier::external_body]
pub(crate) fn big_clone(n: &BigInt) -> (r: BigInt)
    ensures
        big_value(r) == big_value(*n),
{
    n.clone()
}

/// `BigInt + &BigInt`: the sum.
#[verifier::external_body]
pub(crate) fn big_add(a: BigInt, b: &BigInt) -> (r: BigInt)
    ensures
        big_value(r) == big_value(a) + big_value(*b),
{
    a + b
}

/// `BigInt += &BigInt`: the left side becomes the sum.
#[verifier::external_body]
pub(crate) fn big_add_assign(a: &mut BigInt, b: &BigInt)
    ensures
        big_value(*final(a)) == big_value(*old(a)) + big_value(*b),
{
    *a += b;
}

/// `PartialEq::eq` of `BigInt`: whether both hold the same integer.
#[verifier::external_body]
pub(crate) fn big_eq(a: &BigInt, b: &BigInt) -> (r: bool)
    ensures
        r == (big_value(*a) == big_value(*b)),
{
    a == b
}

/// `PartialOrd::lt` of `BigInt`: the order of the integers.
#[verifier::external_body]
pub(crate) fn big_lt(a: &BigInt, b: &BigInt) -> (r: bool)
    ensures
        r == (big_value(*a) < big_value(*b)),
{
    a < b
}

/// `PartialOrd::gt` of `BigInt`: the order of the integers.
#[verifier::external_body]
pub(crate) fn big_gt(a: &BigInt, b: &BigInt) -> (r: bool)
    ensures
        r == (big_value(*a) > big_value(*b)),
{
    a > b
}

/// `ToPrimitive::to_isize` of `BigInt`: the same integer where an `isize` can
/// hold it, `None` where it cannot.
#[verifier::external_body]
pub(crate) fn big_to_isize(n: &BigInt) -> (r: Option<isize>)
    ensures
        match r {
            Some(v) => v == big_value(*n),
            None => big_value(*n) < isize::MIN || big_value(*n) > isize::MAX,
        },
{
    n.to_isize()
}

/// `ToString::to_string` of `BigInt`: the integer in decimal, with a leading
/// minus sign below 0.
#[verifier::external_body]
pub(crate) fn big_to_string(n: &BigInt) -> (r: String)
    ensures
        r@ == decimal(big_value(*n)),
{
    n.to_string()
}

/// `ToPrimitive::to_isize` of `usize`: the same integer where an `isize` can
/// hold it, `None` above `isize::MAX`.
#[verifier::external_body]
pub(crate) fn usize_to_isize(n: usize) -> (r: Option<isize>)
    ensures
        match r {
            Some(v) => v == n,
            None => n > isize::MAX,
        },
{
    n.to_isize()
}

/// `ToPrimitive::to_usize` of `isize`: the same integer where it is not
/// negative, `None` below 0.
#[verifier::external_body]
pub(crate) fn isize_to_usize(n: isize) -> (r: Option<usize>)
    ensures
        match r {
            Some(v) => v == n,
            None => n < 0,
        },
{
    n.to_usize()
}

/// `isize::saturating_add`: the sum, held to the nearer end of the range of
/// `isize` where it would leave it.
pub assume_specification[ isize::saturating_add ](a: isize, b: isize) -> (r: isize)
    ensures
        r == saturated(a + b),
;

/// `isize::saturating_abs`: the absolute value, and `isize::MAX` for
/// `isize::MIN`.
pub assume_specification[ isize::saturating_abs ](a: isize) -> (r: isize)
    ensures
        r == saturated(if a < 0 { -a } else { a as int }),
;

/// `isize::is_negative`: whether the integer is below 0.
pub assume_specification[ isize::is_negative ](a: isize) -> (r: bool)
    ensures
        r == (a < 0),
;

/// The `isize` nearest to `v`.
pub open spec fn saturated(v: int) -> isize {
    if v < isize::MIN {
        isize::MIN
    } else if v > isize::MAX {
        isize::MAX
    } else {
        v as isize
    }
}

/// The character of one decimal digit.
pub open spec fn digit(d: nat) -> char {
    seq!['0', '1', '2', '3', '4', '5', '6', '7', '8', '9'][d as int]
}

/// A natural number in decimal, without leading zeros.
pub open spec fn decimal_digits(n: nat) -> Seq<char>
    decreases n,
{
    if n < 10 {
        seq![digit(n)]
    } else {
        decimal_digits(n / 10).push(digit(n % 10))
    }
}

/// An integer in decimal, with a leading minus sign below 0.
pub open spec fn decimal(v: int) -> Seq<char> {
    if v < 0 {
        seq!['-'] + decimal_digits((-v) as nat)
    } else {
        decimal_digits(v as nat)
    }
}

} // verus!
