use num_bigint::BigInt;
use pyslice::ellipsis::PyEllipsis;
use pyslice::error::SliceError;
use pyslice::slice::PySlice;
use pyslice::value::Value;

fn integer(v: i64) -> Value {
    Value::Int(BigInt::from(v))
}

fn is_int(value: &Value, expected: i64) -> bool {
    value.identical_or_equal(&integer(expected))
}

#[test]
fn no_argument_is_refused() {
    assert_eq!(PySlice::slot_new(vec![]).unwrap_err(), SliceError::InvalidArgument);
}

#[test]
fn four_arguments_are_refused() {
    let r = PySlice::slot_new(vec![integer(1), integer(2), integer(3), integer(4)]);
    assert_eq!(r.unwrap_err(), SliceError::InvalidArgument);
}

#[test]
fn one_argument_is_the_stop() {
    let s = PySlice::slot_new(vec![integer(5)]).unwrap();
    assert!(s.start.is_none());
    assert!(s.step.is_none());
    assert!(is_int(&s.stop, 5));
    assert!(s.start().is_none());
    assert!(is_int(&s.stop(), 5));
    assert!(s.step().is_none());
}

#[test]
fn two_arguments_are_start_and_stop() {
    let s = PySlice::slot_new(vec![integer(1), integer(2)]).unwrap();
    assert!(is_int(s.start.as_ref().unwrap(), 1));
    assert!(is_int(&s.stop, 2));
    assert!(s.step.is_none());
    assert!(is_int(s.start_ref(), 1));
    assert!(s.step_ref().is_none());
}

#[test]
fn three_arguments_are_start_stop_and_step() {
    let s = PySlice::slot_new(vec![integer(1), integer(2), integer(3)]).unwrap();
    assert!(is_int(&s.start(), 1));
    assert!(is_int(&s.stop(), 2));
    assert!(is_int(&s.step(), 3));
    assert!(is_int(s.step_ref(), 3));
}

#[test]
fn a_given_none_reads_like_a_bound_left_out() {
    let given = PySlice::slot_new(vec![Value::NoneValue, integer(4), Value::NoneValue]).unwrap();
    let left_out = PySlice::slot_new(vec![integer(4)]).unwrap();
    assert!(given.start.is_some());
    assert!(left_out.start.is_none());
    assert!(given.start().is_none());
    assert!(left_out.start().is_none());
    assert!(given.step().is_none());
    assert_eq!(given.repr(), left_out.repr());
}

#[test]
fn repr_of_a_stop_alone() {
    let s = PySlice::slot_new(vec![integer(5)]).unwrap();
    assert_eq!(s.repr(), "slice(None, 5, None)");
}

#[test]
fn repr_of_three_integers() {
    let s = PySlice::slot_new(vec![integer(1), integer(-20), integer(0)]).unwrap();
    assert_eq!(s.repr(), "slice(1, -20, 0)");
}

#[test]
fn repr_of_a_large_integer() {
    let big = BigInt::from(1u8) << 70usize;
    let s = PySlice::slot_new(vec![Value::Int(-big), integer(100)]).unwrap();
    assert_eq!(s.repr(), "slice(-1180591620717411303424, 100, None)");
}

#[test]
fn repr_of_another_value_is_its_text() {
    let s = PySlice::slot_new(vec![Value::Other("'a'".to_string()), integer(2), integer(3)]).unwrap();
    assert_eq!(s.repr(), "slice('a', 2, 3)");
}

#[test]
fn repr_of_values() {
    assert_eq!(Value::NoneValue.repr(), "None");
    assert_eq!(integer(0).repr(), "0");
    assert_eq!(integer(907).repr(), "907");
    assert_eq!(integer(-10).repr(), "-10");
    assert_eq!(Value::Other("<object>".to_string()).repr(), "<object>");
}

#[test]
fn index_of_values() {
    assert_eq!(integer(12).index().unwrap(), BigInt::from(12));
    assert_eq!(Value::NoneValue.index().unwrap_err(), SliceError::TypeConversion);
    assert_eq!(Value::Other("x".to_string()).index().unwrap_err(), SliceError::TypeConversion);
}

#[test]
fn clone_keeps_the_value() {
    let big = Value::Int(BigInt::from(7) << 80usize);
    assert!(big.clone().identical_or_equal(&big));
    let text = Value::Other("abc".to_string());
    assert!(text.clone().identical_or_equal(&text));
    assert!(Value::NoneValue.clone().is_none());
}

#[test]
fn hash_is_refused() {
    let s = PySlice::slot_new(vec![integer(5)]).unwrap();
    assert_eq!(s.hash().unwrap_err(), SliceError::Unhashable);
    let t = PySlice::slot_new(vec![Value::NoneValue, Value::NoneValue, integer(-1)]).unwrap();
    assert_eq!(t.hash().unwrap_err(), SliceError::Unhashable);
}

#[test]
fn ellipsis_text() {
    let e = PyEllipsis::py_new();
    assert_eq!(e.repr(), "Ellipsis");
    assert_eq!(e.reduce(), "Ellipsis");
    assert_eq!(e, PyEllipsis);
}
