//! IEEE-754 binary64 numbers, represented by their 64-bit encodings.
//!
//! Verified code never touches a floating-point type.  A runtime number is
//! carried as the `u64` bit pattern of an IEEE-754 double, and the
//! arithmetic itself is performed by `rustc_apfloat`, a software
//! implementation of IEEE-754.  The spec functions below are uninterpreted
//! names for the results of those operations; the wrappers relate each
//! operation to its name.

use rustc_apfloat::Float;
use vstd::prelude::*;

verus! {

/// The encoding of the sum of the doubles encoded by `a` and `b`
/// (round to nearest, ties to even).
pub uninterp spec fn ieee_add(a: u64, b: u64) -> u64;

/// The encoding of the difference of the doubles encoded by `a` and `b`.
pub uninterp spec fn ieee_sub(a: u64, b: u64) -> u64;

/// The encoding of the product of the doubles encoded by `a` and `b`.
pub uninterp spec fn ieee_mul(a: u64, b: u64) -> u64;

/// The encoding of the quotient of the doubles encoded by `a` and `b`.
pub uninterp spec fn ieee_div(a: u64, b: u64) -> u64;

/// The encoding of the remainder (C `fmod`) of the doubles encoded by
/// `a` and `b`.
pub uninterp spec fn ieee_rem(a: u64, b: u64) -> u64;

/// Whether the double encoded by `a` is strictly less than the one
/// encoded by `b` (false whenever either is a NaN).
pub uninterp spec fn ieee_lt(a: u64, b: u64) -> bool;

/// Whether the double encoded by `a` is less than or equal to the one
/// encoded by `b` (false whenever either is a NaN).
pub uninterp spec fn ieee_le(a: u64, b: u64) -> bool;

/// Whether the doubles encoded by `a` and `b` compare equal under
/// IEEE-754 equality (`+0 == -0`; a NaN is equal to nothing).
pub uninterp spec fn ieee_eq(a: u64, b: u64) -> bool;

/// The encoding of the double nearest to the integer `n`.
pub uninterp spec fn ieee_from_count(n: usize) -> u64;

/// The decimal rendering of the double encoded by `b`.
pub uninterp spec fn number_text(b: u64) -> Seq<char>;

/// Relies on the `Add` impl of `rustc_apfloat::ieee::Double`: IEEE-754
/// binary64 addition, round to nearest, ties to even.
#[verifier::external_body]
pub(crate) fn add_numbers(a: u64, b: u64) -> (r: u64)
    ensures
        r == ieee_add(a, b),
{
    (rustc_apfloat::ieee::Double::from_bits(a as u128)
        + rustc_apfloat::ieee::Double::from_bits(b as u128)).value.to_bits() as u64
}

/// Relies on the `Sub` impl of `rustc_apfloat::ieee::Double`: IEEE-754
/// binary64 subtraction, round to nearest, ties to even.
#[verifier::external_body]
pub(crate) fn sub_numbers(a: u64, b: u64) -> (r: u64)
    ensures
        r == ieee_sub(a, b),
{
    (rustc_apfloat::ieee::Double::from_bits(a as u128)
        - rustc_apfloat::ieee::Double::from_bits(b as u128)).value.to_bits() as u64
}

/// Relies on the `Mul` impl of `rustc_apfloat::ieee::Double`: IEEE-754
/// binary64 multiplication, round to nearest, ties to even.
#[verifier::external_body]
pub(crate) fn mul_numbers(a: u64, b: u64) -> (r: u64)
    ensures
        r == ieee_mul(a, b),
{
    (rustc_apfloat::ieee::Double::from_bits(a as u128)
        * rustc_apfloat::ieee::Double::from_bits(b as u128)).value.to_bits() as u64
}

/// Relies on the `Div` impl of `rustc_apfloat::ieee::Double`: IEEE-754
/// binary64 division, round to nearest, ties to even.
#[verifier::external_body]
pub(crate) fn div_numbers(a: u64, b: u64) -> (r: u64)
    ensures
        r == ieee_div(a, b),
{
    (rustc_apfloat::ieee::Double::from_bits(a as u128)
        / rustc_apfloat::ieee::Double::from_bits(b as u128)).value.to_bits() as u64
}

/// Relies on the `Rem` impl of `rustc_apfloat::ieee::Double`, which is
/// C `fmod` (the semantics of Rust's `%` on doubles).
#[verifier::external_body]
pub(crate) fn rem_numbers(a: u64, b: u64) -> (r: u64)
    ensures
        r == ieee_rem(a, b),
{
    (rustc_apfloat::ieee::Double::from_bits(a as u128)
        % rustc_apfloat::ieee::Double::from_bits(b as u128)).value.to_bits() as u64
}

/// Relies on `PartialOrd::lt` for `rustc_apfloat::ieee::Double`: the
/// IEEE-754 `<` predicate, false when either operand is a NaN.
#[verifier::external_body]
pub(crate) fn lt_numbers(a: u64, b: u64) -> (r: bool)
    ensures
        r == ieee_lt(a, b),
{
    rustc_apfloat::ieee::Double::from_bits(a as u128)
        < rustc_apfloat::ieee::Double::from_bits(b as u128)
}

/// Relies on `PartialOrd::le` for `rustc_apfloat::ieee::Double`: the
/// IEEE-754 `<=` predicate, false when either operand is a NaN.
#[verifier::external_body]
pub(crate) fn le_numbers(a: u64, b: u64) -> (r: bool)
    ensures
        r == ieee_le(a, b),
{
    rustc_apfloat::ieee::Double::from_bits(a as u128)
        <= rustc_apfloat::ieee::Double::from_bits(b as u128)
}

/// Relies on `PartialEq::eq` for `rustc_apfloat::ieee::Double`: IEEE-754
/// equality (`+0 == -0`; a NaN is equal to nothing).
#[verifier::external_body]
pub(crate) fn eq_numbers(a: u64, b: u64) -> (r: bool)
    ensures
        r == ieee_eq(a, b),
{
    rustc_apfloat::ieee::Double::from_bits(a as u128)
        == rustc_apfloat::ieee::Double::from_bits(b as u128)
}

/// Relies on `rustc_apfloat::Float::from_u128`: conversion of an
/// unsigned integer to the nearest double.
#[verifier::external_body]
pub(crate) fn number_from_count(n: usize) -> (r: u64)
    ensures
        r == ieee_from_count(n),
{
    rustc_apfloat::ieee::Double::from_u128(n as u128).value.to_bits() as u64
}

/// Relies on the `Display` impl of `rustc_apfloat::ieee::Double`: a
/// decimal rendering of the value without unnecessary trailing zeros.
#[verifier::external_body]
pub(crate) fn number_to_text(b: u64) -> (r: String)
    ensures
        r@ == number_text(b),
{
    rustc_apfloat::ieee::Double::from_bits(b as u128).to_string()
}

} // verus!
