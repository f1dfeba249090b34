//! Arithmetic and comparison on runtime numbers.
//!
//! Numbers are carried as the bit pattern of an IEEE 754 double
//! (a `u64`), so that the rest of the library can state its contracts
//! over plain values. The operations themselves are performed by
//! `rustc_apfloat`'s software implementation of IEEE 754 binary64
//! arithmetic; each operation's result is a pure function of the
//! operand bits, named here by an uninterpreted spec function.

use vstd::prelude::*;

use rustc_apfloat::Float;
use rustc_apfloat::ieee::Double;

verus! {

pub uninterp spec fn add_bits(a: u64, b: u64) -> u64;

pub uninterp spec fn sub_bits(a: u64, b: u64) -> u64;

pub uninterp spec fn mul_bits(a: u64, b: u64) -> u64;

pub uninterp spec fn div_bits(a: u64, b: u64) -> u64;

pub uninterp spec fn neg_bits(a: u64) -> u64;

pub uninterp spec fn lt_bits(a: u64, b: u64) -> bool;

pub uninterp spec fn gt_bits(a: u64, b: u64) -> bool;

pub uninterp spec fn eq_bits(a: u64, b: u64) -> bool;

/// Relies on `rustc_apfloat::ieee::Double`'s `Add` (round to nearest,
/// ties to even): IEEE 754 addition of the two operand bit patterns.
#[verifier::external_body]
pub fn num_add(a: u64, b: u64) -> (r: u64)
    ensures
        r == add_bits(a, b),
{
    let x = Double::from_bits(a as u128);
    let y = Double::from_bits(b as u128);
    Float::to_bits((x + y).value) as u64
}

/// Relies on `rustc_apfloat::ieee::Double`'s `Sub`: IEEE 754 subtraction.
#[verifier::external_body]
pub fn num_sub(a: u64, b: u64) -> (r: u64)
    ensures
        r == sub_bits(a, b),
{
    let x = Double::from_bits(a as u128);
    let y = Double::from_bits(b as u128);
    Float::to_bits((x - y).value) as u64
}

/// Relies on `rustc_apfloat::ieee::Double`'s `Mul`: IEEE 754 multiplication.
#[verifier::external_body]
pub fn num_mul(a: u64, b: u64) -> (r: u64)
    ensures
        r == mul_bits(a, b),
{
    let x = Double::from_bits(a as u128);
    let y = Double::from_bits(b as u128);
    Float::to_bits((x * y).value) as u64
}

/// Relies on `rustc_apfloat::ieee::Double`'s `Div`: IEEE 754 division,
/// so division by zero yields an infinity or NaN, never a fault.
#[verifier::external_body]
pub fn num_div(a: u64, b: u64) -> (r: u64)
    ensures
        r == div_bits(a, b),
{
    let x = Double::from_bits(a as u128);
    let y = Double::from_bits(b as u128);
    Float::to_bits((x / y).value) as u64
}

/// Relies on `rustc_apfloat::ieee::Double`'s `Neg`: IEEE 754 negation
/// (the sign bit is flipped).
#[verifier::external_body]
pub fn num_neg(a: u64) -> (r: u64)
    ensures
        r == neg_bits(a),
{
    let x = Double::from_bits(a as u128);
    Float::to_bits(-x) as u64
}

/// Relies on `rustc_apfloat::ieee::Double`'s `PartialOrd::lt`: the IEEE 754
/// "less than" predicate, false whenever either operand is NaN.
#[verifier::external_body]
pub fn num_lt(a: u64, b: u64) -> (r: bool)
    ensures
        r == lt_bits(a, b),
{
    let x = Double::from_bits(a as u128);
    let y = Double::from_bits(b as u128);
    x < y
}

/// Relies on `rustc_apfloat::ieee::Double`'s `PartialOrd::gt`: the IEEE 754
/// "greater than" predicate, false whenever either operand is NaN.
#[verifier::external_body]
pub fn num_gt(a: u64, b: u64) -> (r: bool)
    ensures
        r == gt_bits(a, b),
{
    let x = Double::from_bits(a as u128);
    let y = Double::from_bits(b as u128);
    x > y
}

/// Relies on `rustc_apfloat::ieee::Double`'s `PartialEq::eq`: IEEE 754
/// equality, under which NaN equals nothing and the two zeros are equal.
#[verifier::external_body]
pub fn num_eq(a: u64, b: u64) -> (r: bool)
    ensures
        r == eq_bits(a, b),
{
    let x = Double::from_bits(a as u128);
    let y = Double::from_bits(b as u128);
    x == y
}

} // verus!
