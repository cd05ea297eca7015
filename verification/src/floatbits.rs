//! Single-precision scalar arithmetic, carried through `u32` bit patterns.
//!
//! Verified code never holds a floating-point value: a scalar is its IEEE 754
//! bit pattern. Arithmetic goes through `rustc_apfloat`, whose software
//! floats are correctly rounded and work on bit patterns directly, so each
//! operation is a deterministic function of its operand patterns and gets a
//! named result.

use vstd::prelude::*;
use rustc_apfloat::Float;

verus! {

/// The bit pattern of the single-precision float nearest to a `u32` value.
pub uninterp spec fn single_of_u32(n: u32) -> u32;

/// The bit pattern of the IEEE 754 sum of two single-precision bit patterns.
pub uninterp spec fn fadd_bits(a: u32, b: u32) -> u32;

/// The bit pattern of the IEEE 754 quotient of two single-precision bit
/// patterns.
pub uninterp spec fn fdiv_bits(a: u32, b: u32) -> u32;

/// The decimal literal text of a single-precision bit pattern.
pub uninterp spec fn float_literal(bits: u32) -> Seq<char>;

/// Relies on `rustc_apfloat::ieee::Single::from_u128_r`: the correctly
/// rounded (to nearest) single-precision value of an integer, a function of
/// the argument alone.
#[verifier::external_body]
pub(crate) fn single_from_u32(n: u32) -> (r: u32)
    ensures
        r == single_of_u32(n),
{
    rustc_apfloat::ieee::Single::from_u128_r(n as u128, rustc_apfloat::Round::NearestTiesToEven)
        .value
        .to_bits() as u32
}

/// Relies on `rustc_apfloat::ieee::Single` addition (`core::ops::Add`),
/// correctly rounded IEEE 754 and so a function of the operand bit patterns
/// alone.
#[verifier::external_body]
pub(crate) fn fadd(a: u32, b: u32) -> (r: u32)
    ensures
        r == fadd_bits(a, b),
{
    let x = rustc_apfloat::ieee::Single::from_bits(a as u128);
    let y = rustc_apfloat::ieee::Single::from_bits(b as u128);
    (x + y).value.to_bits() as u32
}

/// Relies on `rustc_apfloat::ieee::Single` division (`core::ops::Div`),
/// correctly rounded IEEE 754 and so a function of the operand bit patterns
/// alone.
#[verifier::external_body]
pub(crate) fn fdiv(a: u32, b: u32) -> (r: u32)
    ensures
        r == fdiv_bits(a, b),
{
    let x = rustc_apfloat::ieee::Single::from_bits(a as u128);
    let y = rustc_apfloat::ieee::Single::from_bits(b as u128);
    (x / y).value.to_bits() as u32
}

/// Relies on `rustc_apfloat::ieee::Single`'s `Display`, a deterministic
/// decimal rendering of the bit pattern.
#[verifier::external_body]
pub(crate) fn float_to_literal(bits: u32) -> (r: String)
    ensures
        r@ == float_literal(bits),
{
    format!("{}", rustc_apfloat::ieee::Single::from_bits(bits as u128))
}

} // verus!
