//! The operations on real numbers that the library computes through.

use crate::number::Number;
use vstd::prelude::*;

verus! {

/// The arithmetic of real numbers in the 64-bit binary format.
///
/// The library computes with real numbers through these operations alone. It
/// promises nothing of what an operation returns: of each of its own results
/// it states which operations made it, in which order and of what. The
/// comments below say what the operations stand for.
pub trait Arithmetic {
    /// The number that a sample equals.
    fn from_sample(&self, sample: u8) -> Number;

    /// The number nearest to a count or an index.
    fn from_index(&self, index: usize) -> Number;

    /// `a + b`.
    fn sum(&self, a: Number, b: Number) -> Number;

    /// `a - b`.
    fn difference(&self, a: Number, b: Number) -> Number;

    /// `a * b`.
    fn product(&self, a: Number, b: Number) -> Number;

    /// `a / b`.
    fn quotient(&self, a: Number, b: Number) -> Number;

    /// `base` raised to `exponent`.
    fn power(&self, base: Number, exponent: Number) -> Number;

    /// Whether `a < b`.
    fn less(&self, a: Number, b: Number) -> bool;

    /// The largest whole number that is not above `value`, as an index: zero
    /// for a value that is below zero or is no number, and the largest index
    /// for a value beyond it.
    fn floor_index(&self, value: Number) -> usize;

    /// The whole part of `value`, as a sample: zero for a value that is below
    /// zero or is no number, and the largest sample for a value above it.
    fn to_sample(&self, value: Number) -> u8;
}

} // verus!
