//! The arithmetic unit: the rounding operations that the statistics need,
//! supplied by the caller as one function from an instruction to its result.
//!
//! What an operation computes with the unit is stated over a model of the
//! unit, a mathematical function from instructions to words, and holds for
//! every model of the unit that the operation was handed.

use vstd::prelude::*;
use crate::ieee::{Double, Single};

verus! {

/// One instruction for the arithmetic unit. The unit answers with a 64-bit
/// word: the pattern of the resulting number, or the integer for `Truncate`.
#[derive(Clone, Copy, Debug)]
pub enum Op {
    /// The rounded sum of two binary64 numbers.
    Add(Double, Double),
    /// The rounded difference, first minus second.
    Sub(Double, Double),
    /// The rounded product.
    Mul(Double, Double),
    /// The rounded quotient, first over second.
    Div(Double, Double),
    /// The rounded square root.
    Sqrt(Double),
    /// The binary64 number nearest to an integer.
    FromInt(u128),
    /// The integer part of a number, cut off toward zero and held to the range
    /// of an index: 0 for a NaN or a negative number.
    Truncate(Double),
    /// The binary32 number nearest to a binary64 number, in the low half of
    /// the word.
    Narrow(Double),
    /// The rounded sum of two binary32 numbers, in the low half of the word.
    AddSingle(Single, Single),
}

/// What the operations ask of an arithmetic unit: it accepts every
/// instruction.
pub open spec fn is_unit<F: Fn(Op) -> u64>(fpu: F) -> bool {
    forall|op: Op| #[trigger] fpu.requires((op,))
}

/// Whether `m` is a model of the unit: every answer of the unit to an
/// instruction is the word that `m` gives for it. What the operations
/// compute is stated for every model of the unit they are handed.
pub open spec fn models<F: Fn(Op) -> u64>(m: spec_fn(Op) -> u64, fpu: F) -> bool {
    forall|op: Op, w: u64| #[trigger] fpu.ensures((op,), w) ==> w == m(op)
}

pub open spec fn sum(m: spec_fn(Op) -> u64, a: Double, b: Double) -> Double {
    Double { bits: m(Op::Add(a, b)) }
}

pub open spec fn difference(m: spec_fn(Op) -> u64, a: Double, b: Double) -> Double {
    Double { bits: m(Op::Sub(a, b)) }
}

pub open spec fn product(m: spec_fn(Op) -> u64, a: Double, b: Double) -> Double {
    Double { bits: m(Op::Mul(a, b)) }
}

pub open spec fn quotient(m: spec_fn(Op) -> u64, a: Double, b: Double) -> Double {
    Double { bits: m(Op::Div(a, b)) }
}

pub open spec fn square_root(m: spec_fn(Op) -> u64, a: Double) -> Double {
    Double { bits: m(Op::Sqrt(a)) }
}

pub open spec fn from_int(m: spec_fn(Op) -> u64, n: int) -> Double {
    Double { bits: m(Op::FromInt(n as u128)) }
}

/// The index that a number truncates to; a word beyond the range of an index
/// counts as the greatest index.
pub open spec fn index(m: spec_fn(Op) -> u64, a: Double) -> usize {
    let w = m(Op::Truncate(a));
    if w > usize::MAX {
        usize::MAX
    } else {
        w as usize
    }
}

pub open spec fn narrowed(m: spec_fn(Op) -> u64, a: Double) -> Single {
    Single { bits: (m(Op::Narrow(a)) % 0x1_0000_0000) as u32 }
}

pub open spec fn single_sum(m: spec_fn(Op) -> u64, a: Single, b: Single) -> Single {
    Single { bits: (m(Op::AddSingle(a, b)) % 0x1_0000_0000) as u32 }
}

/// Hands one instruction to the unit.
pub fn run<F: Fn(Op) -> u64>(fpu: &F, op: Op) -> (w: u64)
    requires
        is_unit(*fpu),
    ensures
        forall|m: spec_fn(Op) -> u64| #[trigger] models(m, *fpu) ==> w == m(op),
{
    fpu(op)
}

pub fn plus<F: Fn(Op) -> u64>(fpu: &F, a: Double, b: Double) -> (r: Double)
    requires
        is_unit(*fpu),
    ensures
        forall|m: spec_fn(Op) -> u64| #[trigger] models(m, *fpu) ==> r == sum(m, a, b),
{
    Double { bits: run(fpu, Op::Add(a, b)) }
}

pub fn minus<F: Fn(Op) -> u64>(fpu: &F, a: Double, b: Double) -> (r: Double)
    requires
        is_unit(*fpu),
    ensures
        forall|m: spec_fn(Op) -> u64| #[trigger] models(m, *fpu) ==> r == difference(m, a, b),
{
    Double { bits: run(fpu, Op::Sub(a, b)) }
}

pub fn times<F: Fn(Op) -> u64>(fpu: &F, a: Double, b: Double) -> (r: Double)
    requires
        is_unit(*fpu),
    ensures
        forall|m: spec_fn(Op) -> u64| #[trigger] models(m, *fpu) ==> r == product(m, a, b),
{
    Double { bits: run(fpu, Op::Mul(a, b)) }
}

pub fn over<F: Fn(Op) -> u64>(fpu: &F, a: Double, b: Double) -> (r: Double)
    requires
        is_unit(*fpu),
    ensures
        forall|m: spec_fn(Op) -> u64| #[trigger] models(m, *fpu) ==> r == quotient(m, a, b),
{
    Double { bits: run(fpu, Op::Div(a, b)) }
}

pub fn sqrt<F: Fn(Op) -> u64>(fpu: &F, a: Double) -> (r: Double)
    requires
        is_unit(*fpu),
    ensures
        forall|m: spec_fn(Op) -> u64| #[trigger] models(m, *fpu) ==> r == square_root(m, a),
{
    Double { bits: run(fpu, Op::Sqrt(a)) }
}

pub fn of_int<F: Fn(Op) -> u64>(fpu: &F, n: u128) -> (r: Double)
    requires
        is_unit(*fpu),
    ensures
        forall|m: spec_fn(Op) -> u64| #[trigger] models(m, *fpu) ==> r == from_int(m, n as int),
{
    Double { bits: run(fpu, Op::FromInt(n)) }
}

pub fn truncate<F: Fn(Op) -> u64>(fpu: &F, a: Double) -> (r: usize)
    requires
        is_unit(*fpu),
    ensures
        forall|m: spec_fn(Op) -> u64| #[trigger] models(m, *fpu) ==> r == index(m, a),
{
    let w = run(fpu, Op::Truncate(a));
    if w > usize::MAX as u64 {
        usize::MAX
    } else {
        w as usize
    }
}

pub fn narrow<F: Fn(Op) -> u64>(fpu: &F, a: Double) -> (r: Single)
    requires
        is_unit(*fpu),
    ensures
        forall|m: spec_fn(Op) -> u64| #[trigger] models(m, *fpu) ==> r == narrowed(m, a),
{
    let w = run(fpu, Op::Narrow(a));
    Single { bits: (w % 0x1_0000_0000) as u32 }
}

pub fn plus_single<F: Fn(Op) -> u64>(fpu: &F, a: Single, b: Single) -> (r: Single)
    requires
        is_unit(*fpu),
    ensures
        forall|m: spec_fn(Op) -> u64| #[trigger] models(m, *fpu) ==> r == single_sum(m, a, b),
{
    let w = run(fpu, Op::AddSingle(a, b));
    Single { bits: (w % 0x1_0000_0000) as u32 }
}

} // verus!
