//! The integer parts of the Halstead measures.
//!
//! Difficulty is kept as an exact fraction; volume and effort take a
//! base-two logarithm and are left to floating-point callers, which build
//! them from `program_length`, `vocabulary` and the difficulty fraction.

use vstd::prelude::*;
use crate::lexical::LexicalCounts;

verus! {

/// `numerator / denominator`, with the denominator possibly zero.
#[derive(Clone, Copy, Debug, PartialEq, Eq, Structural)]
pub struct Fraction {
    pub numerator: u128,
    pub denominator: u128,
}

/// Difficulty `(n1 / 2) * (N2 / n2)` as the fraction `(n1 * N2) / (2 * n2)`.
pub open spec fn difficulty_numerator(c: LexicalCounts) -> nat {
    (c.distinct_operators * c.total_operands) as nat
}

pub open spec fn difficulty_denominator(c: LexicalCounts) -> nat {
    (2 * c.distinct_operands) as nat
}

/// The Halstead difficulty of `c` as an exact fraction.
pub fn difficulty(c: &LexicalCounts) -> (r: Fraction)
    ensures
        r.numerator == difficulty_numerator(*c),
        r.denominator == difficulty_denominator(*c),
{
    let a = c.distinct_operators as u128;
    let b = c.total_operands as u128;
    assert(a * b <= 0xffff_ffff_ffff_ffffu128 * 0xffff_ffff_ffff_ffffu128) by (nonlinear_arith)
        requires
            a <= 0xffff_ffff_ffff_ffffu128,
            b <= 0xffff_ffff_ffff_ffffu128,
    ;
    Fraction { numerator: a * b, denominator: 2 * (c.distinct_operands as u128) }
}

/// Program length `N1 + N2`.
pub fn program_length(c: &LexicalCounts) -> (r: u128)
    ensures
        r == c.total_operators + c.total_operands,
{
    c.total_operators as u128 + c.total_operands as u128
}

/// Vocabulary `n1 + n2`.
pub fn vocabulary(c: &LexicalCounts) -> (r: u128)
    ensures
        r == c.distinct_operators + c.distinct_operands,
{
    c.distinct_operators as u128 + c.distinct_operands as u128
}

} // verus!
