//! Primitive gadgets.
//!
//! Reusable sub-circuits that compose range-checked cell constraints into
//! boolean ordering and equality predicates. Each gadget is described by
//! the polynomial relation it declares over its cells and by an
//! assignment function that produces a concrete witness satisfying that
//! relation; a soundness lemma shows the relation pins the boolean
//! outputs to the mathematical comparison. Every higher-level gadget
//! composes these instead of duplicating the constraints.

use vstd::prelude::*;
use vstd::arithmetic::power::{lemma_pow_increases, pow};

use crate::word::{lemma_half_capacity, HALF_BYTES};

verus! {

/// Witness of the LessThan gadget: the boolean `lt` and the borrow-chain
/// difference `diff`, beside the operands they were assigned from.
#[derive(Debug, Clone, Copy, PartialEq, Eq)]
pub struct LtAssignment {
    /// Left operand, reconstructed from `n_bytes` range-checked cells.
    pub lhs: u128,
    /// Right operand, reconstructed from `n_bytes` range-checked cells.
    pub rhs: u128,
    /// The boolean output cell: 1 when `lhs < rhs`.
    pub lt: u8,
    /// The borrow-chain difference, range-checked to `n_bytes` cells.
    pub diff: u128,
}

/// The polynomial relation the LessThan gadget declares: `lt` is boolean,
/// `diff` fits `n_bytes` cells, and the borrow-chain identity
/// `lhs - rhs == diff - lt * 256^n_bytes` holds.
pub open spec fn lt_constraint(n_bytes: nat, lhs: nat, rhs: nat, lt: nat, diff: nat) -> bool {
    &&& lt <= 1
    &&& diff < pow(256, n_bytes)
    &&& lhs - rhs == diff - lt * pow(256, n_bytes)
}

/// The LessThan relation over a whole witness record.
pub open spec fn lt_assignment_ok(n_bytes: nat, g: LtAssignment) -> bool {
    lt_constraint(n_bytes, g.lhs as nat, g.rhs as nat, g.lt as nat, g.diff as nat)
}

/// Soundness of the LessThan gadget: for operands in range the declared
/// relation admits exactly one value of `lt`, the truth value of the
/// comparison, whatever the numeric operands are.
pub proof fn lemma_lt_constraint_sound(n_bytes: nat, lhs: nat, rhs: nat, lt: nat, diff: nat)
    requires
        lhs < pow(256, n_bytes),
        rhs < pow(256, n_bytes),
        lt_constraint(n_bytes, lhs, rhs, lt, diff),
    ensures
        lt == if lhs < rhs {
            1nat
        } else {
            0nat
        },
{
    if lt == 1 {
        assert(lt * pow(256, n_bytes) == pow(256, n_bytes)) by (nonlinear_arith)
            requires
                lt == 1nat,
        ;
    } else {
        assert(lt * pow(256, n_bytes) == 0) by (nonlinear_arith)
            requires
                lt == 0nat,
        ;
    }
}

/// The largest value `n_bytes` range-checked cells can hold: 256^n - 1.
pub fn max_bytes_value(n_bytes: usize) -> (r: u128)
    requires
        n_bytes <= HALF_BYTES,
    ensures
        r == pow(256, n_bytes as nat) - 1,
{
    proof {
        reveal(pow);
    }
    let mut r: u128 = 0;
    let mut i: usize = 0;
    while i < n_bytes
        invariant
            i <= n_bytes <= HALF_BYTES,
            r == pow(256, i as nat) - 1,
        decreases n_bytes - i,
    {
        proof {
            reveal(pow);
            lemma_half_capacity();
            lemma_pow_increases(256, (i + 1) as nat, HALF_BYTES as nat);
        }
        r = r * 256 + 255;
        i = i + 1;
    }
    r
}

/// Assign the LessThan gadget's witness for concrete operands: a boolean
/// `a < b` via borrow-chain arithmetic, at constant proof cost
/// independent of the numeric values.
pub fn assign_lt(n_bytes: usize, lhs: u128, rhs: u128) -> (g: LtAssignment)
    requires
        1 <= n_bytes <= HALF_BYTES,
        lhs < pow(256, n_bytes as nat),
        rhs < pow(256, n_bytes as nat),
    ensures
        g.lhs == lhs,
        g.rhs == rhs,
        lt_assignment_ok(n_bytes as nat, g),
        (g.lt == 1) <==> lhs < rhs,
        g.lt <= 1,
{
    proof {
        lemma_half_capacity();
        lemma_pow_increases(256, n_bytes as nat, HALF_BYTES as nat);
    }
    let max = max_bytes_value(n_bytes);
    if lhs < rhs {
        let diff = lhs + ((max - rhs) + 1);
        LtAssignment { lhs, rhs, lt: 1, diff }
    } else {
        LtAssignment { lhs, rhs, lt: 0, diff: lhs - rhs }
    }
}

/// The relation the Equality gadget declares: `eq` is boolean and set
/// exactly when the operands agree. In the constraint table this is the
/// standard invertibility check on the difference, whose inverse witness
/// exists only when the operands differ.
pub open spec fn eq_constraint(lhs: nat, rhs: nat, eq: nat) -> bool {
    &&& eq <= 1
    &&& ((eq == 1) <==> lhs == rhs)
}

/// Assign the Equality gadget's boolean for two field elements.
pub fn assign_is_equal(lhs: u64, rhs: u64) -> (eq: u8)
    ensures
        eq_constraint(lhs as nat, rhs as nat, eq as nat),
        (eq == 1) <==> lhs == rhs,
        eq <= 1,
{
    if lhs == rhs {
        1
    } else {
        0
    }
}

/// Witness of the Comparison gadget: the pair (lt, eq) produced in one
/// sub-circuit. The `eq` bit reuses the borrow chain: it is the is-zero
/// check of the chain's difference, so no constraints are duplicated.
#[derive(Debug, Clone, Copy, PartialEq, Eq)]
pub struct ComparisonAssignment {
    /// The embedded borrow chain.
    pub lt: LtAssignment,
    /// The boolean output cell: 1 when the operands agree.
    pub eq: u8,
}

/// The Comparison relation: the borrow chain holds and `eq` is the
/// is-zero check of its difference.
pub open spec fn comparison_assignment_ok(n_bytes: nat, g: ComparisonAssignment) -> bool {
    &&& lt_assignment_ok(n_bytes, g.lt)
    &&& g.eq <= 1
    &&& ((g.eq == 1) <==> g.lt.diff == 0)
}

/// Soundness of the Comparison gadget: for operands in range the relation
/// pins (lt, eq) to the mathematical comparison and equality.
pub proof fn lemma_comparison_sound(n_bytes: nat, g: ComparisonAssignment)
    requires
        g.lhs_in_range(n_bytes),
        comparison_assignment_ok(n_bytes, g),
    ensures
        (g.lt.lt == 1) <==> g.lt.lhs < g.lt.rhs,
        (g.eq == 1) <==> g.lt.lhs == g.lt.rhs,
{
    lemma_lt_constraint_sound(
        n_bytes,
        g.lt.lhs as nat,
        g.lt.rhs as nat,
        g.lt.lt as nat,
        g.lt.diff as nat,
    );
    let b = g.lt.lt as nat;
    if b == 1 {
        assert(b * pow(256, n_bytes) == pow(256, n_bytes)) by (nonlinear_arith)
            requires
                b == 1nat,
        ;
    } else {
        assert(b * pow(256, n_bytes) == 0) by (nonlinear_arith)
            requires
                b == 0nat,
        ;
    }
}

impl ComparisonAssignment {
    /// Both operands fit `n_bytes` range-checked cells.
    pub open spec fn lhs_in_range(self, n_bytes: nat) -> bool {
        self.lt.lhs < pow(256, n_bytes) && self.lt.rhs < pow(256, n_bytes)
    }
}

/// Assign the Comparison gadget's witness: the borrow chain plus the
/// is-zero check of its difference.
pub fn assign_comparison(n_bytes: usize, lhs: u128, rhs: u128) -> (g: ComparisonAssignment)
    requires
        1 <= n_bytes <= HALF_BYTES,
        lhs < pow(256, n_bytes as nat),
        rhs < pow(256, n_bytes as nat),
    ensures
        g.lt.lhs == lhs,
        g.lt.rhs == rhs,
        comparison_assignment_ok(n_bytes as nat, g),
        (g.lt.lt == 1) <==> lhs < rhs,
        (g.eq == 1) <==> lhs == rhs,
        g.lt.lt <= 1,
        g.eq <= 1,
{
    let lt = assign_lt(n_bytes, lhs, rhs);
    let eq: u8 = if lt.diff == 0 {
        1
    } else {
        0
    };
    let g = ComparisonAssignment { lt, eq };
    proof {
        lemma_comparison_sound(n_bytes as nat, g);
    }
    g
}

} // verus!
