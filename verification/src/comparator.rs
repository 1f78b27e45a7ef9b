//! The signed-comparator execution gadget, serving the SLT and SGT
//! opcodes.
//!
//! Each operand is treated as a two's-complement signed 256-bit integer:
//! the sign is the top bit of the most-significant cell. The gadget
//! splits each operand into its 16-byte halves, compares the low halves
//! with a LessThan gadget and the high halves with a Comparison gadget,
//! and selects the final bit: with opposite signs the negative operand is
//! smaller outright, with equal signs the unsigned magnitude ordering
//! decides. SGT reuses the same sub-circuit by swapping which operand
//! plays which role, selected by an equality check against the SGT
//! opcode byte.

use vstd::prelude::*;
use vstd::arithmetic::power::pow;

use crate::builder::ConstraintBuilder;
use crate::error::ProverError;
use crate::gadgets::{
    assign_comparison, assign_is_equal, assign_lt, comparison_assignment_ok, eq_constraint,
    lt_assignment_ok, ComparisonAssignment, LtAssignment,
};
use crate::step::{Block, ExecStep, ExecutionState, StepStateTransition, Transition};
use crate::word::{
    bytes_value, is_negative, lemma_bytes_value_bound, lemma_half_capacity,
    lemma_signed_compare, lemma_unsigned_compare_by_halves, Word, HALF_BYTES, WORD_BYTES,
};

verus! {

/// Opcode byte of SLT, the signed less-than comparison.
pub const OPCODE_SLT: u8 = 0x12;

/// Opcode byte of SGT, the signed greater-than comparison.
pub const OPCODE_SGT: u8 = 0x13;

/// Signed less-than over two words under the two's-complement
/// interpretation.
pub open spec fn spec_slt(a: Word, b: Word) -> bool {
    a.spec_signed_value() < b.spec_signed_value()
}

/// The boolean the comparator step must push for stack operands `a` and
/// `b` (in pop order): `a < b` for SLT and `a > b` for SGT.
pub open spec fn spec_scmp_result(opcode: u8, a: Word, b: Word) -> bool {
    if opcode == OPCODE_SGT {
        spec_slt(b, a)
    } else {
        spec_slt(a, b)
    }
}

/// Law: SGT is SLT with the operands swapped.
pub proof fn lemma_sgt_is_slt_swapped(a: Word, b: Word)
    ensures
        spec_scmp_result(OPCODE_SGT, a, b) == spec_scmp_result(OPCODE_SLT, b, a),
{
}

/// The gadget instance returned by `configure`: it holds the declared
/// step-state transition, applied under the shared same-context gadget.
#[derive(Debug, Clone, Copy)]
pub struct SignedComparatorGadget {
    /// Declared movement of the global counters into the next step.
    pub transition: StepStateTransition,
}

impl SignedComparatorGadget {
    /// Build-time constraint declaration: allocates the opcode cell and
    /// the two operand words, declares two stack pops and one stack push,
    /// and declares the step-state transition. The declared read/write
    /// delta of 3 agrees exactly with the declared stack accesses; the
    /// program counter moves by one and the stack shrinks by one word.
    pub fn configure(cb: &mut ConstraintBuilder) -> (g: SignedComparatorGadget)
        requires
            old(cb).cells + 65 <= u64::MAX,
            old(cb).stack_pops + 2 <= u64::MAX,
            old(cb).stack_pushes + 1 <= u64::MAX,
        ensures
            final(cb).cells == old(cb).cells + 65,
            final(cb).stack_pops == old(cb).stack_pops + 2,
            final(cb).stack_pushes == old(cb).stack_pushes + 1,
            g.transition == (StepStateTransition {
                rw_counter: Transition::Delta(3),
                program_counter: Transition::Delta(1),
                stack_pointer: Transition::Delta(1),
            }),
            final(cb).rw_delta() - old(cb).rw_delta() == 3,
    {
        cb.query_cell();
        cb.query_word();
        cb.query_word();
        cb.stack_pop();
        cb.stack_pop();
        cb.stack_push();
        SignedComparatorGadget {
            transition: StepStateTransition {
                rw_counter: Transition::Delta(3),
                program_counter: Transition::Delta(1),
                stack_pointer: Transition::Delta(1),
            },
        }
    }
}

/// The full witness of one comparator row: the (possibly swapped)
/// operand words and every sub-gadget output allocated at configure
/// time.
#[derive(Debug)]
pub struct ScmpAssignment {
    /// First operand fed to the sub-circuit, after the SGT swap.
    pub a: Word,
    /// Second operand fed to the sub-circuit, after the SGT swap.
    pub b: Word,
    /// LessThan(1) on a's most-significant cell against 128: set when a
    /// is non-negative.
    pub sign_check_a: LtAssignment,
    /// LessThan(1) on b's most-significant cell against 128.
    pub sign_check_b: LtAssignment,
    /// LessThan(16) on the low halves.
    pub lt_lo: LtAssignment,
    /// Comparison(16) on the high halves.
    pub comparison_hi: ComparisonAssignment,
    /// Equality check of the opcode byte against SGT.
    pub is_sgt: u8,
    /// The boolean pushed on the stack.
    pub result: u8,
}

/// The selector polynomial of the comparator: with opposite signs the
/// sign bits decide, otherwise the magnitude ordering
/// `lt_hi OR (eq_hi AND lt_lo)` does. `a_pos`/`b_pos` are the sign-check
/// bits (set when the operand is non-negative).
pub open spec fn scmp_result_expression(
    a_pos: int,
    b_pos: int,
    lt_hi: int,
    eq_hi: int,
    lt_lo: int,
) -> int {
    let a_lt_b = lt_hi * 1 + (1 - lt_hi) * (eq_hi * lt_lo);
    let a_neg_b_pos = (1 - a_pos) * b_pos;
    let b_neg_a_pos = (1 - b_pos) * a_pos;
    a_neg_b_pos + (1 - a_neg_b_pos - b_neg_a_pos) * a_lt_b
}

/// For boolean inputs the selector polynomial evaluates to the expected
/// case split.
pub proof fn lemma_scmp_expression_value(a_pos: int, b_pos: int, lt_hi: int, eq_hi: int, lt_lo: int)
    requires
        0 <= a_pos <= 1,
        0 <= b_pos <= 1,
        0 <= lt_hi <= 1,
        0 <= eq_hi <= 1,
        0 <= lt_lo <= 1,
    ensures
        scmp_result_expression(a_pos, b_pos, lt_hi, eq_hi, lt_lo) == (if a_pos == 0 && b_pos == 1 {
            1int
        } else if b_pos == 0 && a_pos == 1 {
            0int
        } else if lt_hi == 1 {
            1int
        } else if eq_hi == 1 && lt_lo == 1 {
            1int
        } else {
            0int
        }),
{
    assert((1 - a_pos) * b_pos + (1 - (1 - a_pos) * b_pos - (1 - b_pos) * a_pos) * (lt_hi * 1 + (1
        - lt_hi) * (eq_hi * lt_lo)) == (if a_pos == 0 && b_pos == 1 {
        1int
    } else if b_pos == 0 && a_pos == 1 {
        0int
    } else if lt_hi == 1 {
        1int
    } else if eq_hi == 1 && lt_lo == 1 {
        1int
    } else {
        0int
    })) by (nonlinear_arith)
        requires
            0 <= a_pos <= 1,
            0 <= b_pos <= 1,
            0 <= lt_hi <= 1,
            0 <= eq_hi <= 1,
            0 <= lt_lo <= 1,
    ;
}

/// The dual contract of the gadget: the relations established at
/// configure time, as satisfied by one row's assigned witness.
pub open spec fn scmp_constraints_hold(opcode: u8, asn: ScmpAssignment) -> bool {
    &&& asn.a.wf()
    &&& asn.b.wf()
    &&& eq_constraint(opcode as nat, OPCODE_SGT as nat, asn.is_sgt as nat)
    &&& asn.sign_check_a.lhs == asn.a.cells@[WORD_BYTES - 1]
    &&& asn.sign_check_a.rhs == 128
    &&& lt_assignment_ok(1, asn.sign_check_a)
    &&& asn.sign_check_b.lhs == asn.b.cells@[WORD_BYTES - 1]
    &&& asn.sign_check_b.rhs == 128
    &&& lt_assignment_ok(1, asn.sign_check_b)
    &&& asn.lt_lo.lhs == bytes_value(asn.a.cells@.subrange(0, HALF_BYTES as int))
    &&& asn.lt_lo.rhs == bytes_value(asn.b.cells@.subrange(0, HALF_BYTES as int))
    &&& lt_assignment_ok(HALF_BYTES as nat, asn.lt_lo)
    &&& asn.comparison_hi.lt.lhs == bytes_value(
        asn.a.cells@.subrange(HALF_BYTES as int, WORD_BYTES as int),
    )
    &&& asn.comparison_hi.lt.rhs == bytes_value(
        asn.b.cells@.subrange(HALF_BYTES as int, WORD_BYTES as int),
    )
    &&& comparison_assignment_ok(HALF_BYTES as nat, asn.comparison_hi)
    &&& asn.result == scmp_result_expression(
        asn.sign_check_a.lt as int,
        asn.sign_check_b.lt as int,
        asn.comparison_hi.lt.lt as int,
        asn.comparison_hi.eq as int,
        asn.lt_lo.lt as int,
    )
}

/// Law: the comparator's constraint system is sound. Any witness
/// satisfying the configured relations carries in `result` exactly the
/// signed comparison of its operand words.
pub proof fn lemma_scmp_constraints_sound(opcode: u8, asn: ScmpAssignment)
    requires
        scmp_constraints_hold(opcode, asn),
    ensures
        asn.result == (if spec_slt(asn.a, asn.b) {
            1int
        } else {
            0int
        }),
{
    let ac = asn.a.cells@;
    let bc = asn.b.cells@;
    assert(pow(256, 1) == 256) by {
        reveal_with_fuel(pow, 2);
    }
    lemma_half_capacity();
    lemma_bytes_value_bound(ac.subrange(0, HALF_BYTES as int));
    lemma_bytes_value_bound(bc.subrange(0, HALF_BYTES as int));
    lemma_bytes_value_bound(ac.subrange(HALF_BYTES as int, WORD_BYTES as int));
    lemma_bytes_value_bound(bc.subrange(HALF_BYTES as int, WORD_BYTES as int));
    crate::gadgets::lemma_lt_constraint_sound(
        1,
        ac[WORD_BYTES - 1] as nat,
        128,
        asn.sign_check_a.lt as nat,
        asn.sign_check_a.diff as nat,
    );
    crate::gadgets::lemma_lt_constraint_sound(
        1,
        bc[WORD_BYTES - 1] as nat,
        128,
        asn.sign_check_b.lt as nat,
        asn.sign_check_b.diff as nat,
    );
    crate::gadgets::lemma_lt_constraint_sound(
        HALF_BYTES as nat,
        asn.lt_lo.lhs as nat,
        asn.lt_lo.rhs as nat,
        asn.lt_lo.lt as nat,
        asn.lt_lo.diff as nat,
    );
    crate::gadgets::lemma_comparison_sound(HALF_BYTES as nat, asn.comparison_hi);
    lemma_scmp_expression_value(
        asn.sign_check_a.lt as int,
        asn.sign_check_b.lt as int,
        asn.comparison_hi.lt.lt as int,
        asn.comparison_hi.eq as int,
        asn.lt_lo.lt as int,
    );
    lemma_unsigned_compare_by_halves(ac, bc);
    lemma_signed_compare(ac, bc);
    assert((asn.sign_check_a.lt == 1) <==> !is_negative(ac));
    assert((asn.sign_check_b.lt == 1) <==> !is_negative(bc));
}

/// The structural conditions a trace step must meet to be served by the
/// comparator gadget: the right state and opcode, three read/write
/// events (two stack reads then one stack write), all in range and
/// holding well-formed words.
pub open spec fn scmp_step_shape(block: Block, step: ExecStep) -> bool {
    &&& step.execution_state == ExecutionState::Scmp
    &&& (step.opcode == OPCODE_SLT || step.opcode == OPCODE_SGT)
    &&& step.rw_indices@.len() == 3
    &&& (step.rw_indices@[0] as int) < block.rws@.len()
    &&& (step.rw_indices@[1] as int) < block.rws@.len()
    &&& (step.rw_indices@[2] as int) < block.rws@.len()
    &&& !block.rws@[step.rw_indices@[0] as int].is_write
    &&& !block.rws@[step.rw_indices@[1] as int].is_write
    &&& block.rws@[step.rw_indices@[2] as int].is_write
    &&& block.rws@[step.rw_indices@[0] as int].value.wf()
    &&& block.rws@[step.rw_indices@[1] as int].value.wf()
    &&& block.rws@[step.rw_indices@[2] as int].value.wf()
}

/// The word the step pops first from the stack.
pub open spec fn scmp_operand_a(block: Block, step: ExecStep) -> Word {
    block.rws@[step.rw_indices@[0] as int].value
}

/// The word the step pops second from the stack.
pub open spec fn scmp_operand_b(block: Block, step: ExecStep) -> Word {
    block.rws@[step.rw_indices@[1] as int].value
}

impl SignedComparatorGadget {
    /// Run-time witness assignment for one comparator step. The values
    /// come strictly from the step's recorded read/write events and
    /// operand bytes; the produced witness satisfies every relation
    /// established at configure time, and its result bit is the signed
    /// comparison the opcode asks for. A step that does not meet the
    /// gadget's shape is a circuit-build defect.
    pub fn assign_exec_step(&self, block: &Block, step: &ExecStep) -> (r: Result<
        ScmpAssignment,
        ProverError,
    >)
        ensures
            (r matches Ok(asn)) <==> scmp_step_shape(*block, *step),
            r matches Ok(asn) ==> ({
                let x = scmp_operand_a(*block, *step);
                let y = scmp_operand_b(*block, *step);
                &&& scmp_constraints_hold(step.opcode, asn)
                &&& ((asn.is_sgt == 1) <==> step.opcode == OPCODE_SGT)
                &&& (step.opcode == OPCODE_SGT ==> asn.a.cells@ == y.cells@ && asn.b.cells@
                    == x.cells@)
                &&& (step.opcode != OPCODE_SGT ==> asn.a.cells@ == x.cells@ && asn.b.cells@
                    == y.cells@)
                &&& asn.result == (if spec_scmp_result(step.opcode, x, y) {
                    1int
                } else {
                    0int
                })
                &&& asn.result <= 1
            }),
            r matches Err(e) ==> e == ProverError::CircuitBuild,
    {
        if !(step.execution_state == ExecutionState::Scmp) {
            return Err(ProverError::CircuitBuild);
        }
        let opcode = step.opcode;
        if !(opcode == OPCODE_SLT || opcode == OPCODE_SGT) {
            return Err(ProverError::CircuitBuild);
        }
        if step.rw_indices.len() != 3 {
            return Err(ProverError::CircuitBuild);
        }
        let i0 = step.rw_indices[0];
        let i1 = step.rw_indices[1];
        let i2 = step.rw_indices[2];
        if i0 >= block.rws.len() || i1 >= block.rws.len() || i2 >= block.rws.len() {
            return Err(ProverError::CircuitBuild);
        }
        if block.rws[i0].is_write || block.rws[i1].is_write || !block.rws[i2].is_write {
            return Err(ProverError::CircuitBuild);
        }
        if block.rws[i0].value.cells.len() != WORD_BYTES || block.rws[i1].value.cells.len()
            != WORD_BYTES || block.rws[i2].value.cells.len() != WORD_BYTES {
            return Err(ProverError::CircuitBuild);
        }
        // SLT is the default wiring; swap the operand roles for SGT.
        let is_sgt = assign_is_equal(opcode as u64, OPCODE_SGT as u64);
        let (a, b) = if opcode == OPCODE_SGT {
            (block.rws[i1].stack_value().duplicate(), block.rws[i0].stack_value().duplicate())
        } else {
            (block.rws[i0].stack_value().duplicate(), block.rws[i1].stack_value().duplicate())
        };
        proof {
            assert(pow(256, 1) == 256) by {
                reveal_with_fuel(pow, 2);
            }
            lemma_half_capacity();
            lemma_bytes_value_bound(a.cells@.subrange(0, HALF_BYTES as int));
            lemma_bytes_value_bound(b.cells@.subrange(0, HALF_BYTES as int));
            lemma_bytes_value_bound(a.cells@.subrange(HALF_BYTES as int, WORD_BYTES as int));
            lemma_bytes_value_bound(b.cells@.subrange(HALF_BYTES as int, WORD_BYTES as int));
        }
        // Sign checks: in little-endian cell order the most-significant
        // byte is the last cell; its value below 128 means non-negative.
        let sign_check_a = assign_lt(1, a.msb() as u128, 128);
        let sign_check_b = assign_lt(1, b.msb() as u128, 128);
        // Magnitude ordering by halves, reusing one borrow chain per half.
        let lt_lo = assign_lt(HALF_BYTES, a.lo_half(), b.lo_half());
        let comparison_hi = assign_comparison(HALF_BYTES, a.hi_half(), b.hi_half());
        let a_lt_b: u8 = if comparison_hi.lt.lt == 1 {
            1
        } else if comparison_hi.eq == 1 && lt_lo.lt == 1 {
            1
        } else {
            0
        };
        let result: u8 = if sign_check_a.lt == 0 && sign_check_b.lt == 1 {
            1
        } else if sign_check_b.lt == 0 && sign_check_a.lt == 1 {
            0
        } else {
            a_lt_b
        };
        let asn = ScmpAssignment {
            a,
            b,
            sign_check_a,
            sign_check_b,
            lt_lo,
            comparison_hi,
            is_sgt,
            result,
        };
        proof {
            lemma_scmp_expression_value(
                sign_check_a.lt as int,
                sign_check_b.lt as int,
                comparison_hi.lt.lt as int,
                comparison_hi.eq as int,
                lt_lo.lt as int,
            );
            lemma_unsigned_compare_by_halves(asn.a.cells@, asn.b.cells@);
            lemma_signed_compare(asn.a.cells@, asn.b.cells@);
        }
        Ok(asn)
    }
}

} // verus!
