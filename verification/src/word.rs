//! Word/cell model.
//!
//! A 256-bit unsigned integer is represented as 32 ordered cells, each
//! range-checked to the byte domain, little-endian (cell 0 is the
//! least-significant byte). Reconstruction is the weighted sum of
//! cell i times 256^i, which round-trips exactly for any 256-bit value.
//! Gadgets address sub-ranges of cells (the low 16 and high 16 bytes) to
//! implement sub-word arithmetic without re-deriving the decomposition.

use vstd::prelude::*;
use vstd::arithmetic::div_mod::{lemma_fundamental_div_mod, lemma_fundamental_div_mod_converse};
use vstd::arithmetic::power::{lemma_pow_increases, lemma_pow_multiplies, pow};
use vstd::arithmetic::power2::{lemma2_to64, lemma_pow2, lemma_pow2_adds};

verus! {

/// Number of byte cells in a word.
pub const WORD_BYTES: usize = 32;

/// Number of byte cells in each half of a word.
pub const HALF_BYTES: usize = 16;

/// The unsigned value of a little-endian sequence of byte cells: the
/// weighted sum of cell i times 256^i.
pub open spec fn bytes_value(s: Seq<u8>) -> nat
    decreases s.len(),
{
    if s.len() == 0 {
        0
    } else {
        (s[0] + 256 * bytes_value(s.drop_first())) as nat
    }
}

/// The `n` little-endian byte cells that represent `v`.
pub open spec fn bytes_of(v: nat, n: nat) -> Seq<u8>
    decreases n,
{
    if n == 0 {
        Seq::empty()
    } else {
        seq![(v % 256) as u8] + bytes_of(v / 256, (n - 1) as nat)
    }
}

/// The capacity of a 16-cell half: 256^16 is 2^128, so a half's value
/// fits a 128-bit machine integer.
pub proof fn lemma_half_capacity()
    ensures
        pow(256, HALF_BYTES as nat) == 0x100000000000000000000000000000000,
{
    lemma2_to64();
    lemma_pow2(8);
    lemma_pow2(128);
    lemma_pow2_adds(64, 64);
    lemma_pow_multiplies(2, 8, 16);
}

/// A sequence of `n` byte cells always reconstructs to a value below 256^n.
pub proof fn lemma_bytes_value_bound(s: Seq<u8>)
    ensures
        bytes_value(s) < pow(256, s.len()),
    decreases s.len(),
{
    reveal(pow);
    if s.len() == 0 {
    } else {
        lemma_bytes_value_bound(s.drop_first());
        assert(pow(256, s.len()) == 256 * pow(256, (s.len() - 1) as nat));
    }
}

/// The decomposition of a value into `n` cells has exactly `n` cells.
pub proof fn lemma_bytes_of_len(v: nat, n: nat)
    ensures
        bytes_of(v, n).len() == n,
    decreases n,
{
    if n > 0 {
        lemma_bytes_of_len(v / 256, (n - 1) as nat);
    }
}

/// Reconstructing the `n`-cell decomposition of a value below 256^n gives
/// the value back exactly: no information loss, no saturation.
pub proof fn lemma_reconstruct_decompose(v: nat, n: nat)
    requires
        v < pow(256, n),
    ensures
        bytes_value(bytes_of(v, n)) == v,
    decreases n,
{
    reveal(pow);
    if n == 0 {
    } else {
        let p = pow(256, (n - 1) as nat);
        assert(pow(256, n) == 256 * p);
        lemma_fundamental_div_mod(v as int, 256);
        assert(v / 256 < p) by {
            if v / 256 >= p {
                assert(256 * (v / 256) >= 256 * p);
            }
        }
        lemma_reconstruct_decompose(v / 256, (n - 1) as nat);
        let s = bytes_of(v, n);
        assert(s.drop_first() =~= bytes_of(v / 256, (n - 1) as nat));
        assert(s[0] == (v % 256) as u8);
    }
}

/// Decomposing the value of a cell sequence gives the sequence back
/// exactly: the representation is canonical.
pub proof fn lemma_decompose_reconstruct(s: Seq<u8>)
    ensures
        bytes_of(bytes_value(s), s.len()) == s,
    decreases s.len(),
{
    if s.len() == 0 {
        assert(bytes_of(bytes_value(s), 0) =~= s);
    } else {
        let rest = s.drop_first();
        lemma_decompose_reconstruct(rest);
        let v = bytes_value(s);
        lemma_fundamental_div_mod_converse(
            v as int,
            256,
            bytes_value(rest) as int,
            s[0] as int,
        );
        assert(bytes_of(v, s.len()) =~= s) by {
            assert(bytes_of(v, s.len()).drop_first() =~= bytes_of(v / 256, (s.len() - 1) as nat));
            assert(bytes_of(v / 256, (s.len() - 1) as nat) == rest);
            lemma_bytes_of_len(v / 256, (s.len() - 1) as nat);
        }
    }
}

/// Law: the word decomposition round-trips. For any 256-bit value,
/// decomposing to 32 range-checked little-endian byte cells and
/// reconstructing yields the original value exactly, and decomposing the
/// value of any 32-cell sequence yields that sequence.
pub proof fn lemma_word_round_trip(v: nat, s: Seq<u8>)
    requires
        v < pow(256, WORD_BYTES as nat),
        s.len() == WORD_BYTES,
    ensures
        bytes_value(bytes_of(v, WORD_BYTES as nat)) == v,
        bytes_of(bytes_value(s), WORD_BYTES as nat) == s,
{
    lemma_reconstruct_decompose(v, WORD_BYTES as nat);
    lemma_decompose_reconstruct(s);
}

/// The value of a cell sequence splits at any position `i` into the value
/// of the low cells plus 256^i times the value of the high cells.
pub proof fn lemma_bytes_value_split(s: Seq<u8>, i: int)
    requires
        0 <= i <= s.len(),
    ensures
        bytes_value(s) == bytes_value(s.subrange(0, i)) + pow(256, i as nat) * bytes_value(
            s.subrange(i, s.len() as int),
        ),
    decreases i,
{
    reveal(pow);
    if i == 0 {
        assert(s.subrange(0, 0) =~= Seq::<u8>::empty());
        assert(s.subrange(0, s.len() as int) =~= s);
        assert(pow(256, 0) == 1);
    } else {
        let rest = s.drop_first();
        lemma_bytes_value_split(rest, i - 1);
        let hi = bytes_value(s.subrange(i, s.len() as int));
        let p1 = pow(256, (i - 1) as nat);
        assert(rest.subrange(0, i - 1) =~= s.subrange(0, i).drop_first());
        assert(rest.subrange(i - 1, rest.len() as int) =~= s.subrange(i, s.len() as int));
        assert(s.subrange(0, i)[0] == s[0]);
        assert(pow(256, i as nat) == 256 * p1);
        assert(256 * (p1 * hi) == (256 * p1) * hi) by (nonlinear_arith);
    }
}

/// The value of a sub-range of cells unfolds one cell at a time from the
/// least-significant end.
pub proof fn lemma_bytes_value_step(s: Seq<u8>, i: int, j: int)
    requires
        0 <= i < j <= s.len(),
    ensures
        bytes_value(s.subrange(i, j)) == s[i] + 256 * bytes_value(s.subrange(i + 1, j)),
{
    let t = s.subrange(i, j);
    assert(t.drop_first() =~= s.subrange(i + 1, j));
}

/// A cell sequence reconstructs to zero exactly when every cell is zero.
pub proof fn lemma_bytes_value_zero(s: Seq<u8>)
    ensures
        (bytes_value(s) == 0) <==> (forall|i: int| 0 <= i < s.len() ==> s[i] == 0),
    decreases s.len(),
{
    if s.len() > 0 {
        let rest = s.drop_first();
        lemma_bytes_value_zero(rest);
        if bytes_value(s) == 0 {
            assert forall|i: int| 0 <= i < s.len() implies s[i] == 0 by {
                if i > 0 {
                    assert(rest[i - 1] == s[i]);
                }
            }
        } else {
            if s[0] != 0 {
            } else {
                assert(bytes_value(rest) != 0);
                let w = choose|i: int| 0 <= i < rest.len() && rest[i] != 0;
                assert(s[w + 1] != 0);
            }
        }
    }
}

/// Ordering of two 32-cell values is decided by the high 16-byte halves,
/// with a tie broken by the low halves.
pub proof fn lemma_unsigned_compare_by_halves(a: Seq<u8>, b: Seq<u8>)
    requires
        a.len() == WORD_BYTES,
        b.len() == WORD_BYTES,
    ensures
        (bytes_value(a) < bytes_value(b)) <==> ({
            let a_lo = bytes_value(a.subrange(0, HALF_BYTES as int));
            let a_hi = bytes_value(a.subrange(HALF_BYTES as int, WORD_BYTES as int));
            let b_lo = bytes_value(b.subrange(0, HALF_BYTES as int));
            let b_hi = bytes_value(b.subrange(HALF_BYTES as int, WORD_BYTES as int));
            a_hi < b_hi || (a_hi == b_hi && a_lo < b_lo)
        }),
{
    let a_lo = bytes_value(a.subrange(0, HALF_BYTES as int));
    let a_hi = bytes_value(a.subrange(HALF_BYTES as int, WORD_BYTES as int));
    let b_lo = bytes_value(b.subrange(0, HALF_BYTES as int));
    let b_hi = bytes_value(b.subrange(HALF_BYTES as int, WORD_BYTES as int));
    let p = pow(256, HALF_BYTES as nat);
    lemma_bytes_value_split(a, HALF_BYTES as int);
    lemma_bytes_value_split(b, HALF_BYTES as int);
    lemma_bytes_value_bound(a.subrange(0, HALF_BYTES as int));
    lemma_bytes_value_bound(b.subrange(0, HALF_BYTES as int));
    lemma_half_capacity();
    if a_hi < b_hi {
        assert(a_lo + p * a_hi < b_lo + p * b_hi) by (nonlinear_arith)
            requires
                a_hi < b_hi,
                a_lo < p,
                0 <= b_lo,
        ;
    } else if b_hi < a_hi {
        assert(b_lo + p * b_hi < a_lo + p * a_hi) by (nonlinear_arith)
            requires
                b_hi < a_hi,
                b_lo < p,
                0 <= a_lo,
        ;
    }
}

/// Whether a 32-cell value is negative under the two's-complement
/// interpretation: the most-significant byte's top bit is set.
pub open spec fn is_negative(s: Seq<u8>) -> bool {
    s[WORD_BYTES - 1] >= 128
}

/// The two's-complement signed value of a 32-cell sequence.
pub open spec fn signed_value(s: Seq<u8>) -> int {
    if is_negative(s) {
        bytes_value(s) - pow(256, WORD_BYTES as nat)
    } else {
        bytes_value(s) as int
    }
}

/// Signed ordering reduces to the sign bits and the unsigned ordering:
/// with opposite signs the negative operand is smaller outright; with
/// equal signs the unsigned magnitude ordering decides.
pub proof fn lemma_signed_compare(a: Seq<u8>, b: Seq<u8>)
    requires
        a.len() == WORD_BYTES,
        b.len() == WORD_BYTES,
    ensures
        (signed_value(a) < signed_value(b)) <==> (if is_negative(a) != is_negative(b) {
            is_negative(a)
        } else {
            bytes_value(a) < bytes_value(b)
        }),
{
    lemma_bytes_value_bound(a);
    lemma_bytes_value_bound(b);
}

/// A 256-bit word held as 32 range-checked little-endian byte cells.
#[derive(Debug, PartialEq, Eq)]
pub struct Word {
    /// Cell 0 is the least-significant byte.
    pub cells: Vec<u8>,
}

impl Word {
    /// The word holds exactly 32 cells.
    pub open spec fn wf(self) -> bool {
        self.cells@.len() == WORD_BYTES
    }

    /// The unsigned value the cells reconstruct to.
    pub open spec fn value(self) -> nat {
        bytes_value(self.cells@)
    }

    /// The two's-complement sign of the word.
    pub open spec fn spec_is_negative(self) -> bool {
        is_negative(self.cells@)
    }

    /// The two's-complement signed value of the word.
    pub open spec fn spec_signed_value(self) -> int {
        signed_value(self.cells@)
    }

    /// Wrap 32 little-endian byte cells as a word.
    pub fn from_le_bytes(cells: Vec<u8>) -> (w: Word)
        requires
            cells@.len() == WORD_BYTES,
        ensures
            w.wf(),
            w.cells@ == cells@,
    {
        Word { cells }
    }

    /// Build a word from 32 big-endian bytes, reversing into the
    /// little-endian cell order.
    pub fn from_be_bytes(bytes: &Vec<u8>) -> (w: Word)
        requires
            bytes@.len() == WORD_BYTES,
        ensures
            w.wf(),
            forall|i: int| 0 <= i < WORD_BYTES ==> w.cells@[i] == bytes@[WORD_BYTES - 1 - i],
    {
        let mut cells: Vec<u8> = Vec::new();
        let mut i: usize = 0;
        while i < WORD_BYTES
            invariant
                bytes@.len() == WORD_BYTES,
                i <= WORD_BYTES,
                cells@.len() == i,
                forall|j: int| 0 <= j < i ==> cells@[j] == bytes@[WORD_BYTES - 1 - j],
            decreases WORD_BYTES - i,
        {
            cells.push(bytes[WORD_BYTES - 1 - i]);
            i = i + 1;
        }
        Word { cells }
    }

    /// Copy the word's cells into a new word.
    pub fn duplicate(&self) -> (w: Word)
        ensures
            w.cells@ == self.cells@,
    {
        let mut cells: Vec<u8> = Vec::new();
        let mut i: usize = 0;
        while i < self.cells.len()
            invariant
                i <= self.cells@.len(),
                cells@.len() == i,
                forall|j: int| 0 <= j < i ==> cells@[j] == self.cells@[j],
            decreases self.cells@.len() - i,
        {
            cells.push(self.cells[i]);
            i = i + 1;
        }
        proof {
            assert(cells@ =~= self.cells@);
        }
        Word { cells }
    }

    /// Whether the word's value equals the given single-byte constant.
    pub fn is_small_value(&self, v: u8) -> (r: bool)
        requires
            self.wf(),
        ensures
            r == (self.value() == v),
    {
        let mut i: usize = 1;
        while i < WORD_BYTES
            invariant
                self.wf(),
                1 <= i <= WORD_BYTES,
                forall|j: int| 1 <= j < i ==> self.cells@[j] == 0,
            decreases WORD_BYTES - i,
        {
            if self.cells[i] != 0 {
                proof {
                    let rest = self.cells@.drop_first();
                    lemma_bytes_value_zero(rest);
                    assert(rest[i - 1] == self.cells@[i as int]);
                    assert(bytes_value(rest) != 0);
                }
                return false;
            }
            i = i + 1;
        }
        proof {
            let rest = self.cells@.drop_first();
            assert forall|j: int| 0 <= j < rest.len() implies rest[j] == 0 by {
                assert(rest[j] == self.cells@[j + 1]);
            }
            lemma_bytes_value_zero(rest);
        }
        self.cells[0] == v
    }

    /// The most-significant byte cell, which carries the sign bit.
    pub fn msb(&self) -> (r: u8)
        requires
            self.wf(),
        ensures
            r == self.cells@[WORD_BYTES - 1],
            (r < 128) <==> !self.spec_is_negative(),
    {
        self.cells[WORD_BYTES - 1]
    }

    /// The value of the low 16 byte cells.
    pub fn lo_half(&self) -> (r: u128)
        requires
            self.wf(),
        ensures
            r == bytes_value(self.cells@.subrange(0, HALF_BYTES as int)),
    {
        half_value(&self.cells, 0)
    }

    /// The value of the high 16 byte cells.
    pub fn hi_half(&self) -> (r: u128)
        requires
            self.wf(),
        ensures
            r == bytes_value(self.cells@.subrange(HALF_BYTES as int, WORD_BYTES as int)),
    {
        half_value(&self.cells, HALF_BYTES)
    }
}

/// Reconstruct the value of 16 consecutive byte cells starting at `start`.
fn half_value(cells: &Vec<u8>, start: usize) -> (r: u128)
    requires
        start + HALF_BYTES <= cells@.len(),
    ensures
        r == bytes_value(cells@.subrange(start as int, start + HALF_BYTES)),
{
    proof {
        reveal(pow);
        lemma_half_capacity();
        assert(cells@.subrange(start + HALF_BYTES, start + HALF_BYTES) =~= Seq::<u8>::empty());
    }
    let n = cells.len();
    let mut r: u128 = 0;
    let mut i: usize = HALF_BYTES;
    while i > 0
        invariant
            n == cells@.len(),
            start + HALF_BYTES <= cells@.len(),
            i <= HALF_BYTES,
            r == bytes_value(cells@.subrange(start + i, start + HALF_BYTES)),
            r < pow(256, (HALF_BYTES - i) as nat),
        decreases i,
    {
        i = i - 1;
        proof {
            reveal(pow);
            lemma_half_capacity();
            lemma_bytes_value_step(cells@, start + i, start + HALF_BYTES);
            lemma_bytes_value_bound(cells@.subrange(start + i, start + HALF_BYTES));
            assert(cells@.subrange(start + i, start + HALF_BYTES).len() == HALF_BYTES - i);
            lemma_pow_increases(256, (HALF_BYTES - i) as nat, HALF_BYTES as nat);
        }
        r = r * 256 + cells[start + i] as u128;
    }
    proof {
        assert(cells@.subrange(start as int, start + HALF_BYTES) =~= cells@.subrange(
            start + 0,
            start + HALF_BYTES,
        ));
    }
    r
}

} // verus!
