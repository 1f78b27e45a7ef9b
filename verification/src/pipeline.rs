//! Proof-generation pipeline.
//!
//! The verified part of the pipeline sizes the table from the gas
//! estimate, checks the witness block against the bucket's capacity
//! limits, builds one gadget row per trace step and pads the remaining
//! usable rows with no-op rows. Key generation and proof creation over
//! the assigned table run in the surrounding application through a
//! proving backend; the pipeline packages their output. Every stage
//! fails fast: an error aborts the whole run with no partial proof and
//! no retry at this layer.

use vstd::prelude::*;
use vstd::arithmetic::power2::{
    lemma2_to64, lemma2_to64_rest, lemma_pow2_pos, lemma_pow2_strictly_increases,
    lemma_pow2_unfold, pow2,
};

use crate::error::ProverError;
use crate::machine::{assign_block, block_assignable, row_ok, AssignedStep};
use crate::params::{select_circuit_params, spec_bucket, CircuitParameters, MAX_BUCKET_GAS};
use crate::rpc::{ProofRequestOptions, Proofs};
use crate::step::{Block, Transaction};

verus! {

/// Rows at the end of the table reserved for blinding; they are never
/// assigned a step.
pub const NUM_BLINDING_ROWS: u64 = 7 - 1;

/// Chain id of the fixed block used to derive a static proving key.
pub const STATIC_CHAIN_ID: u64 = 99;

/// Gas limit of the fixed block used to derive a static proving key.
pub const STATIC_BLOCK_GAS_LIMIT: u64 = 2000000;

/// Total calldata bytes across the transactions.
pub open spec fn spec_total_calldata(txs: Seq<Transaction>) -> nat
    decreases txs.len(),
{
    if txs.len() == 0 {
        0
    } else {
        spec_total_calldata(txs.drop_last()) + txs.last().call_data@.len()
    }
}

/// Total bytecode bytes across the block's bytecodes.
pub open spec fn spec_total_bytecode(codes: Seq<Vec<u8>>) -> nat
    decreases codes.len(),
{
    if codes.len() == 0 {
        0
    } else {
        spec_total_bytecode(codes.drop_last()) + codes.last()@.len()
    }
}

/// A prefix never holds more calldata than the whole.
proof fn lemma_total_calldata_prefix(txs: Seq<Transaction>, i: int)
    requires
        0 <= i <= txs.len(),
    ensures
        spec_total_calldata(txs.take(i)) <= spec_total_calldata(txs),
    decreases txs.len() - i,
{
    if i == txs.len() {
        assert(txs.take(i) =~= txs);
    } else {
        lemma_total_calldata_prefix(txs, i + 1);
        assert(txs.take(i + 1).drop_last() =~= txs.take(i));
        assert(txs.take(i + 1).last() == txs[i]);
    }
}

/// A prefix never holds more bytecode than the whole.
proof fn lemma_total_bytecode_prefix(codes: Seq<Vec<u8>>, i: int)
    requires
        0 <= i <= codes.len(),
    ensures
        spec_total_bytecode(codes.take(i)) <= spec_total_bytecode(codes),
    decreases codes.len() - i,
{
    if i == codes.len() {
        assert(codes.take(i) =~= codes);
    } else {
        lemma_total_bytecode_prefix(codes, i + 1);
        assert(codes.take(i + 1).drop_last() =~= codes.take(i));
        assert(codes.take(i + 1).last() == codes[i]);
    }
}

/// Decide whether the transactions' total calldata fits the limit.
fn calldata_fits(txs: &Vec<Transaction>, max: u64) -> (r: bool)
    ensures
        r == (spec_total_calldata(txs@) <= max),
{
    let mut sum: u64 = 0;
    let mut i: usize = 0;
    while i < txs.len()
        invariant
            i <= txs@.len(),
            sum == spec_total_calldata(txs@.take(i as int)),
            sum <= max,
        decreases txs@.len() - i,
    {
        let l = txs[i].call_data.len() as u64;
        proof {
            assert(txs@.take(i + 1).drop_last() =~= txs@.take(i as int));
            assert(txs@.take(i + 1).last() == txs@[i as int]);
        }
        if l > max || sum > max - l {
            proof {
                lemma_total_calldata_prefix(txs@, i + 1);
            }
            return false;
        }
        sum = sum + l;
        i = i + 1;
    }
    proof {
        assert(txs@.take(txs@.len() as int) =~= txs@);
    }
    true
}

/// Decide whether the block's total bytecode fits the limit.
fn bytecode_fits(codes: &Vec<Vec<u8>>, max: u64) -> (r: bool)
    ensures
        r == (spec_total_bytecode(codes@) <= max),
{
    let mut sum: u64 = 0;
    let mut i: usize = 0;
    while i < codes.len()
        invariant
            i <= codes@.len(),
            sum == spec_total_bytecode(codes@.take(i as int)),
            sum <= max,
        decreases codes@.len() - i,
    {
        let l = codes[i].len() as u64;
        proof {
            assert(codes@.take(i + 1).drop_last() =~= codes@.take(i as int));
            assert(codes@.take(i + 1).last() == codes@[i as int]);
        }
        if l > max || sum > max - l {
            proof {
                lemma_total_bytecode_prefix(codes@, i + 1);
            }
            return false;
        }
        sum = sum + l;
        i = i + 1;
    }
    proof {
        assert(codes@.take(codes@.len() as int) =~= codes@);
    }
    true
}

/// The number of table rows for a given k: 2^k.
fn table_rows(k: u32) -> (r: u64)
    requires
        k < 64,
    ensures
        r == pow2(k as nat),
        r >= 1,
{
    proof {
        lemma2_to64();
    }
    let mut r: u64 = 1;
    let mut i: u32 = 0;
    while i < k
        invariant
            i <= k < 64,
            r == pow2(i as nat),
        decreases k - i,
    {
        proof {
            lemma_pow2_unfold((i + 1) as nat);
            lemma_pow2_strictly_increases((i + 1) as nat, 64);
            lemma2_to64();
            lemma2_to64_rest();
        }
        r = r * 2;
        i = i + 1;
    }
    proof {
        lemma_pow2_pos(k as nat);
    }
    r
}

/// A fully instantiated circuit: the fixed-size table with one assigned
/// row per trace step and no-op padding up to the usable capacity.
#[derive(Debug)]
pub struct Circuit {
    /// log2 of the number of table rows.
    pub k: u32,
    /// Fixed number of table rows: 2^k.
    pub num_rows: u64,
    /// Rows available for steps: the table minus the blinding reserve.
    pub usable_rows: u64,
    /// One assigned row per trace step, in trace order.
    pub rows: Vec<AssignedStep>,
    /// Trailing no-op rows padding the table to its usable capacity.
    pub padding_rows: u64,
}

impl Circuit {
    /// The table's dimensions are consistent: 2^k rows, all but the
    /// blinding reserve usable, and the assigned rows plus the padding
    /// fill the usable rows exactly.
    pub open spec fn wf(self) -> bool {
        &&& self.num_rows == pow2(self.k as nat)
        &&& self.num_rows > NUM_BLINDING_ROWS
        &&& self.usable_rows == self.num_rows - NUM_BLINDING_ROWS
        &&& self.rows@.len() + self.padding_rows == self.usable_rows
    }
}

/// The block fits the chosen table dimensions: the trace and its inputs
/// stay within the bucket's limits and within the usable rows. A k
/// below 3 leaves no room behind the blinding reserve.
pub open spec fn spec_fits_capacity(params: CircuitParameters, block: Block, k: u32) -> bool {
    &&& 3 <= k < 64
    &&& block.txs@.len() <= params.max_txs
    &&& spec_total_calldata(block.txs@) <= params.max_calldata
    &&& spec_total_bytecode(block.bytecodes@) <= params.max_bytecode
    &&& block.steps@.len() <= pow2(k as nat) - NUM_BLINDING_ROWS
}

/// Instantiate the circuit for one block: check the trace against the
/// bucket's capacity limits, build one gadget row per trace step in
/// order, and record the no-op padding filling the remaining usable
/// rows. A block over capacity yields a capacity error and never a
/// circuit; an inconsistent trace surfaces as a circuit-build or
/// proof-generation failure.
pub fn build_circuit(k: u32, params: &CircuitParameters, block: &Block) -> (r: Result<
    Circuit,
    ProverError,
>)
    ensures
        (r matches Ok(c)) <==> (spec_fits_capacity(*params, *block, k) && block_assignable(
            *block,
        )),
        r matches Ok(c) ==> ({
            &&& c.wf()
            &&& c.k == k
            &&& c.rows@.len() == block.steps@.len()
            &&& forall|i: int|
                0 <= i < c.rows@.len() ==> row_ok(*block, block.steps@[i], #[trigger] c.rows@[i])
        }),
        r matches Err(e) ==> (e == ProverError::Capacity <==> !spec_fits_capacity(
            *params,
            *block,
            k,
        )),
        r matches Err(e) ==> (e == ProverError::Capacity || e == ProverError::CircuitBuild || e
            == ProverError::ProofGeneration),
{
    if k < 3 || k >= 64 {
        return Err(ProverError::Capacity);
    }
    let num_rows = table_rows(k);
    proof {
        lemma2_to64();
        if k > 3 {
            lemma_pow2_strictly_increases(3, k as nat);
        }
    }
    let usable = num_rows - NUM_BLINDING_ROWS;
    if block.txs.len() as u64 > params.max_txs {
        return Err(ProverError::Capacity);
    }
    if !calldata_fits(&block.txs, params.max_calldata) {
        return Err(ProverError::Capacity);
    }
    if !bytecode_fits(&block.bytecodes, params.max_bytecode) {
        return Err(ProverError::Capacity);
    }
    if block.steps.len() as u64 > usable {
        return Err(ProverError::Capacity);
    }
    match assign_block(block) {
        Ok(rows) => {
            let padding = usable - rows.len() as u64;
            Ok(Circuit { k, num_rows, usable_rows: usable, rows, padding_rows: padding })
        },
        Err(e) => Err(e),
    }
}

/// Pipeline stage one: pick the parameter bucket for the gas estimate
/// and settle the table size, honouring a caller-supplied k override,
/// which takes precedence over the bucket's minimum.
pub fn plan_circuit(gas_used: u64, options: &ProofRequestOptions) -> (r: Result<
    (CircuitParameters, u32),
    ProverError,
>)
    ensures
        gas_used > MAX_BUCKET_GAS ==> r == Err::<(CircuitParameters, u32), ProverError>(
            ProverError::Capacity,
        ),
        gas_used <= MAX_BUCKET_GAS ==> (r matches Ok(pk) && pk.0 == spec_bucket(
            gas_used,
        ).unwrap() && pk.1 == (match options.k {
            Some(v) => v,
            None => spec_bucket(gas_used).unwrap().min_k,
        })),
{
    let params = select_circuit_params(gas_used)?;
    let k = match options.k {
        Some(v) => v,
        None => params.min_k,
    };
    Ok((params, k))
}

/// The fixed block used when deriving a static proving key: an empty
/// trace over the static chain id and gas limit, with unit randomness.
pub fn static_block() -> (b: Block)
    ensures
        b.chain_id == STATIC_CHAIN_ID,
        b.gas_limit == STATIC_BLOCK_GAS_LIMIT,
        b.randomness == 1,
        b.txs@.len() == 0,
        b.rws@.len() == 0,
        b.steps@.len() == 0,
        b.bytecodes@.len() == 0,
{
    Block {
        chain_id: STATIC_CHAIN_ID,
        randomness: 1,
        gas_limit: STATIC_BLOCK_GAS_LIMIT,
        txs: Vec::new(),
        rws: Vec::new(),
        steps: Vec::new(),
        bytecodes: Vec::new(),
    }
}

/// Package the produced proof bytes with the elapsed wall-clock time.
/// The state proof is reserved and always empty.
pub fn package_proofs(evm_proof: Vec<u8>, duration_ms: u64) -> (p: Proofs)
    ensures
        p.evm_proof@ == evm_proof@,
        p.state_proof@.len() == 0,
        p.duration == duration_ms,
{
    Proofs { state_proof: Vec::new(), evm_proof, duration: duration_ms }
}

} // verus!
