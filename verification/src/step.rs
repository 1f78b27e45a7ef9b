//! Witness data model: read/write events, execution steps, transactions
//! and the witness block, together with the declared step-state
//! transitions.
//!
//! A read/write event is one recorded state access tagged with a
//! strictly-increasing counter; events are immutable once recorded and
//! owned by the witness block, and gadgets reference them by index. An
//! execution step is one row of the trace; it is created once during
//! witness construction and consumed read-only by gadgets.

use vstd::prelude::*;

use crate::word::Word;

verus! {

/// The closed set of execution states: one per supported opcode family
/// plus the control states that begin a transaction and end the block.
#[derive(Debug, Clone, Copy, PartialEq, Eq, Structural)]
pub enum ExecutionState {
    /// Entry state of a transaction.
    BeginTx,
    /// The signed-comparator state serving the SLT and SGT opcodes.
    Scmp,
    /// Terminal state of the whole block.
    EndBlock,
}

/// How one global counter is declared to move between consecutive steps.
#[derive(Debug, Clone, Copy, PartialEq, Eq, Structural)]
pub enum Transition {
    /// The counter must keep its value.
    Same,
    /// The counter must advance by exactly the given delta.
    Delta(u64),
    /// The counter is left unconstrained.
    Any,
}

/// The declared movement of each global counter between a step and its
/// successor. A gadget's declared transition and its assigned witness
/// deltas must agree exactly; disagreement is a circuit-build defect.
#[derive(Debug, Clone, Copy, PartialEq, Eq, Structural)]
pub struct StepStateTransition {
    /// Declared movement of the read/write counter.
    pub rw_counter: Transition,
    /// Declared movement of the program counter.
    pub program_counter: Transition,
    /// Declared movement of the stack pointer.
    pub stack_pointer: Transition,
}

/// Whether a counter movement from `before` to `after` exhibits the
/// declared transition.
pub open spec fn transition_matches(t: Transition, before: u64, after: u64) -> bool {
    match t {
        Transition::Same => after == before,
        Transition::Delta(d) => after == before + d,
        Transition::Any => true,
    }
}

/// Decide whether a counter movement exhibits the declared transition.
pub fn check_transition(t: &Transition, before: u64, after: u64) -> (r: bool)
    ensures
        r == transition_matches(*t, before, after),
{
    match t {
        Transition::Same => after == before,
        Transition::Delta(d) => after >= before && after - before == *d,
        Transition::Any => true,
    }
}

/// One recorded state access: a stack, memory, storage or call-context
/// operation tagged with its position in the global read/write log.
#[derive(Debug)]
pub struct RwEntry {
    /// The strictly-increasing read/write counter of this access.
    pub counter: u64,
    /// Whether the access writes (true) or reads (false).
    pub is_write: bool,
    /// The resource key, such as the stack slot addressed.
    pub key: u64,
    /// The word read or written.
    pub value: Word,
}

impl RwEntry {
    /// The word this stack access read or wrote.
    pub fn stack_value(&self) -> (r: &Word)
        ensures
            r == &self.value,
    {
        &self.value
    }
}

/// One row of the execution trace: the opcode executed, the global
/// counters at entry, and the read/write events the step consumes and
/// produces.
#[derive(Debug)]
pub struct ExecStep {
    /// The execution state whose gadget serves this step.
    pub execution_state: ExecutionState,
    /// The opcode byte executed.
    pub opcode: u8,
    /// Program counter at entry of the step.
    pub program_counter: u64,
    /// Stack pointer at entry of the step.
    pub stack_pointer: u64,
    /// Read/write counter at entry of the step.
    pub rw_counter: u64,
    /// The call context the step executes in.
    pub call_id: u64,
    /// Indices into the block's read/write log, in the order the step's
    /// accesses occur.
    pub rw_indices: Vec<usize>,
}

/// One transaction of the block: immutable input to circuit construction.
#[derive(Debug)]
pub struct Transaction {
    /// Sender address bytes.
    pub from: Vec<u8>,
    /// Recipient address bytes.
    pub to: Vec<u8>,
    /// Input calldata.
    pub call_data: Vec<u8>,
    /// Gas supplied with the transaction.
    pub gas: u64,
}

/// The witness block: the full input of one proof-generation run, owned
/// exclusively by that run. Gadgets bind to it by reference for the run's
/// lifetime and never mutate it.
#[derive(Debug)]
pub struct Block {
    /// Chain identifier.
    pub chain_id: u64,
    /// The randomness/challenge scalar used for lookup-argument encoding.
    pub randomness: u64,
    /// Gas limit of the block.
    pub gas_limit: u64,
    /// The ordered transactions of the block.
    pub txs: Vec<Transaction>,
    /// The full read/write event log.
    pub rws: Vec<RwEntry>,
    /// The execution steps of the whole trace, in order.
    pub steps: Vec<ExecStep>,
    /// The bytecodes the trace executes.
    pub bytecodes: Vec<Vec<u8>>,
}

/// The read/write log is well-formed when each entry's counter is below
/// its successor's.
pub open spec fn rw_log_wf(rws: Seq<RwEntry>) -> bool {
    forall|i: int| 0 <= i && i + 1 < rws.len() ==> (#[trigger] rws[i]).counter < rws[i + 1].counter
}

/// Law: in a well-formed log the counters strictly increase between any
/// two entries, however far apart: events are totally ordered by their
/// position in the log.
pub proof fn lemma_rw_counters_increase(rws: Seq<RwEntry>, i: int, j: int)
    requires
        rw_log_wf(rws),
        0 <= i < j < rws.len(),
    ensures
        rws[i].counter < rws[j].counter,
    decreases j - i,
{
    if i + 1 < j {
        lemma_rw_counters_increase(rws, i, j - 1);
    }
}

/// Decide whether a read/write log's counters strictly increase.
pub fn check_rw_log(rws: &Vec<RwEntry>) -> (r: bool)
    ensures
        r == rw_log_wf(rws@),
{
    let n = rws.len();
    if n == 0 {
        return true;
    }
    let mut i: usize = 0;
    while i < n - 1
        invariant
            n == rws@.len(),
            1 <= n,
            i <= n - 1,
            forall|j: int| 0 <= j && j + 1 < rws@.len() && j < i ==> (#[trigger] rws@[j]).counter
                < rws@[j + 1].counter,
        decreases n - i,
    {
        if rws[i].counter >= rws[i + 1].counter {
            return false;
        }
        i = i + 1;
    }
    true
}

} // verus!
