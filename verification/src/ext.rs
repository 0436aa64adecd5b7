//! The per-frame interposer: it counts executions of each contract, hands
//! hot code to the compilation worker, and decides between the compiled
//! function and the interpreter.

use crate::bytes::copy_bytes;
use crate::label::{mangle_hex, spec_mangle_hex};
use crate::store::{
    decode_count, encode_count, spec_be_u64, spec_record_bytes, spec_stored_count, CodeHash,
    KeyPrefix, QueryKey,
};
use crate::worker::{Compiler, HashState, StoreWrite};
use vstd::prelude::*;

verus! {

/// How one frame is to be executed.
#[derive(Debug)]
pub enum Dispatch {
    /// By the compiled function `symbol` of the shared object at `path`.
    Native { path: Vec<u8>, symbol: String },
    /// By the interpreter.
    Interpret,
}

/// Where a contract stands on its way from the interpreter to native code.
#[derive(Clone, Copy, Debug, PartialEq, Eq, Structural)]
pub enum CodeState {
    /// Never executed.
    Unknown,
    /// Executed this many times.
    Counting(u64),
    /// Handed to the worker, not published yet.
    Queued,
    /// Compiled; its artifact is in the store.
    Published,
    /// Failed to compile: interpreted from now on.
    Poisoned,
}

/// The state of a contract, from what the store and the worker hold for it.
/// A stored path publishes the artifact whatever else is known; without one
/// the worker's memory decides, and where the worker knows nothing of the
/// code the stored count does.
pub open spec fn spec_code_state(
    stored: Option<Seq<u8>>,
    worker: HashState,
    has_path: bool,
) -> CodeState {
    if has_path {
        CodeState::Published
    } else if worker == HashState::Poisoned {
        CodeState::Poisoned
    } else if worker == HashState::Queued || worker == HashState::Running {
        CodeState::Queued
    } else if stored.is_some() {
        CodeState::Counting(spec_stored_count(stored) as u64)
    } else {
        CodeState::Unknown
    }
}

/// The count after one more execution; it stays at the largest count once
/// that is reached.
pub open spec fn spec_next_count(count: int) -> int {
    if count >= u64::MAX {
        u64::MAX as int
    } else {
        count + 1
    }
}

/// Whether the execution that finds the count at `count` is the one that
/// reaches the threshold.
pub open spec fn spec_crosses(count: int, threshold: int) -> bool {
    count < u64::MAX && count + 1 == threshold
}

/// Whether an execution hands the code to the worker: it is the one that
/// reaches the threshold, there is bytecode to compile, and the worker
/// neither holds the code nor has given it up.
pub open spec fn spec_hands_over(
    count: int,
    threshold: int,
    bytecode: Seq<u8>,
    state: HashState,
) -> bool {
    spec_crosses(count, threshold) && bytecode.len() > 0 && state == HashState::Idle
}

/// Reads the stored count: zero where the record is missing or malformed.
pub fn stored_count(stored: &Option<Vec<u8>>) -> (count: u64)
    ensures
        count == spec_stored_count(spec_record_bytes(*stored)),
{
    match stored {
        Some(bytes) => match decode_count(bytes.as_slice()) {
            Some(count) => count,
            None => 0,
        },
        None => 0,
    }
}

/// What the interposer carries from frame to frame: the compilation worker.
pub struct ExternalContext {
    pub compiler: Compiler,
}

impl ExternalContext {
    /// An interposer that feeds `compiler`.
    pub fn new(compiler: Compiler) -> (ctx: ExternalContext)
        ensures
            ctx.compiler == compiler,
    {
        Self { compiler }
    }

    /// Counts one execution of the code with hash `code_hash`. `stored` is
    /// the count record as the store holds it; the result is the record to
    /// put back, one higher. The execution that makes the count equal to the
    /// threshold hands the code to the worker, and no other does.
    pub fn update_bytecode_reference(
        &mut self,
        code_hash: CodeHash,
        bytecode: &[u8],
        stored: Option<Vec<u8>>,
    ) -> (write: StoreWrite)
        requires
            old(self).compiler.wf(),
        ensures
            final(self).compiler.wf(),
            write.key.prefix == KeyPrefix::Count,
            write.key.hash == code_hash,
            write.value@.len() == 8,
            spec_be_u64(write.value@) == spec_next_count(
                spec_stored_count(spec_record_bytes(stored)),
            ),
            final(self).compiler.running() == old(self).compiler.running(),
            final(self).compiler.given_up() == old(self).compiler.given_up(),
            final(self).compiler.spec_threshold() == old(self).compiler.spec_threshold(),
            final(self).compiler.spec_max_concurrent() == old(self).compiler.spec_max_concurrent(),
            final(self).compiler.spec_failures() == old(self).compiler.spec_failures(),
            spec_hands_over(
                spec_stored_count(spec_record_bytes(stored)),
                old(self).compiler.spec_threshold() as int,
                bytecode@,
                old(self).compiler.state_of(code_hash@),
            ) ==> {
                &&& final(self).compiler.requests() == old(self).compiler.requests().push(
                    (code_hash@, bytecode@),
                )
                &&& final(self).compiler.state_of(code_hash@) == HashState::Queued
            },
            !spec_hands_over(
                spec_stored_count(spec_record_bytes(stored)),
                old(self).compiler.spec_threshold() as int,
                bytecode@,
                old(self).compiler.state_of(code_hash@),
            ) ==> final(self).compiler.queued() == old(self).compiler.queued(),
    {
        let count: u64 = stored_count(&stored);
        let new_count: u64 = if count < u64::MAX {
            count + 1
        } else {
            count
        };
        if count < u64::MAX && new_count == self.compiler.threshold() {
            let owned: Vec<u8> = copy_bytes(bytecode);
            let _ = self.compiler.push_queue(code_hash, owned);
        }
        let value: [u8; 8] = encode_count(new_count);
        StoreWrite {
            key: QueryKey::with_prefix(code_hash, KeyPrefix::Count),
            value: copy_bytes(value.as_slice()),
        }
    }

    /// Tells where the code with hash `code_hash` stands, given its count
    /// record as the store holds it and whether the store holds its path.
    pub fn code_state(
        &self,
        code_hash: &CodeHash,
        stored: &Option<Vec<u8>>,
        has_path: bool,
    ) -> (state: CodeState)
        ensures
            state == spec_code_state(
                spec_record_bytes(*stored),
                self.compiler.state_of(code_hash@),
                has_path,
            ),
    {
        if has_path {
            return CodeState::Published;
        }
        match self.compiler.state(code_hash) {
            HashState::Poisoned => CodeState::Poisoned,
            HashState::Queued => CodeState::Queued,
            HashState::Running => CodeState::Queued,
            HashState::Idle => if stored.is_some() {
                CodeState::Counting(stored_count(stored))
            } else {
                CodeState::Unknown
            },
        }
    }

    /// Decides how the frame of the code with hash `code_hash` is executed.
    /// `so_path` is the path record as the store holds it, `None` where it is
    /// missing or could not be read: only a published artifact is dispatched
    /// to, under the label derived from the hash.
    pub fn get_function(&self, code_hash: CodeHash, so_path: Option<Vec<u8>>) -> (dispatch:
        Dispatch)
        ensures
            so_path.is_none() ==> dispatch == Dispatch::Interpret,
            so_path.is_some() ==> match dispatch {
                Dispatch::Native { path, symbol } => path == so_path.unwrap() && symbol@
                    == spec_mangle_hex(code_hash@),
                Dispatch::Interpret => false,
            },
    {
        match so_path {
            Some(path) => Dispatch::Native { path, symbol: mangle_hex(code_hash.as_slice()) },
            None => Dispatch::Interpret,
        }
    }
}

/// Among the executions of one contract, each of which finds a different
/// count, at most one reaches the threshold.
pub proof fn lemma_single_crossing(first: int, second: int, threshold: int)
    requires
        first != second,
    ensures
        !(spec_crosses(first, threshold) && spec_crosses(second, threshold)),
{
}

/// Counted from a missing record, the execution number `k` of a contract
/// finds the count at `k - 1`; it is the one that reaches the threshold
/// exactly when `k` is the threshold. So none of the executions before the
/// threshold hands the code to the worker, and the one at the threshold does.
pub proof fn lemma_crossing_at_threshold(k: int, threshold: int)
    requires
        1 <= k <= u64::MAX,
    ensures
        spec_crosses(k - 1, threshold) <==> k == threshold,
{
}

/// Published is the only state under which a frame is dispatched to native
/// code: a contract is published exactly when the store holds its path.
pub proof fn lemma_native_only_when_published(
    stored: Option<Seq<u8>>,
    worker: HashState,
    has_path: bool,
)
    ensures
        spec_code_state(stored, worker, has_path) == CodeState::Published <==> has_path,
{
}

} // verus!
