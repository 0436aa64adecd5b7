//! The compilation worker's bookkeeping: a queue of requests, an admission
//! gate that bounds the compilations in progress, and the memory of code
//! that failed to compile.

use crate::label::{label_bytes, spec_label_bytes};
use crate::store::{
    lemma_key_bytes_injective, same_hash, spec_key_bytes, CodeHash, KeyPrefix, QueryKey,
};
use vstd::prelude::*;

verus! {

/// A request to compile one contract.
#[derive(Debug)]
pub struct CompileRequest {
    pub code_hash: CodeHash,
    pub bytecode: Vec<u8>,
}

/// How one compilation ended.
#[derive(Clone, Copy, Debug, PartialEq, Eq, Structural)]
pub enum CompileOutcome {
    /// The shared object was written and both of its records were put into
    /// the store.
    Published,
    /// The backend, the linker, the file system or the store failed.
    Failed,
    /// The store already held an artifact for the code: nothing was compiled.
    AlreadyPublished,
}

/// One record to put into the artifact store.
#[derive(Debug)]
pub struct StoreWrite {
    pub key: QueryKey,
    pub value: Vec<u8>,
}

/// Where the worker stands with one code hash.
#[derive(Clone, Copy, Debug, PartialEq, Eq, Structural)]
pub enum HashState {
    /// Neither waiting, nor being compiled, nor given up.
    Idle,
    /// Waiting in the queue.
    Queued,
    /// Being compiled.
    Running,
    /// Failed to compile; not tried again.
    Poisoned,
}

/// The worker: what waits, what runs, and what has been given up.
pub struct Compiler {
    threshold: u64,
    max_concurrent: usize,
    queue: Vec<CompileRequest>,
    in_flight: Vec<CodeHash>,
    poisoned: Vec<CodeHash>,
    failures: u64,
}

/// Whether `hashes` holds `h`.
pub open spec fn holds_hash(hashes: Seq<CodeHash>, h: Seq<u8>) -> bool {
    exists|i: int| 0 <= i < hashes.len() && (#[trigger] hashes[i])@ == h
}

/// The records that publish an artifact, in the order in which they are
/// written: the label first, the path last.
pub open spec fn spec_publication(h: CodeHash, path: Seq<u8>) -> Seq<
    (KeyPrefix, Seq<u8>, Seq<u8>),
> {
    seq![
        (KeyPrefix::SymbolLabel, h@, spec_label_bytes(h@)),
        (KeyPrefix::ArtifactPath, h@, path),
    ]
}

/// What a list of writes puts into the store: prefix, hash and value of each.
pub open spec fn spec_writes(writes: Seq<StoreWrite>) -> Seq<(KeyPrefix, Seq<u8>, Seq<u8>)> {
    Seq::new(writes.len(), |i: int| (writes[i].key.prefix, writes[i].key.hash@, writes[i].value@))
}

/// Position of `h` in `hashes`, if it is there.
fn position_of(hashes: &Vec<CodeHash>, h: &CodeHash) -> (at: Option<usize>)
    ensures
        at.is_some() <==> holds_hash(hashes@, h@),
        at.is_some() ==> at.unwrap() < hashes@.len() && hashes@[at.unwrap() as int]@ == h@,
{
    let mut i: usize = 0;
    while i < hashes.len()
        invariant
            i <= hashes@.len(),
            forall|j: int| 0 <= j < i ==> (#[trigger] hashes@[j])@ != h@,
        decreases hashes@.len() - i,
    {
        if same_hash(&hashes[i], h) {
            return Some(i);
        }
        i += 1;
    }
    None
}

impl Compiler {
    /// Execution count at which code is handed to the worker.
    pub closed spec fn spec_threshold(&self) -> u64 {
        self.threshold
    }

    /// Ceiling on the compilations in progress.
    pub closed spec fn spec_max_concurrent(&self) -> usize {
        self.max_concurrent
    }

    /// The requests that wait, oldest first.
    pub closed spec fn queued(&self) -> Seq<CompileRequest> {
        self.queue@
    }

    /// The hashes of the code being compiled.
    pub closed spec fn running(&self) -> Seq<CodeHash> {
        self.in_flight@
    }

    /// The hashes of the code that failed to compile.
    pub closed spec fn given_up(&self) -> Seq<CodeHash> {
        self.poisoned@
    }

    /// Number of failed compilations, for the host.
    pub closed spec fn spec_failures(&self) -> u64 {
        self.failures
    }

    /// Whether a request for `h` waits in the queue.
    pub open spec fn is_queued(&self, h: Seq<u8>) -> bool {
        exists|i: int|
            0 <= i < self.queued().len() && (#[trigger] self.queued()[i]).code_hash@ == h
    }

    /// The waiting requests, oldest first: the hash and the bytecode of each.
    pub open spec fn requests(&self) -> Seq<(Seq<u8>, Seq<u8>)> {
        Seq::new(
            self.queued().len(),
            |i: int| (self.queued()[i].code_hash@, self.queued()[i].bytecode@),
        )
    }

    /// Whether the code with hash `h` is being compiled.
    pub open spec fn is_running(&self, h: Seq<u8>) -> bool {
        holds_hash(self.running(), h)
    }

    /// Whether the code with hash `h` failed to compile.
    pub open spec fn is_poisoned(&self, h: Seq<u8>) -> bool {
        holds_hash(self.given_up(), h)
    }

    /// Where the worker stands with `h`.
    pub open spec fn state_of(&self, h: Seq<u8>) -> HashState {
        if self.is_poisoned(h) {
            HashState::Poisoned
        } else if self.is_running(h) {
            HashState::Running
        } else if self.is_queued(h) {
            HashState::Queued
        } else {
            HashState::Idle
        }
    }

    /// The worker's invariant: no more compilations in progress than the
    /// ceiling allows; no hash waits or runs twice, or both; poisoned code
    /// neither waits nor runs; every request has bytecode to compile.
    pub open spec fn wf(&self) -> bool {
        &&& self.running().len() <= self.spec_max_concurrent()
        &&& forall|i: int, j: int|
            0 <= i < j < self.queued().len() ==> (#[trigger] self.queued()[i]).code_hash@
                != (#[trigger] self.queued()[j]).code_hash@
        &&& forall|i: int, j: int|
            0 <= i < j < self.running().len() ==> (#[trigger] self.running()[i])@ != (
            #[trigger] self.running()[j])@
        &&& forall|i: int|
            0 <= i < self.queued().len() ==> {
                &&& !self.is_running((#[trigger] self.queued()[i]).code_hash@)
                &&& !self.is_poisoned(self.queued()[i].code_hash@)
                &&& self.queued()[i].bytecode@.len() > 0
            }
        &&& forall|i: int|
            0 <= i < self.running().len() ==> !self.is_poisoned(
                (#[trigger] self.running()[i])@,
            )
    }

    /// A worker with nothing waiting, running or given up.
    pub fn new(threshold: u64, max_concurrent: usize) -> (worker: Compiler)
        ensures
            worker.wf(),
            worker.spec_threshold() == threshold,
            worker.spec_max_concurrent() == max_concurrent,
            worker.queued().len() == 0,
            worker.running().len() == 0,
            worker.given_up().len() == 0,
            worker.spec_failures() == 0,
    {
        Compiler {
            threshold,
            max_concurrent,
            queue: Vec::new(),
            in_flight: Vec::new(),
            poisoned: Vec::new(),
            failures: 0,
        }
    }

    /// Position in the queue of the request for `h`, if there is one.
    fn queue_position(&self, h: &CodeHash) -> (at: Option<usize>)
        ensures
            at.is_some() <==> self.is_queued(h@),
            at.is_some() ==> at.unwrap() < self.queued().len(),
    {
        let mut i: usize = 0;
        while i < self.queue.len()
            invariant
                i <= self.queued().len(),
                forall|j: int| 0 <= j < i ==> (#[trigger] self.queued()[j]).code_hash@ != h@,
            decreases self.queued().len() - i,
        {
            if same_hash(&self.queue[i].code_hash, h) {
                return Some(i);
            }
            i += 1;
        }
        None
    }

    /// Returns the execution count at which code is handed to the worker.
    pub fn threshold(&self) -> (t: u64)
        ensures
            t == self.spec_threshold(),
    {
        self.threshold
    }

    /// Returns the ceiling on the compilations in progress.
    pub fn max_concurrent(&self) -> (m: usize)
        ensures
            m == self.spec_max_concurrent(),
    {
        self.max_concurrent
    }

    /// Returns the number of failed compilations.
    pub fn failures(&self) -> (n: u64)
        ensures
            n == self.spec_failures(),
    {
        self.failures
    }

    /// Returns the request at position `i` of the queue, where there is one.
    pub fn queued_request(&self, i: usize) -> (req: Option<&CompileRequest>)
        ensures
            req.is_some() <==> i < self.queued().len(),
            req.is_some() ==> *req.unwrap() == self.queued()[i as int],
    {
        if i < self.queue.len() {
            Some(&self.queue[i])
        } else {
            None
        }
    }

    /// Number of compilations in progress.
    pub fn in_flight_count(&self) -> (n: usize)
        ensures
            n == self.running().len(),
    {
        self.in_flight.len()
    }

    /// Number of requests that wait.
    pub fn queued_count(&self) -> (n: usize)
        ensures
            n == self.queued().len(),
    {
        self.queue.len()
    }

    /// Reports where the worker stands with `h`.
    pub fn state(&self, h: &CodeHash) -> (s: HashState)
        ensures
            s == self.state_of(h@),
    {
        if position_of(&self.poisoned, h).is_some() {
            HashState::Poisoned
        } else if position_of(&self.in_flight, h).is_some() {
            HashState::Running
        } else if self.queue_position(h).is_some() {
            HashState::Queued
        } else {
            HashState::Idle
        }
    }

    /// Hands a contract to the worker. The request is taken, at the end of
    /// the queue, exactly when there is bytecode to compile and the hash
    /// neither waits, nor runs, nor has failed before; otherwise it is
    /// dropped and nothing changes.
    pub fn push_queue(&mut self, code_hash: CodeHash, bytecode: Vec<u8>) -> (accepted: bool)
        requires
            old(self).wf(),
        ensures
            final(self).wf(),
            accepted <==> bytecode@.len() > 0 && old(self).state_of(code_hash@) == HashState::Idle,
            accepted ==> final(self).queued() == old(self).queued().push(
                CompileRequest { code_hash, bytecode },
            ),
            accepted ==> final(self).requests() == old(self).requests().push(
                (code_hash@, bytecode@),
            ),
            accepted ==> final(self).state_of(code_hash@) == HashState::Queued,
            !accepted ==> final(self).queued() == old(self).queued(),
            final(self).running() == old(self).running(),
            final(self).given_up() == old(self).given_up(),
            final(self).spec_threshold() == old(self).spec_threshold(),
            final(self).spec_max_concurrent() == old(self).spec_max_concurrent(),
            final(self).spec_failures() == old(self).spec_failures(),
    {
        if bytecode.len() == 0 {
            return false;
        }
        match self.state(&code_hash) {
            HashState::Idle => {
                self.queue.push(CompileRequest { code_hash, bytecode });
                proof {
                    let last = self.queued().len() - 1;
                    assert(self.queued()[last].code_hash@ == code_hash@);
                    assert forall|i: int| 0 <= i < self.queued().len() implies {
                        &&& !self.is_running((#[trigger] self.queued()[i]).code_hash@)
                        &&& !self.is_poisoned(self.queued()[i].code_hash@)
                        &&& self.queued()[i].bytecode@.len() > 0
                    } by {
                        if i < last {
                            assert(self.queued()[i] == old(self).queued()[i]);
                        }
                    }
                    assert forall|i: int, j: int| 0 <= i < j < self.queued().len() implies (
                    #[trigger] self.queued()[i]).code_hash@ != (
                    #[trigger] self.queued()[j]).code_hash@ by {
                        assert(self.queued()[i] == old(self).queued()[i]);
                    }
                }
                true
            },
            _ => false,
        }
    }

    /// Admits the oldest waiting request, if the ceiling on compilations in
    /// progress leaves room for it.
    pub fn start_next(&mut self) -> (job: Option<CompileRequest>)
        requires
            old(self).wf(),
        ensures
            final(self).wf(),
            job.is_some() <==> old(self).queued().len() > 0 && old(self).running().len()
                < old(self).spec_max_concurrent(),
            job.is_some() ==> {
                &&& job.unwrap() == old(self).queued()[0]
                &&& final(self).queued() == old(self).queued().remove(0)
                &&& final(self).running() == old(self).running().push(job.unwrap().code_hash)
                &&& final(self).state_of(job.unwrap().code_hash@) == HashState::Running
            },
            job.is_none() ==> final(self).queued() == old(self).queued() && final(self).running()
                == old(self).running(),
            final(self).running().len() <= final(self).spec_max_concurrent(),
            final(self).given_up() == old(self).given_up(),
            final(self).spec_threshold() == old(self).spec_threshold(),
            final(self).spec_max_concurrent() == old(self).spec_max_concurrent(),
            final(self).spec_failures() == old(self).spec_failures(),
    {
        if self.queue.len() == 0 || self.in_flight.len() >= self.max_concurrent {
            return None;
        }
        let job: CompileRequest = self.queue.remove(0);
        self.in_flight.push(job.code_hash);
        proof {
            let h = job.code_hash@;
            let last = self.running().len() - 1;
            assert(self.running()[last]@ == h);
            assert forall|i: int| 0 <= i < self.queued().len() implies {
                &&& !self.is_running((#[trigger] self.queued()[i]).code_hash@)
                &&& !self.is_poisoned(self.queued()[i].code_hash@)
                &&& self.queued()[i].bytecode@.len() > 0
            } by {
                let g = self.queued()[i].code_hash@;
                if self.is_running(g) {
                    let k = choose|k: int|
                        0 <= k < self.running().len() && (#[trigger] self.running()[k])@ == g;
                    assert(k == last || old(self).running()[k]@ == g);
                }
            }
        }
        Some(job)
    }

    /// Returns the records that publish the artifact of `code_hash`, in the
    /// order in which they are to be put into the store: the label first,
    /// the path, by which readers find the artifact, last.
    pub fn publication(code_hash: &CodeHash, path: Vec<u8>) -> (writes: Vec<StoreWrite>)
        ensures
            spec_writes(writes@) == spec_publication(*code_hash, path@),
            writes@.len() == 2,
    {
        let mut writes: Vec<StoreWrite> = Vec::new();
        writes.push(
            StoreWrite {
                key: QueryKey::with_prefix(*code_hash, KeyPrefix::SymbolLabel),
                value: label_bytes(code_hash.as_slice()),
            },
        );
        writes.push(
            StoreWrite {
                key: QueryKey::with_prefix(*code_hash, KeyPrefix::ArtifactPath),
                value: path,
            },
        );
        writes
    }

    /// Takes note of how the compilation of `code_hash` ended, and tells
    /// whether the hash was being compiled at all. The compilation is no
    /// longer in progress; a failure poisons the hash. A hash that is not
    /// being compiled changes nothing.
    pub fn finish(&mut self, code_hash: &CodeHash, outcome: CompileOutcome) -> (known: bool)
        requires
            old(self).wf(),
        ensures
            final(self).wf(),
            known == old(self).is_running(code_hash@),
            final(self).queued() == old(self).queued(),
            final(self).spec_threshold() == old(self).spec_threshold(),
            final(self).spec_max_concurrent() == old(self).spec_max_concurrent(),
            !known ==> {
                &&& final(self).running() == old(self).running()
                &&& final(self).given_up() == old(self).given_up()
                &&& final(self).spec_failures() == old(self).spec_failures()
            },
            known ==> {
                &&& !final(self).is_running(code_hash@)
                &&& exists|k: int|
                    0 <= k < old(self).running().len() && (#[trigger] old(self).running()[k])@
                        == code_hash@ && final(self).running() == old(self).running().remove(k)
                &&& if outcome == CompileOutcome::Failed {
                    &&& final(self).given_up() == old(self).given_up().push(*code_hash)
                    &&& final(self).spec_failures() == if old(self).spec_failures() == u64::MAX {
                        u64::MAX
                    } else {
                        (old(self).spec_failures() + 1) as u64
                    }
                    &&& final(self).state_of(code_hash@) == HashState::Poisoned
                } else {
                    &&& final(self).given_up() == old(self).given_up()
                    &&& final(self).spec_failures() == old(self).spec_failures()
                    &&& final(self).state_of(code_hash@) == HashState::Idle
                }
            },
    {
        let at: Option<usize> = position_of(&self.in_flight, code_hash);
        match at {
            None => false,
            Some(k) => {
                let _ = self.in_flight.remove(k);
                proof {
                    assert forall|i: int| 0 <= i < self.running().len() implies (
                    #[trigger] self.running()[i])@ != code_hash@ by {
                        assert(self.running()[i] == old(self).running()[if i < k {
                            i
                        } else {
                            i + 1
                        }]);
                    }
                    assert(!self.is_queued(code_hash@)) by {
                        if self.is_queued(code_hash@) {
                            let i = choose|i: int|
                                0 <= i < self.queued().len() && (
                                #[trigger] self.queued()[i]).code_hash@ == code_hash@;
                            assert(old(self).is_running(old(self).queued()[i].code_hash@));
                        }
                    }
                }
                match outcome {
                    CompileOutcome::Failed => {
                        let ghost before = self.given_up();
                        self.poisoned.push(*code_hash);
                        if self.failures < u64::MAX {
                            self.failures = self.failures + 1;
                        }
                        proof {
                            assert(self.given_up()[before.len() as int]@ == code_hash@);
                            assert forall|g: Seq<u8>|
                                self.is_poisoned(g) implies g == code_hash@ || old(
                                self,
                            ).is_poisoned(g) by {
                                let i = choose|i: int|
                                    0 <= i < self.given_up().len() && (
                                    #[trigger] self.given_up()[i])@ == g;
                                assert(i == before.len() || old(self).given_up()[i]@ == g);
                            }
                        }
                        true
                    },
                    _ => true,
                }
            },
        }
    }
}

/// The store after one record has been put.
pub open spec fn spec_put(
    store: Map<Seq<u8>, Seq<u8>>,
    write: (KeyPrefix, Seq<u8>, Seq<u8>),
) -> Map<Seq<u8>, Seq<u8>> {
    store.insert(spec_key_bytes(write.0, write.1), write.2)
}

/// Every artifact that a reader can see has its label: where the path of a
/// code hash is stored, its label is stored too.
pub open spec fn spec_labelled(store: Map<Seq<u8>, Seq<u8>>) -> bool {
    forall|h: Seq<u8>|
        h.len() == 32 && store.dom().contains(
            #[trigger] spec_key_bytes(KeyPrefix::ArtifactPath, h),
        ) ==> store.dom().contains(spec_key_bytes(KeyPrefix::SymbolLabel, h))
}

/// The worker never runs more compilations than its ceiling allows.
pub proof fn lemma_concurrency_cap(worker: Compiler)
    requires
        worker.wf(),
    ensures
        worker.running().len() <= worker.spec_max_concurrent(),
{
}

/// A reader of the store sees a label wherever it sees a path, before the
/// publication, between its two writes, and after it. Between the writes the
/// label may be there without the path.
pub proof fn lemma_publication_order(store: Map<Seq<u8>, Seq<u8>>, h: CodeHash, path: Seq<u8>)
    requires
        spec_labelled(store),
    ensures
        spec_labelled(spec_put(store, spec_publication(h, path)[0])),
        spec_labelled(
            spec_put(spec_put(store, spec_publication(h, path)[0]), spec_publication(h, path)[1]),
        ),
        spec_put(store, spec_publication(h, path)[0]).dom().contains(
            spec_key_bytes(KeyPrefix::SymbolLabel, h@),
        ),
        spec_put(
            spec_put(store, spec_publication(h, path)[0]),
            spec_publication(h, path)[1],
        ).dom().contains(spec_key_bytes(KeyPrefix::ArtifactPath, h@)),
{
    let first = spec_put(store, spec_publication(h, path)[0]);
    let second = spec_put(first, spec_publication(h, path)[1]);
    assert forall|g: Seq<u8>|
        g.len() == 32 && first.dom().contains(
            #[trigger] spec_key_bytes(KeyPrefix::ArtifactPath, g),
        ) implies first.dom().contains(spec_key_bytes(KeyPrefix::SymbolLabel, g)) by {
        lemma_key_bytes_injective(KeyPrefix::ArtifactPath, g, KeyPrefix::SymbolLabel, h@);
    }
    assert forall|g: Seq<u8>|
        g.len() == 32 && second.dom().contains(
            #[trigger] spec_key_bytes(KeyPrefix::ArtifactPath, g),
        ) implies second.dom().contains(spec_key_bytes(KeyPrefix::SymbolLabel, g)) by {
        if spec_key_bytes(KeyPrefix::ArtifactPath, g) == spec_key_bytes(
            KeyPrefix::ArtifactPath,
            h@,
        ) {
            lemma_key_bytes_injective(KeyPrefix::ArtifactPath, g, KeyPrefix::ArtifactPath, h@);
        }
    }
}

} // verus!
