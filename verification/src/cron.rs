//! The periodic sweep over the artifact store: it promotes code whose stored
//! count has passed the threshold and that has not been compiled yet.

use crate::label::{mangle_hex, spec_mangle_hex};
use crate::store::{
    decode_count, spec_be_u64, spec_record_bytes, CodeHash, KeyPrefix, QueryKey, COUNT_LEN,
};
use vstd::prelude::*;

verus! {

/// Count that a contract must have passed to be compiled by the sweep.
pub const JIT_THRESHOLD: u64 = 10;

/// One compilation that the sweep asks for.
#[derive(Debug)]
pub struct CronJob {
    pub label: String,
    pub bytecode: Vec<u8>,
    pub bytecode_hash: CodeHash,
}

/// The sweep's settings.
#[derive(Clone, Copy, Debug)]
pub struct Cronner {
    /// Time between two sweeps, in milliseconds.
    pub interval: u64,
}

/// The count as the sweep reads it: one where no record is stored, zero
/// where the record is malformed, else what the record holds.
pub open spec fn spec_swept_count(stored: Option<Seq<u8>>) -> int {
    match stored {
        Some(bytes) => if bytes.len() == COUNT_LEN {
            spec_be_u64(bytes)
        } else {
            0
        },
        None => 1,
    }
}

/// Whether the sweep asks for a compilation at a key: the key is that of a
/// count, the count has passed the threshold, the bytecode is stored and no
/// label is.
pub open spec fn spec_promotes(
    prefix: KeyPrefix,
    count: Option<Seq<u8>>,
    has_bytecode: bool,
    has_label: bool,
) -> bool {
    prefix == KeyPrefix::Count && spec_swept_count(count) > JIT_THRESHOLD && has_bytecode
        && !has_label
}

impl Cronner {
    /// A sweep that runs every `interval` milliseconds.
    pub fn new(interval: u64) -> (cron: Cronner)
        ensures
            cron.interval == interval,
    {
        Cronner { interval }
    }

    /// Reads a stored count as the sweep does.
    pub fn swept_count(stored: &Option<Vec<u8>>) -> (count: u64)
        ensures
            count == spec_swept_count(spec_record_bytes(*stored)),
    {
        match stored {
            Some(bytes) => match decode_count(bytes.as_slice()) {
                Some(count) => count,
                None => 0,
            },
            None => 1,
        }
    }

    /// Decides what the sweep does at one key of the store, given the
    /// records that the store holds for the key's code: its count, its
    /// bytecode and its label.
    pub fn select(
        key: &QueryKey,
        count: Option<Vec<u8>>,
        bytecode: Option<Vec<u8>>,
        label: Option<Vec<u8>>,
    ) -> (job: Option<CronJob>)
        ensures
            job.is_some() <==> spec_promotes(
                key.prefix,
                spec_record_bytes(count),
                bytecode.is_some(),
                label.is_some(),
            ),
            job.is_some() ==> {
                &&& job.unwrap().label@ == spec_mangle_hex(key.hash@)
                &&& job.unwrap().bytecode == bytecode.unwrap()
                &&& job.unwrap().bytecode_hash == key.hash
            },
    {
        if !key.match_prefix(KeyPrefix::Count) {
            return None;
        }
        if Self::swept_count(&count) <= JIT_THRESHOLD {
            return None;
        }
        match bytecode {
            None => None,
            Some(code) => {
                if label.is_some() {
                    None
                } else {
                    let bytecode_hash: CodeHash = key.to_b256();
                    Some(
                        CronJob {
                            label: mangle_hex(bytecode_hash.as_slice()),
                            bytecode: code,
                            bytecode_hash,
                        },
                    )
                }
            },
        }
    }
}

} // verus!
