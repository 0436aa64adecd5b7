//! What the host's entry points decide before a VM is built: the EVM
//! revision it runs, and whether it gets a compilation worker.

use crate::worker::Compiler;
use vstd::prelude::*;

verus! {

/// The revision that stands in for a byte that names none.
pub const FALLBACK_SPEC_ID: u8 = 19;

/// Whether a byte names an EVM revision: the revisions are numbered from 0
/// to 19, and 255 stands for the latest.
pub open spec fn spec_names_revision(spec_id: u8) -> bool {
    spec_id <= 19 || spec_id == 255
}

/// `revm_primitives::SpecId::try_from_u8`, with the revision handed back as
/// its number: the byte itself where it is the number of a revision of the
/// enumeration, nothing otherwise. The enumeration is the one built without
/// the rollup revisions.
#[verifier::external_body]
fn spec_id_try_from_u8(spec_id: u8) -> (known: Option<u8>)
    ensures
        known == (if spec_names_revision(spec_id) {
            Some(spec_id)
        } else {
            None
        }),
{
    match revm_primitives::SpecId::try_from_u8(spec_id) {
        Some(spec) => Some(spec as u8),
        None => None,
    }
}

/// The revision that a VM runs when the host asks for `default_spec_id`:
/// that revision, or the fallback where the byte names none.
pub fn resolve_spec_id(default_spec_id: u8) -> (spec_id: u8)
    ensures
        spec_id == (if spec_names_revision(default_spec_id) {
            default_spec_id
        } else {
            FALLBACK_SPEC_ID
        }),
        spec_names_revision(spec_id),
{
    match spec_id_try_from_u8(default_spec_id) {
        Some(spec_id) => spec_id,
        None => FALLBACK_SPEC_ID,
    }
}

/// What a VM is built from.
pub struct VmConfig {
    /// The EVM revision, fixed for the VM's lifetime.
    pub spec_id: u8,
    /// The compilation worker, where the VM is tiered.
    pub compiler: Option<Compiler>,
}

/// The configuration of a VM that only interprets.
pub fn new_vm(default_spec_id: u8) -> (vm: VmConfig)
    ensures
        vm.spec_id == (if spec_names_revision(default_spec_id) {
            default_spec_id
        } else {
            FALLBACK_SPEC_ID
        }),
        vm.compiler.is_none(),
{
    VmConfig { spec_id: resolve_spec_id(default_spec_id), compiler: None }
}

/// The configuration of a tiered VM: its worker starts with nothing
/// waiting, running or given up.
pub fn new_vm_with_compiler(default_spec_id: u8, threshold: u64, max_concurrent_size: usize) -> (vm:
    VmConfig)
    ensures
        vm.spec_id == (if spec_names_revision(default_spec_id) {
            default_spec_id
        } else {
            FALLBACK_SPEC_ID
        }),
        vm.compiler.is_some(),
        vm.compiler.unwrap().wf(),
        vm.compiler.unwrap().spec_threshold() == threshold,
        vm.compiler.unwrap().spec_max_concurrent() == max_concurrent_size,
        vm.compiler.unwrap().queued().len() == 0,
        vm.compiler.unwrap().running().len() == 0,
        vm.compiler.unwrap().given_up().len() == 0,
        vm.compiler.unwrap().spec_failures() == 0,
{
    VmConfig {
        spec_id: resolve_spec_id(default_spec_id),
        compiler: Some(Compiler::new(threshold, max_concurrent_size)),
    }
}

} // verus!
