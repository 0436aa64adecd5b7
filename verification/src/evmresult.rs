//! The outcome of a transaction as the EVM reports it, and the form in
//! which it is handed to the host.

use crate::bytes::copy_bytes;
use vstd::prelude::*;

verus! {

/// Why a transaction ended well.
#[derive(Clone, Copy, Debug, PartialEq, Eq, Structural)]
pub enum SuccessReason {
    Stop,
    Return,
    SelfDestruct,
    EofReturnContract,
}

/// What ran out when a transaction ran out of gas.
#[derive(Clone, Copy, Debug, PartialEq, Eq, Structural)]
pub enum OutOfGasError {
    Basic,
    MemoryLimit,
    Memory,
    Precompile,
    InvalidOperand,
}

/// Why a transaction was halted.
#[derive(Clone, Copy, Debug, PartialEq, Eq, Structural)]
pub enum HaltReason {
    OutOfGas(OutOfGasError),
    OpcodeNotFound,
    InvalidFEOpcode,
    InvalidJump,
    NotActivated,
    StackUnderflow,
    StackOverflow,
    OutOfOffset,
    CreateCollision,
    PrecompileError,
    NonceOverflow,
    CreateContractSizeLimit,
    CreateContractStartingWithEF,
    CreateInitCodeSizeLimit,
    OverflowPayment,
    StateChangeDuringStaticCall,
    CallNotAllowedInsideStatic,
    OutOfFunds,
    CallTooDeep,
    EofAuxDataOverflow,
    EofAuxDataTooSmall,
    EOFFunctionStackOverflow,
    InvalidEXTCALLTarget,
}

/// What a transaction that ended well gave back.
#[derive(Clone, Debug)]
pub enum Output {
    /// The data returned by a call.
    Call(Vec<u8>),
    /// The code of a created contract, and its address where it has one.
    Create(Vec<u8>, Option<[u8; 20]>),
}

/// One log entry of a transaction.
#[derive(Clone, Debug)]
pub struct ExecutionLog {
    pub address: [u8; 20],
    pub topics: Vec<[u8; 32]>,
    pub data: Vec<u8>,
}

/// The outcome of a transaction.
#[allow(inconsistent_fields)]
#[derive(Clone, Debug)]
pub enum ExecutionResult {
    Success {
        reason: SuccessReason,
        gas_used: u64,
        gas_refunded: u64,
        logs: Vec<ExecutionLog>,
        output: Output,
    },
    Revert { gas_used: u64, output: Vec<u8> },
    Halt { reason: HaltReason, gas_used: u64 },
}

/// Why a transaction ended well, as the host knows it.
#[derive(Clone, Copy, Debug, PartialEq, Eq, Structural)]
pub enum SuccessReasonEnum {
    Stop,
    Return,
    SelfDestruct,
    EofReturnContract,
}

/// Why a transaction was halted, as the host knows it: one list, with a
/// reason of its own for each thing that can run out.
#[derive(Clone, Copy, Debug, PartialEq, Eq, Structural)]
pub enum HaltReasonEnum {
    OutOfGasBasic,
    OutOfGasMemoryLimit,
    OutOfGasMemory,
    OutOfGasPrecompile,
    OutOfGasInvalidOperand,
    OpcodeNotFound,
    InvalidFeOpcode,
    InvalidJump,
    NotActivated,
    StackUnderflow,
    StackOverflow,
    OutOfOffset,
    CreateCollision,
    PrecompileError,
    NonceOverflow,
    CreateContractSizeLimit,
    CreateContractStartingWithEf,
    CreateInitCodeSizeLimit,
    OverflowPayment,
    StateChangeDuringStaticCall,
    CallNotAllowedInsideStatic,
    OutOfFunds,
    CallTooDeep,
    EofAuxDataOverflow,
    EofAuxDataTooSmall,
    EofFunctionStackOverflow,
    InvalidExtcallTarget,
}

/// A log entry as the host gets it.
#[derive(Clone, Debug)]
pub struct Log {
    pub address: Vec<u8>,
    pub topics: Vec<Vec<u8>>,
    pub data: Vec<u8>,
}

/// What a transaction gave back, as the host gets it. A created contract
/// without an address is reported with the zero address.
#[derive(Clone, Debug)]
pub enum WireOutput {
    Call { call: Vec<u8> },
    Create { create: Vec<u8>, created_address: Vec<u8> },
}

/// The outcome of a transaction as the host gets it.
#[allow(inconsistent_fields)]
#[derive(Clone, Debug)]
pub enum EvmResult {
    Success {
        reason: SuccessReasonEnum,
        gas_used: u64,
        gas_refunded: u64,
        logs: Vec<Log>,
        output: WireOutput,
    },
    Revert { gas_used: u64, output: Vec<u8> },
    Halt { reason: HaltReasonEnum, gas_used: u64 },
}

/// The host's name for a reason of success.
pub open spec fn spec_success_reason(reason: SuccessReason) -> SuccessReasonEnum {
    match reason {
        SuccessReason::Stop => SuccessReasonEnum::Stop,
        SuccessReason::Return => SuccessReasonEnum::Return,
        SuccessReason::SelfDestruct => SuccessReasonEnum::SelfDestruct,
        SuccessReason::EofReturnContract => SuccessReasonEnum::EofReturnContract,
    }
}

/// The host's name for a reason of a halt.
pub open spec fn spec_halt_reason(reason: HaltReason) -> HaltReasonEnum {
    match reason {
        HaltReason::OutOfGas(OutOfGasError::Basic) => HaltReasonEnum::OutOfGasBasic,
        HaltReason::OutOfGas(OutOfGasError::MemoryLimit) => HaltReasonEnum::OutOfGasMemoryLimit,
        HaltReason::OutOfGas(OutOfGasError::Memory) => HaltReasonEnum::OutOfGasMemory,
        HaltReason::OutOfGas(OutOfGasError::Precompile) => HaltReasonEnum::OutOfGasPrecompile,
        HaltReason::OutOfGas(OutOfGasError::InvalidOperand) => {
            HaltReasonEnum::OutOfGasInvalidOperand
        },
        HaltReason::OpcodeNotFound => HaltReasonEnum::OpcodeNotFound,
        HaltReason::InvalidFEOpcode => HaltReasonEnum::InvalidFeOpcode,
        HaltReason::InvalidJump => HaltReasonEnum::InvalidJump,
        HaltReason::NotActivated => HaltReasonEnum::NotActivated,
        HaltReason::StackUnderflow => HaltReasonEnum::StackUnderflow,
        HaltReason::StackOverflow => HaltReasonEnum::StackOverflow,
        HaltReason::OutOfOffset => HaltReasonEnum::OutOfOffset,
        HaltReason::CreateCollision => HaltReasonEnum::CreateCollision,
        HaltReason::PrecompileError => HaltReasonEnum::PrecompileError,
        HaltReason::NonceOverflow => HaltReasonEnum::NonceOverflow,
        HaltReason::CreateContractSizeLimit => HaltReasonEnum::CreateContractSizeLimit,
        HaltReason::CreateContractStartingWithEF => HaltReasonEnum::CreateContractStartingWithEf,
        HaltReason::CreateInitCodeSizeLimit => HaltReasonEnum::CreateInitCodeSizeLimit,
        HaltReason::OverflowPayment => HaltReasonEnum::OverflowPayment,
        HaltReason::StateChangeDuringStaticCall => HaltReasonEnum::StateChangeDuringStaticCall,
        HaltReason::CallNotAllowedInsideStatic => HaltReasonEnum::CallNotAllowedInsideStatic,
        HaltReason::OutOfFunds => HaltReasonEnum::OutOfFunds,
        HaltReason::CallTooDeep => HaltReasonEnum::CallTooDeep,
        HaltReason::EofAuxDataOverflow => HaltReasonEnum::EofAuxDataOverflow,
        HaltReason::EofAuxDataTooSmall => HaltReasonEnum::EofAuxDataTooSmall,
        HaltReason::EOFFunctionStackOverflow => HaltReasonEnum::EofFunctionStackOverflow,
        HaltReason::InvalidEXTCALLTarget => HaltReasonEnum::InvalidExtcallTarget,
    }
}

/// The address reported for a created contract: its own, or twenty zero
/// bytes where it has none.
pub open spec fn spec_created_address(address: Option<[u8; 20]>) -> Seq<u8> {
    match address {
        Some(addr) => addr@,
        None => Seq::new(20, |i: int| 0u8),
    }
}

/// The topics of a log entry, each as its bytes.
pub open spec fn spec_topics(topics: Seq<[u8; 32]>) -> Seq<Seq<u8>> {
    Seq::new(topics.len(), |i: int| topics[i]@)
}

/// A log entry as address, topics and data.
pub open spec fn spec_log(log: ExecutionLog) -> (Seq<u8>, Seq<Seq<u8>>, Seq<u8>) {
    (log.address@, spec_topics(log.topics@), log.data@)
}

/// The log entries of a transaction, in their order.
pub open spec fn spec_logs(logs: Seq<ExecutionLog>) -> Seq<(Seq<u8>, Seq<Seq<u8>>, Seq<u8>)> {
    Seq::new(logs.len(), |i: int| spec_log(logs[i]))
}

impl Log {
    /// The entry as address, topics and data.
    pub open spec fn view(&self) -> (Seq<u8>, Seq<Seq<u8>>, Seq<u8>) {
        (self.address@, Seq::new(self.topics@.len(), |i: int| self.topics@[i]@), self.data@)
    }
}

/// Log entries of the host as address, topics and data, in their order.
pub open spec fn spec_wire_logs(logs: Seq<Log>) -> Seq<(Seq<u8>, Seq<Seq<u8>>, Seq<u8>)> {
    Seq::new(logs.len(), |i: int| logs[i].view())
}

/// Returns the host's name for a reason of success.
pub fn success_reason(reason: SuccessReason) -> (wire: SuccessReasonEnum)
    ensures
        wire == spec_success_reason(reason),
{
    match reason {
        SuccessReason::Stop => SuccessReasonEnum::Stop,
        SuccessReason::Return => SuccessReasonEnum::Return,
        SuccessReason::SelfDestruct => SuccessReasonEnum::SelfDestruct,
        SuccessReason::EofReturnContract => SuccessReasonEnum::EofReturnContract,
    }
}

/// Returns the host's name for a reason of a halt.
pub fn halt_reason(reason: HaltReason) -> (wire: HaltReasonEnum)
    ensures
        wire == spec_halt_reason(reason),
{
    match reason {
        HaltReason::OutOfGas(OutOfGasError::Basic) => HaltReasonEnum::OutOfGasBasic,
        HaltReason::OutOfGas(OutOfGasError::MemoryLimit) => HaltReasonEnum::OutOfGasMemoryLimit,
        HaltReason::OutOfGas(OutOfGasError::Memory) => HaltReasonEnum::OutOfGasMemory,
        HaltReason::OutOfGas(OutOfGasError::Precompile) => HaltReasonEnum::OutOfGasPrecompile,
        HaltReason::OutOfGas(OutOfGasError::InvalidOperand) => {
            HaltReasonEnum::OutOfGasInvalidOperand
        },
        HaltReason::OpcodeNotFound => HaltReasonEnum::OpcodeNotFound,
        HaltReason::InvalidFEOpcode => HaltReasonEnum::InvalidFeOpcode,
        HaltReason::InvalidJump => HaltReasonEnum::InvalidJump,
        HaltReason::NotActivated => HaltReasonEnum::NotActivated,
        HaltReason::StackUnderflow => HaltReasonEnum::StackUnderflow,
        HaltReason::StackOverflow => HaltReasonEnum::StackOverflow,
        HaltReason::OutOfOffset => HaltReasonEnum::OutOfOffset,
        HaltReason::CreateCollision => HaltReasonEnum::CreateCollision,
        HaltReason::PrecompileError => HaltReasonEnum::PrecompileError,
        HaltReason::NonceOverflow => HaltReasonEnum::NonceOverflow,
        HaltReason::CreateContractSizeLimit => HaltReasonEnum::CreateContractSizeLimit,
        HaltReason::CreateContractStartingWithEF => HaltReasonEnum::CreateContractStartingWithEf,
        HaltReason::CreateInitCodeSizeLimit => HaltReasonEnum::CreateInitCodeSizeLimit,
        HaltReason::OverflowPayment => HaltReasonEnum::OverflowPayment,
        HaltReason::StateChangeDuringStaticCall => HaltReasonEnum::StateChangeDuringStaticCall,
        HaltReason::CallNotAllowedInsideStatic => HaltReasonEnum::CallNotAllowedInsideStatic,
        HaltReason::OutOfFunds => HaltReasonEnum::OutOfFunds,
        HaltReason::CallTooDeep => HaltReasonEnum::CallTooDeep,
        HaltReason::EofAuxDataOverflow => HaltReasonEnum::EofAuxDataOverflow,
        HaltReason::EofAuxDataTooSmall => HaltReasonEnum::EofAuxDataTooSmall,
        HaltReason::EOFFunctionStackOverflow => HaltReasonEnum::EofFunctionStackOverflow,
        HaltReason::InvalidEXTCALLTarget => HaltReasonEnum::InvalidExtcallTarget,
    }
}

/// Returns the address reported for a created contract.
pub fn created_address(address: Option<[u8; 20]>) -> (bytes: Vec<u8>)
    ensures
        bytes@ == spec_created_address(address),
{
    match address {
        Some(addr) => copy_bytes(addr.as_slice()),
        None => {
            let zero: [u8; 20] = [0u8; 20];
            copy_bytes(zero.as_slice())
        },
    }
}

/// Returns a log entry as the host gets it.
pub fn wire_log(log: &ExecutionLog) -> (wire: Log)
    ensures
        wire.view() == spec_log(*log),
{
    let mut topics: Vec<Vec<u8>> = Vec::with_capacity(log.topics.len());
    let mut i: usize = 0;
    while i < log.topics.len()
        invariant
            i <= log.topics@.len(),
            topics@.len() == i,
            forall|j: int| 0 <= j < i ==> (#[trigger] topics@[j])@ == log.topics@[j]@,
        decreases log.topics@.len() - i,
    {
        topics.push(copy_bytes(log.topics[i].as_slice()));
        i += 1;
    }
    let wire = Log {
        address: copy_bytes(log.address.as_slice()),
        topics,
        data: copy_bytes(log.data.as_slice()),
    };
    wire
}

/// Returns what a transaction gave back as the host gets it.
pub fn wire_output(output: Output) -> (wire: WireOutput)
    ensures
        match output {
            Output::Call(bytes) => wire == (WireOutput::Call { call: bytes }),
            Output::Create(bytes, address) => match wire {
                WireOutput::Create { create, created_address } => create == bytes
                    && created_address@ == spec_created_address(address),
                WireOutput::Call { .. } => false,
            },
        },
{
    match output {
        Output::Call(bytes) => WireOutput::Call { call: bytes },
        Output::Create(bytes, address) => WireOutput::Create {
            create: bytes,
            created_address: created_address(address),
        },
    }
}

/// Returns the outcome of a transaction as the host gets it: the same kind
/// of outcome with the same gas figures, the reason under the host's name,
/// the log entries in their order, and what was given back.
pub fn evm_result(result: ExecutionResult) -> (wire: EvmResult)
    ensures
        match result {
            ExecutionResult::Success {
                reason,
                gas_used,
                gas_refunded,
                logs,
                output,
            } => match wire {
                EvmResult::Success {
                    reason: wire_reason,
                    gas_used: wire_gas_used,
                    gas_refunded: wire_gas_refunded,
                    logs: wire_logs,
                    output: wire_out,
                } => {
                    &&& wire_reason == spec_success_reason(reason)
                    &&& wire_gas_used == gas_used
                    &&& wire_gas_refunded == gas_refunded
                    &&& spec_wire_logs(wire_logs@) == spec_logs(logs@)
                    &&& match output {
                        Output::Call(bytes) => wire_out == (WireOutput::Call { call: bytes }),
                        Output::Create(bytes, address) => match wire_out {
                            WireOutput::Create { create, created_address } => create == bytes
                                && created_address@ == spec_created_address(address),
                            WireOutput::Call { .. } => false,
                        },
                    }
                },
                _ => false,
            },
            ExecutionResult::Revert { gas_used, output } => wire == (EvmResult::Revert {
                gas_used,
                output,
            }),
            ExecutionResult::Halt { reason, gas_used } => wire == (EvmResult::Halt {
                reason: spec_halt_reason(reason),
                gas_used,
            }),
        },
{
    match result {
        ExecutionResult::Success { reason, gas_used, gas_refunded, logs, output } => {
            let mut wire_logs: Vec<Log> = Vec::with_capacity(logs.len());
            let mut i: usize = 0;
            while i < logs.len()
                invariant
                    i <= logs@.len(),
                    wire_logs@.len() == i,
                    forall|j: int|
                        0 <= j < i ==> (#[trigger] wire_logs@[j]).view() == spec_log(logs@[j]),
                decreases logs@.len() - i,
            {
                wire_logs.push(wire_log(&logs[i]));
                i += 1;
            }
            EvmResult::Success {
                reason: success_reason(reason),
                gas_used,
                gas_refunded,
                logs: wire_logs,
                output: wire_output(output),
            }
        },
        ExecutionResult::Revert { gas_used, output } => EvmResult::Revert { gas_used, output },
        ExecutionResult::Halt { reason, gas_used } => EvmResult::Halt {
            reason: halt_reason(reason),
            gas_used,
        },
    }
}

} // verus!
