//! The compiler driver's configuration and the settings that it hands to the
//! backend for one compilation.

use vstd::prelude::*;

verus! {

/// The EVM revision that code is compiled for by default.
pub const DEFAULT_SPEC_ID: u8 = 18;

/// How hard the backend optimizes.
#[derive(Clone, Copy, Debug, PartialEq, Eq, Structural)]
pub enum OptimizationLevel {
    /// No optimization.
    Off,
    /// Few optimizations.
    Less,
    /// The backend's usual set.
    Balanced,
    /// Everything the backend offers.
    Aggressive,
}

/// Options of the compiler driver.
#[derive(Clone, Copy, Debug, PartialEq, Eq, Structural)]
pub struct JitCfg {
    pub aot: bool,
    pub opt_level: OptimizationLevel,
    pub no_gas: bool,
    pub no_len_checks: bool,
    pub debug_assertions: bool,
    pub eof: bool,
    pub spec_id: u8,
}

/// Options of the ahead-of-time driver: those of [`JitCfg`].
pub type AotCfg = JitCfg;

impl Default for JitCfg {
    fn default() -> (cfg: Self)
        ensures
            cfg == (JitCfg {
                aot: true,
                opt_level: OptimizationLevel::Aggressive,
                no_gas: true,
                no_len_checks: true,
                debug_assertions: true,
                eof: false,
                spec_id: DEFAULT_SPEC_ID,
            }),
    {
        JitCfg {
            aot: true,
            opt_level: OptimizationLevel::Aggressive,
            no_gas: true,
            no_len_checks: true,
            debug_assertions: true,
            eof: false,
            spec_id: DEFAULT_SPEC_ID,
        }
    }
}

/// What the backend is told before it translates one contract.
#[derive(Clone, Copy, Debug, PartialEq, Eq, Structural)]
pub struct CompilerSettings {
    pub aot: bool,
    pub opt_level: OptimizationLevel,
    pub gas_metering: bool,
    pub stack_bound_checks: bool,
    pub frame_pointers: bool,
    pub debug_assertions: bool,
    pub validate_eof: bool,
    pub inspect_stack_length: bool,
    pub spec_id: u8,
}

/// The ahead-of-time compiler driver.
#[derive(Clone, Copy, Debug)]
pub struct RuntimeAot {
    pub cfg: AotCfg,
}

impl RuntimeAot {
    pub fn new(cfg: AotCfg) -> (driver: Self)
        ensures
            driver.cfg == cfg,
    {
        Self { cfg }
    }

    /// The settings of one compilation. Gas metering, the stack-length
    /// checks and the debug assertions follow the configuration; frame
    /// pointers, EOF validation and stack-length inspection are always on.
    pub open spec fn spec_settings(&self) -> CompilerSettings {
        CompilerSettings {
            aot: self.cfg.aot,
            opt_level: self.cfg.opt_level,
            gas_metering: self.cfg.no_gas,
            stack_bound_checks: self.cfg.no_len_checks,
            frame_pointers: true,
            debug_assertions: self.cfg.debug_assertions,
            validate_eof: true,
            inspect_stack_length: true,
            spec_id: self.cfg.spec_id,
        }
    }

    /// Returns the settings that the backend gets for one compilation.
    pub fn settings(&self) -> (s: CompilerSettings)
        ensures
            s == self.spec_settings(),
    {
        CompilerSettings {
            aot: self.cfg.aot,
            opt_level: self.cfg.opt_level,
            gas_metering: self.cfg.no_gas,
            stack_bound_checks: self.cfg.no_len_checks,
            frame_pointers: true,
            debug_assertions: self.cfg.debug_assertions,
            validate_eof: true,
            inspect_stack_length: true,
            spec_id: self.cfg.spec_id,
        }
    }
}

} // verus!
