//! Tiered execution substrate for an embedded EVM: the hotness tracker, the
//! keys and records of the artifact store, the compilation worker's admission
//! rules, the dispatch decision of the frame interposer, and the FastLZ
//! compressed-length estimator used by the rollup-cost path.

pub mod access_path;
pub mod aot;
pub mod block;
pub mod bytes;
pub mod cron;
pub mod evmresult;
pub mod ext;
pub mod fast_lz;
pub mod gstorage;
pub mod interface;
pub mod label;
pub mod statedb;
pub mod store;
pub mod worker;
