//! Validation harness for migrating a runtime's builtin programs to
//! loaded (upgradeable-loader) implementations.
//!
//! The library holds the decision logic of the harness: the program
//! catalog, the migration phase state machine, the epoch/slot
//! synchronizer model, the functional probe suite, the genesis plan for
//! the test cluster, and the differential conformance subsystem. All
//! I/O — RPC calls, subprocesses, the cluster itself — is performed by
//! a thin driver around the library, which executes the plans and
//! command invocations that the library produces and hands back the
//! observations that the library judges.

pub mod activator;
pub mod cmd;
pub mod codec;
pub mod command;
pub mod config_suite;
pub mod conformance;
pub mod dirs;
pub mod feature;
pub mod genesis;
pub mod harness;
pub mod output;
pub mod phase;
pub mod program;
pub mod probe;
pub mod replay;
pub mod sdk;
pub mod setup;
pub mod source_program;
pub mod sync;
pub mod text;
