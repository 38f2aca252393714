//! The catalog of the source-program driver: the earlier flavor of
//! the harness that preloads each program's replacement as an
//! upgradeable source program at genesis and migrates onto it. Its
//! runtime and feature identities come from the runtime's test-only
//! builtin prototypes, which the driver resolves; the library holds
//! the artifact paths and the per-program probe dispatch.

use vstd::prelude::*;

verus! {

/// One migratable builtin program of the source-program driver.
#[derive(Clone, Copy, Debug, PartialEq, Eq, Structural)]
pub enum Program {
    AddressLookupTable,
    Config,
    FeatureGate,
}

/// The path of the program's replacement artifact.
pub open spec fn spec_elf_path(p: Program) -> Seq<char> {
    match p {
        Program::AddressLookupTable => "./elfs/solana_address_lookup_table_program.so"@,
        Program::Config => "./elfs/solana_config_program.so"@,
        Program::FeatureGate => "./elfs/solana_feature_gate_program.so"@,
    }
}

/// The progress message printed where a program has no transaction
/// probe suite yet.
pub open spec fn spec_progress_message(p: Program) -> Seq<char> {
    match p {
        Program::AddressLookupTable => "Testing AddressLookupTableProgram"@,
        Program::Config => "Testing ConfigProgram"@,
        Program::FeatureGate => "Testing FeatureGateProgram"@,
    }
}

impl Program {
    /// The path of the program's replacement artifact.
    pub fn elf_path(&self) -> (r: &'static str)
        ensures
            r@ == spec_elf_path(*self),
    {
        match self {
            Program::AddressLookupTable => "./elfs/solana_address_lookup_table_program.so",
            Program::Config => "./elfs/solana_config_program.so",
            Program::FeatureGate => "./elfs/solana_feature_gate_program.so",
        }
    }

    /// Whether the program has a transaction probe suite of its own;
    /// the config program is the one that does.
    pub fn has_test_suite(&self) -> (r: bool)
        ensures
            r == (*self == Program::Config),
    {
        match self {
            Program::Config => true,
            _ => false,
        }
    }

    /// The progress message for a program without a probe suite.
    pub fn progress_message(&self) -> (r: &'static str)
        ensures
            r@ == spec_progress_message(*self),
    {
        match self {
            Program::AddressLookupTable => "Testing AddressLookupTableProgram",
            Program::Config => "Testing ConfigProgram",
            Program::FeatureGate => "Testing FeatureGateProgram",
        }
    }
}

} // verus!
