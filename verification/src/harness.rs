//! Per-program test harnesses: one unit type per catalog program,
//! each announcing its run through a shared trait. Programs whose
//! probes live elsewhere report a fixed message here.

use vstd::prelude::*;

verus! {

/// A per-program test harness.
pub trait Harness {
    /// The message the harness announces its run with.
    spec fn spec_message(&self) -> Seq<char>;

    /// Run the harness; the driver prints what it returns.
    fn test(&self) -> (r: String)
        ensures
            r@ == self.spec_message(),
    ;
}

/// The address-lookup-table program's harness.
pub struct AddressLookupTableProgramTestHarness;

impl Harness for AddressLookupTableProgramTestHarness {
    open spec fn spec_message(&self) -> Seq<char> {
        "Testing AddressLookupTableProgram"@
    }

    fn test(&self) -> (r: String) {
        String::from_str("Testing AddressLookupTableProgram")
    }
}

/// The config program's harness.
pub struct ConfigProgramTestHarness;

impl Harness for ConfigProgramTestHarness {
    open spec fn spec_message(&self) -> Seq<char> {
        "Testing ConfigProgram"@
    }

    fn test(&self) -> (r: String) {
        String::from_str("Testing ConfigProgram")
    }
}

/// The feature-gate program's harness.
pub struct FeatureGateProgramHarness;

impl Harness for FeatureGateProgramHarness {
    open spec fn spec_message(&self) -> Seq<char> {
        "Testing FeatureGateProgram"@
    }

    fn test(&self) -> (r: String) {
        String::from_str("Testing FeatureGateProgram")
    }
}

} // verus!
