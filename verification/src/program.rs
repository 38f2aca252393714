//! The program catalog: the closed set of migratable builtin programs,
//! each with its runtime identity, its feature-flag identity, its
//! staged buffer address, its fixture corpus, and its skip-list of
//! fixtures excluded from replay. Adding a program means adding a
//! catalog entry, not changing logic.

use vstd::prelude::*;
use crate::sdk;
use crate::text;

verus! {

/// One migratable builtin program.
#[derive(Clone, Copy, Debug, PartialEq, Eq, Structural)]
pub enum Program {
    AddressLookupTable,
    Config,
    FeatureGate,
}

/// A program name that names no catalog entry.
#[derive(Clone, Copy, Debug, PartialEq, Eq, Structural)]
pub enum CatalogError {
    UnknownProgram,
}

/// The program's runtime identity.
pub open spec fn spec_program_id(p: Program) -> Seq<char> {
    match p {
        Program::AddressLookupTable => sdk::spec_address_lookup_table_program_id(),
        Program::Config => sdk::spec_config_program_id(),
        Program::FeatureGate => sdk::spec_feature_program_id(),
    }
}

/// The feature flag whose activation migrates the program.
pub open spec fn spec_feature_gate(p: Program) -> Seq<char> {
    match p {
        Program::AddressLookupTable => sdk::spec_migrate_address_lookup_table_feature_id(),
        Program::Config => sdk::spec_migrate_config_feature_id(),
        Program::FeatureGate => sdk::spec_migrate_feature_gate_feature_id(),
    }
}

/// The buffer account that stages the program's replacement artifact.
pub open spec fn spec_buffer_address(p: Program) -> Seq<char> {
    match p {
        Program::AddressLookupTable => "AhXWrD9BBUYcKjtpA3zuiiZG4ysbo6C6wjHo1QhERk6A"@,
        Program::Config => "BuafH9fBv62u6XjzrzS4ZjAE8963ejqF5rt1f8Uga4Q3"@,
        Program::FeatureGate => "3D3ydPWvmEszrSjrickCtnyRSJm1rzbbSsZog8Ub6vLh"@,
    }
}

/// The program's name in snake case.
pub open spec fn spec_name_snake_case(p: Program) -> Seq<char> {
    match p {
        Program::AddressLookupTable => "address_lookup_table"@,
        Program::Config => "config"@,
        Program::FeatureGate => "feature_gate"@,
    }
}

/// The program's name as the command line spells it.
pub open spec fn spec_cli_name(p: Program) -> Seq<char> {
    match p {
        Program::AddressLookupTable => "address-lookup-table"@,
        Program::Config => "config"@,
        Program::FeatureGate => "feature-gate"@,
    }
}

/// The fixture corpus directory for the program, relative to the test
/// vector checkout.
pub open spec fn spec_fixtures_path(p: Program) -> Seq<char> {
    match p {
        Program::AddressLookupTable => "instr/fixtures/address-lookup-table"@,
        Program::Config => "instr/fixtures/config"@,
        Program::FeatureGate => "instr/fixtures/feature-gate"@,
    }
}

/// The repository that holds the program's own fixture blobs.
pub open spec fn spec_repository(p: Program) -> Seq<char> {
    match p {
        Program::AddressLookupTable => "https://github.com/solana-program/address-lookup-table"@,
        Program::Config => "https://github.com/solana-program/config"@,
        Program::FeatureGate => "https://github.com/solana-program/feature-gate"@,
    }
}

/// The program's skip-list: fixtures excluded from every replay mode,
/// known-divergent or inapplicable in this test configuration.
pub open spec fn spec_skip_list(p: Program) -> Seq<Seq<char>> {
    match p {
        Program::AddressLookupTable => seq![
            "6d8f5dc4bb073f6ae72a950b5108c82b41c6347a_3246919"@,
            "9017cf61dc0da7aa28a0b63a058f685e87df1e9a_2789718"@,
            "9c02f3e6bc4f519ed342f4a017a4d7050faef079_2789718"@,
            "9d3983516dd9cc4d515bf05f98011f22935093a4_3246919"@,
            "c328874b96d05db6bacb01c6534e43c1c065f3bd_3246919"@,
            "e5474fe3b664271f922437a3c707dc7d537d91ec_2789718"@,
        ],
        Program::Config => seq![
            "04a0b782cb1f4b1be044313331edda9dfb4696d6"@,
            "c7ec10c03d5faadcebd32dc5b9a4086abef892ca_3157979"@,
            "68e8dbf0f31de69a2bd1d2c0fe9af3ba676301d6_3157979"@,
            "f84b5ad44f7a253ebc8056d06396694370a7fa4c_3157979"@,
            "8bbe900444c675cfc3fbf0f80ae2eb061e536a09"@,
        ],
        Program::FeatureGate => Seq::empty(),
    }
}

impl Program {
    /// The program's runtime identity.
    pub fn program_id(&self) -> (r: String)
        ensures
            r@ == spec_program_id(*self),
    {
        match self {
            Program::AddressLookupTable => sdk::address_lookup_table_program_id(),
            Program::Config => sdk::config_program_id(),
            Program::FeatureGate => sdk::feature_program_id(),
        }
    }

    /// The feature flag whose activation migrates the program.
    pub fn feature_gate(&self) -> (r: String)
        ensures
            r@ == spec_feature_gate(*self),
    {
        match self {
            Program::AddressLookupTable => sdk::migrate_address_lookup_table_feature_id(),
            Program::Config => sdk::migrate_config_feature_id(),
            Program::FeatureGate => sdk::migrate_feature_gate_feature_id(),
        }
    }

    /// The buffer account that stages the program's replacement
    /// artifact.
    pub fn buffer_address(&self) -> (r: String)
        ensures
            r@ == spec_buffer_address(*self),
    {
        match self {
            Program::AddressLookupTable => String::from_str(
                "AhXWrD9BBUYcKjtpA3zuiiZG4ysbo6C6wjHo1QhERk6A",
            ),
            Program::Config => String::from_str("BuafH9fBv62u6XjzrzS4ZjAE8963ejqF5rt1f8Uga4Q3"),
            Program::FeatureGate => String::from_str(
                "3D3ydPWvmEszrSjrickCtnyRSJm1rzbbSsZog8Ub6vLh",
            ),
        }
    }

    /// The program's name in snake case.
    pub fn name_snake_case(&self) -> (r: &'static str)
        ensures
            r@ == spec_name_snake_case(*self),
    {
        match self {
            Program::AddressLookupTable => "address_lookup_table",
            Program::Config => "config",
            Program::FeatureGate => "feature_gate",
        }
    }

    /// The program's name as the command line spells it.
    pub fn cli_name(&self) -> (r: &'static str)
        ensures
            r@ == spec_cli_name(*self),
    {
        match self {
            Program::AddressLookupTable => "address-lookup-table",
            Program::Config => "config",
            Program::FeatureGate => "feature-gate",
        }
    }

    /// The file name of the program's replacement artifact.
    pub fn elf_name(&self) -> (r: String)
        ensures
            r@ == spec_name_snake_case(*self) + ".so"@,
    {
        let s = String::from_str(self.name_snake_case());
        s.concat(".so")
    }

    /// The fixture corpus directory for the program.
    pub fn fixtures_path(&self) -> (r: &'static str)
        ensures
            r@ == spec_fixtures_path(*self),
    {
        match self {
            Program::AddressLookupTable => "instr/fixtures/address-lookup-table",
            Program::Config => "instr/fixtures/config",
            Program::FeatureGate => "instr/fixtures/feature-gate",
        }
    }

    /// The repository that holds the program's own fixture blobs.
    pub fn repository(&self) -> (r: &'static str)
        ensures
            r@ == spec_repository(*self),
    {
        match self {
            Program::AddressLookupTable => "https://github.com/solana-program/address-lookup-table",
            Program::Config => "https://github.com/solana-program/config",
            Program::FeatureGate => "https://github.com/solana-program/feature-gate",
        }
    }

    /// The program's skip-list of fixtures excluded from replay.
    pub fn skip_conformance_fixtures(&self) -> (r: Vec<&'static str>)
        ensures
            r@.map_values(|s: &'static str| s@) == spec_skip_list(*self),
    {
        let mut v: Vec<&'static str> = Vec::new();
        match self {
            Program::AddressLookupTable => {
                v.push("6d8f5dc4bb073f6ae72a950b5108c82b41c6347a_3246919");
                v.push("9017cf61dc0da7aa28a0b63a058f685e87df1e9a_2789718");
                v.push("9c02f3e6bc4f519ed342f4a017a4d7050faef079_2789718");
                v.push("9d3983516dd9cc4d515bf05f98011f22935093a4_3246919");
                v.push("c328874b96d05db6bacb01c6534e43c1c065f3bd_3246919");
                v.push("e5474fe3b664271f922437a3c707dc7d537d91ec_2789718");
            },
            Program::Config => {
                v.push("04a0b782cb1f4b1be044313331edda9dfb4696d6");
                v.push("c7ec10c03d5faadcebd32dc5b9a4086abef892ca_3157979");
                v.push("68e8dbf0f31de69a2bd1d2c0fe9af3ba676301d6_3157979");
                v.push("f84b5ad44f7a253ebc8056d06396694370a7fa4c_3157979");
                v.push("8bbe900444c675cfc3fbf0f80ae2eb061e536a09");
            },
            Program::FeatureGate => {},
        }
        proof {
            assert(v@.map_values(|s: &'static str| s@) =~= spec_skip_list(*self));
        }
        v
    }
}

/// Look a program up by its command-line name.
pub fn from_cli_name(s: &str) -> (r: Result<Program, CatalogError>)
    ensures
        s@ == spec_cli_name(Program::AddressLookupTable) ==> r == Result::<
            Program,
            CatalogError,
        >::Ok(Program::AddressLookupTable),
        s@ == spec_cli_name(Program::Config) ==> r == Result::<Program, CatalogError>::Ok(
            Program::Config,
        ),
        s@ == spec_cli_name(Program::FeatureGate) ==> r == Result::<Program, CatalogError>::Ok(
            Program::FeatureGate,
        ),
        (forall|p: Program| s@ != spec_cli_name(p)) ==> r == Result::<Program, CatalogError>::Err(
            CatalogError::UnknownProgram,
        ),
{
    proof {
        reveal_strlit("address-lookup-table");
        reveal_strlit("config");
        reveal_strlit("feature-gate");
        assert("address-lookup-table"@.len() == 20);
        assert("config"@.len() == 6);
        assert("feature-gate"@.len() == 12);
    }
    if text::str_eq(s, "address-lookup-table") {
        proof {
            assert(s@ == spec_cli_name(Program::AddressLookupTable));
            assert(!(forall|p: Program| s@ != spec_cli_name(p)));
        }
        Ok(Program::AddressLookupTable)
    } else if text::str_eq(s, "config") {
        proof {
            assert(s@ == spec_cli_name(Program::Config));
            assert(!(forall|p: Program| s@ != spec_cli_name(p)));
        }
        Ok(Program::Config)
    } else if text::str_eq(s, "feature-gate") {
        proof {
            assert(s@ == spec_cli_name(Program::FeatureGate));
            assert(!(forall|p: Program| s@ != spec_cli_name(p)));
        }
        Ok(Program::FeatureGate)
    } else {
        proof {
            assert forall|p: Program| s@ != spec_cli_name(p) by {
                match p {
                    Program::AddressLookupTable => {
                        assert(spec_cli_name(p) == "address-lookup-table"@);
                    },
                    Program::Config => {
                        assert(spec_cli_name(p) == "config"@);
                    },
                    Program::FeatureGate => {
                        assert(spec_cli_name(p) == "feature-gate"@);
                    },
                }
            }
        }
        Err(CatalogError::UnknownProgram)
    }
}

} // verus!
