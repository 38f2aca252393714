//! The setup flow, command plumbing, fixed directories, feature
//! activation, and console composition.

use cbm_harness::command::Command;
use cbm_harness::harness::{AddressLookupTableProgramTestHarness, ConfigProgramTestHarness, FeatureGateProgramHarness, Harness};
use cbm_harness::dirs::{home_dir, repository_path};
use cbm_harness::feature::activate_programify_feature_gate;
use cbm_harness::output::{output_text, title_conformance_test, title_fixtures_test, title_lines, title_stub_test};
use cbm_harness::setup::{
    build_solana, fetch_changes, get_solana_cargo_manifest_path, get_solana_cli_path,
    get_solana_path, get_solana_test_validator_cli_path, get_solana_test_validator_ledger_path,
    setup, start_test_validator, teardown, SLOTS_PER_EPOCH, WARP_SLOT,
};
use cbm_harness::text::u64_to_dec_string;

#[test]
fn fixed_directories() {
    assert_eq!(home_dir(), "/Users/joesol");
    assert_eq!(repository_path(), "/Users/joesol/labs/programify-feature-gate");
    assert_eq!(
        get_solana_path(),
        "/Users/joesol/labs/programify-feature-gate/.solana"
    );
    assert_eq!(
        get_solana_cargo_manifest_path(),
        "/Users/joesol/labs/programify-feature-gate/.solana/Cargo.toml"
    );
    assert_eq!(
        get_solana_cli_path(),
        "/Users/joesol/labs/programify-feature-gate/.solana/target/debug/solana"
    );
    assert_eq!(
        get_solana_test_validator_cli_path(),
        "/Users/joesol/labs/programify-feature-gate/.solana/target/debug/solana-test-validator"
    );
    assert_eq!(
        get_solana_test_validator_ledger_path(),
        "/Users/joesol/labs/programify-feature-gate/test-ledger"
    );
}

#[test]
fn commands_serialize_to_their_quoted_tokens() {
    assert_eq!(Command::Git.serialized_name(), "\"git\"");
    assert_eq!(Command::Cargo.serialized_name(), "\"cargo\"");
    assert_eq!(Command::Solana.serialized_name(), "\"solana\"");
    assert_eq!(Command::Alias.serialized_name(), "\"alias\"");
    // The token matches what the JSON serializer itself produces for
    // a kebab-case variant name.
    assert_eq!(
        Command::Git.serialized_name(),
        serde_json::to_string("git").unwrap()
    );

    let inv = Command::Git.command_with_dir("pull", "/tmp/checkout");
    assert_eq!(inv.command_line, "\"git\" pull");
    assert_eq!(inv.dir, "/tmp/checkout");
    assert!(!inv.detached);

    let inv = Command::raw_command_with_dir("./cargo", "build", "/work");
    assert_eq!(inv.command_line, "./cargo build");
    assert!(!inv.detached);
    let inv = Command::raw_command_detached_with_dir("ls", "-l", "/work");
    assert!(inv.detached);
}

#[test]
fn fetch_clones_or_pulls_the_runtime_checkout() {
    let fresh = fetch_changes(false);
    assert_eq!(fresh.len(), 1);
    assert_eq!(
        fresh[0].command_line,
        "\"git\" clone https://github.com/buffalojoec/solana.git \
         --branch test-migrate-feature-gate-03-14 \
         /Users/joesol/labs/programify-feature-gate/.solana"
    );
    assert_eq!(fresh[0].dir, "/Users/joesol/labs/programify-feature-gate");

    let existing = fetch_changes(true);
    assert_eq!(existing.len(), 2);
    assert_eq!(
        existing[0].command_line,
        "\"git\" checkout test-migrate-feature-gate-03-14"
    );
    assert_eq!(existing[1].command_line, "\"git\" pull");
    assert_eq!(
        existing[1].dir,
        "/Users/joesol/labs/programify-feature-gate/.solana"
    );
}

#[test]
fn validator_starts_detached_with_the_feature_deactivated() {
    assert_eq!(SLOTS_PER_EPOCH, 150);
    assert_eq!(WARP_SLOT, 123);
    let inv = start_test_validator("FeatureUnderTest");
    assert!(inv.detached);
    assert_eq!(
        inv.command_line,
        "/Users/joesol/labs/programify-feature-gate/.solana/target/debug/solana-test-validator \
         --slots-per-epoch 150 \
         --ledger /Users/joesol/labs/programify-feature-gate/test-ledger \
         --warp-slot 123 \
         --deactivate-feature FeatureUnderTest"
    );
}

#[test]
fn setup_sequences_the_whole_flow() {
    let plan = setup(true, false, "FeatureUnderTest");
    assert_eq!(
        plan.ledger_to_delete.as_deref(),
        Some("/Users/joesol/labs/programify-feature-gate/test-ledger")
    );
    assert_eq!(plan.fetch.len(), 1);
    assert_eq!(
        plan.build.command_line,
        "./cargo build --manifest-path \
         /Users/joesol/labs/programify-feature-gate/.solana/Cargo.toml"
    );
    assert!(plan.start.detached);
    assert!(setup(false, true, "F").ledger_to_delete.is_none());
    assert!(teardown(false).is_none());
    assert_eq!(
        teardown(true).as_deref(),
        Some("/Users/joesol/labs/programify-feature-gate/test-ledger")
    );
    let build = build_solana();
    assert_eq!(build.dir, "/Users/joesol/labs/programify-feature-gate/.solana");
}

#[test]
fn feature_activation_uses_the_built_cli() {
    let inv = activate_programify_feature_gate("/keys/feature.json");
    assert_eq!(
        inv.command_line,
        "/Users/joesol/labs/programify-feature-gate/.solana/target/debug/solana \
         feature activate /keys/feature.json development"
    );
    assert_eq!(inv.dir, "/Users/joesol/labs/programify-feature-gate");
    assert!(!inv.detached);
}

#[test]
fn decimal_rendering() {
    assert_eq!(u64_to_dec_string(0), "0");
    assert_eq!(u64_to_dec_string(9), "9");
    assert_eq!(u64_to_dec_string(10), "10");
    assert_eq!(u64_to_dec_string(150), "150");
    assert_eq!(u64_to_dec_string(18446744073709551615), "18446744073709551615");
}

#[test]
fn console_composition() {
    assert_eq!(
        output_text("CBM TEST", "Starting test validator..."),
        "\n  [CBM TEST]: Starting test validator...\n\n"
    );
    let title = title_lines("Config1111111111111111111111111111111111111");
    assert_eq!(title.len(), 4);
    assert_eq!(title[0], "=============================================");
    assert_eq!(title[1], "    Core BPF Migration Test");
    assert_eq!(
        title[2],
        "    Program: Config1111111111111111111111111111111111111"
    );
    assert_eq!(title[3], title[0]);
}

#[test]
fn test_banners_name_what_is_under_test() {
    let short = "Migrate Config program";
    let stub = title_stub_test(short, "FeatureId", "BufferAddr");
    assert_eq!(stub.len(), 12);
    assert_eq!(stub[2], "    Core BPF Migration Test: Stub Test");
    assert_eq!(stub[4], "    Description   : Migrate Config program");
    assert_eq!(stub[6], "    Feature ID    : FeatureId");
    assert_eq!(stub[8], "    Buffer Address: BufferAddr");

    // An overlong description is cut at one hundred and sixty
    // characters.
    let long: String = std::iter::repeat('x').take(200).collect();
    let stub = title_stub_test(&long, "F", "B");
    assert_eq!(stub[4].len(), "    Description   : ".len() + 160);

    let fixtures = title_fixtures_test("mainnet-beta", "BufferAddr");
    assert_eq!(fixtures[2], "    Core BPF Migration Test: Fixtures Test");
    assert_eq!(fixtures[6], "    Cloning From  : mainnet-beta");
    let conformance = title_conformance_test("mainnet-beta", "BufferAddr");
    assert_eq!(conformance[2], "    Core BPF Migration Test: Conformance Test");
}

#[test]
fn harnesses_announce_their_runs() {
    assert_eq!(
        AddressLookupTableProgramTestHarness.test(),
        "Testing AddressLookupTableProgram"
    );
    assert_eq!(ConfigProgramTestHarness.test(), "Testing ConfigProgram");
    assert_eq!(FeatureGateProgramHarness.test(), "Testing FeatureGateProgram");
}
