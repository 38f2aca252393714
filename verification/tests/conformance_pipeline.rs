//! The conformance handler: build-before-run, the exact command
//! invocations, and the replay verdicts.

use cbm_harness::conformance::{
    conformance_replay_passed, ensure_checkout_command, fixtures_replay_passed, ConformanceError,
    ConformanceHandler,
};
use cbm_harness::cmd;
use cbm_harness::program::Program;

#[test]
fn replay_without_a_built_candidate_fails_immediately() {
    let handler = ConformanceHandler::no_setup(&Program::Config, "elfs", false);
    assert!(matches!(
        handler.run_fixtures("/work"),
        Err(ConformanceError::BpfTargetNotBuilt)
    ));
    assert!(matches!(
        handler.run_conformance("/work"),
        Err(ConformanceError::BuiltinTargetNotBuilt)
    ));
}

#[test]
fn replay_runs_only_after_both_builds() {
    let mut handler = ConformanceHandler::no_setup(&Program::Config, "elfs", false);
    let bpf_plan = handler.build_conformance_target_bpf(true, "/work");
    assert_eq!(
        bpf_plan.artifact_destination,
        "./solana-conformance/impl/lib/bpf.so"
    );
    // The candidate is built: fixtures-only replay is available, the
    // differential replay still demands the native target.
    let fixtures_cmd = handler.run_fixtures("/work").unwrap();
    assert_eq!(fixtures_cmd.program, "bash");
    assert_eq!(fixtures_cmd.args[0], "-c");
    assert_eq!(
        fixtures_cmd.args[1],
        "cd ./solana-conformance && source test_suite_env/bin/activate && \
         solana-test-suite exec-fixtures \
         -i /work/./solana-conformance/impl/test-vectors/instr/fixtures/config \
         -t /work/./solana-conformance/impl/lib/bpf.so"
    );
    assert!(matches!(
        handler.run_conformance("/work"),
        Err(ConformanceError::BuiltinTargetNotBuilt)
    ));

    let builtin_plan = handler.build_conformance_target_builtin();
    assert_eq!(
        builtin_plan.artifact_destination,
        "./solana-conformance/impl/lib/builtin.so"
    );
    let conformance_cmd = handler.run_conformance("/work").unwrap();
    assert_eq!(
        conformance_cmd.args[1],
        "cd ./solana-conformance && source test_suite_env/bin/activate && \
         solana-test-suite run-tests \
         -i /work/./solana-conformance/impl/test-vectors/instr/fixtures/config \
         -s /work/./solana-conformance/impl/lib/builtin.so \
         -t /work/./solana-conformance/impl/lib/bpf.so"
    );
}

#[test]
fn candidate_build_is_pointed_at_the_program_under_test() {
    let mut handler = ConformanceHandler::no_setup(&Program::AddressLookupTable, "elfs", false);
    let plan = handler.build_conformance_target_bpf(true, "/work");
    assert_eq!(plan.build.program, "cargo");
    assert_eq!(
        plan.build.args,
        vec![
            "build",
            "--manifest-path",
            "./solana-conformance/impl/solfuzz-agave/Cargo.toml",
            "--lib",
            "--release",
            "--target",
            "x86_64-unknown-linux-gnu",
            "--features",
            "core-bpf-conformance",
        ]
    );
    assert_eq!(plan.build.env[0].name, "CORE_BPF_PROGRAM_ID");
    assert_eq!(
        plan.build.env[0].value,
        solana_sdk::address_lookup_table::program::id().to_string()
    );
    assert_eq!(plan.build.env[1].name, "CORE_BPF_TARGET");
    assert_eq!(plan.build.env[1].value, "/work/elfs/address_lookup_table.so");
    assert_eq!(plan.build.env[2].name, "FORCE_RECOMPILE");
    assert_eq!(plan.build.env[2].value, "true");

    let plan = handler.build_conformance_target_bpf(false, "/work");
    assert_eq!(plan.build.args[8], "core-bpf");
}

#[test]
fn setup_removes_exactly_the_skip_listed_fixtures() {
    let plan = ConformanceHandler::setup_plan(&Program::Config, false);
    assert_eq!(plan.clones.len(), 3);
    assert_eq!(
        plan.clones[0].url,
        "https://github.com/firedancer-io/solana-conformance.git"
    );
    assert_eq!(plan.clones[1].branch, "support-feature-gate-program");
    assert_eq!(
        plan.clones[2].url,
        "https://github.com/firedancer-io/test-vectors.git"
    );
    let skip = Program::Config.skip_conformance_fixtures();
    assert_eq!(plan.remove_fixtures.len(), skip.len());
    for (cmd, fix) in plan.remove_fixtures.iter().zip(skip.iter()) {
        assert_eq!(cmd.program, "rm");
        assert_eq!(
            cmd.args,
            vec![format!(
                "./solana-conformance/impl/test-vectors/instr/fixtures/config/{}.fix",
                fix
            )]
        );
    }
    // A program with an empty skip-list removes nothing.
    let plan = ConformanceHandler::setup_plan(&Program::FeatureGate, false);
    assert!(plan.remove_fixtures.is_empty());
    // The program-repository corpus skips the removal step entirely.
    let plan = ConformanceHandler::setup_plan(&Program::Config, true);
    assert!(plan.remove_fixtures.is_empty());
    assert_eq!(plan.clones[2].url, "https://github.com/solana-program/config");
}

#[test]
fn checkouts_are_pulled_when_present_and_cloned_when_absent() {
    let plan = ConformanceHandler::setup_plan(&Program::Config, false);
    let cmd = ensure_checkout_command(&plan.clones[0], false);
    assert_eq!(
        cmd.args,
        vec![
            "clone",
            "--branch",
            "main",
            "https://github.com/firedancer-io/solana-conformance.git",
            "./solana-conformance",
        ]
    );
    let cmd = ensure_checkout_command(&plan.clones[0], true);
    assert_eq!(cmd.args, vec!["-C", "./solana-conformance", "pull"]);
}

#[test]
fn replay_verdicts() {
    assert!(fixtures_replay_passed("All passed.\n"));
    assert!(!fixtures_replay_passed("...\nFailed tests: 3\n"));
    assert!(fixtures_replay_passed(""));
    assert!(conformance_replay_passed(false, false));
    assert!(conformance_replay_passed(true, true));
    assert!(!conformance_replay_passed(true, false));
}

#[test]
fn free_pipeline_matches_its_fixed_paths() {
    let builds = cmd::build_programs("elfs");
    assert_eq!(builds.len(), 2);
    assert_eq!(builds[0].args[2], "./programs/activator/Cargo.toml");
    assert_eq!(builds[1].args[2], "./programs/stub/Cargo.toml");
    assert_eq!(builds[0].args[6], "elfs");

    let env = cmd::build_conformance_test_environment(&Program::Config);
    assert_eq!(env.clone_adapter.branch, "core-bpf-conformance");
    assert_eq!(
        env.clone_adapter.url,
        "http://github.com/buffalojoec/solfuzz-agave.git"
    );
    assert_eq!(
        env.clone_test_vectors.dest,
        "./solana-conformance/impl/test-vectors"
    );
    assert_eq!(env.remove_fixtures.len(), 5);
    assert_eq!(
        env.remove_fixtures[0].args[0],
        "./solana-conformance/impl/test-vectors/instr/fixtures/config/\
         04a0b782cb1f4b1be044313331edda9dfb4696d6.fix"
    );
    assert_eq!(env.fetch_protos.args, vec!["-j", "-C", "impl/solfuzz-agave", "fetch_proto"]);
    assert_eq!(env.install_environment.args, vec!["install_ubuntu_lite.sh"]);
    // The checkouts are ensure-present: pulled where they exist,
    // cloned at their branch where they do not.
    let cmd_clone = ensure_checkout_command(&env.clone_test_vectors, false);
    assert_eq!(
        cmd_clone.args,
        vec![
            "clone",
            "--branch",
            "main",
            "https://github.com/firedancer-io/test-vectors.git",
            "./solana-conformance/impl/test-vectors",
        ]
    );
    let cmd_pull = ensure_checkout_command(&env.clone_test_vectors, true);
    assert_eq!(
        cmd_pull.args,
        vec!["-C", "./solana-conformance/impl/test-vectors", "pull"]
    );

    let builtin = cmd::build_conformance_target_builtin();
    assert_eq!(
        builtin.build.args,
        vec![
            "build",
            "--manifest-path",
            "./solana-conformance/impl/solfuzz-agave/Cargo.toml",
            "--lib",
            "--release",
            "--target",
            "x86_64-unknown-linux-gnu",
        ]
    );
    assert_eq!(
        builtin.artifact_source,
        "./solana-conformance/impl/solfuzz-agave/\
         target/x86_64-unknown-linux-gnu/release/libsolfuzz_agave.so"
    );
    assert_eq!(builtin.make_targets_dir.args, vec!["-p", "impl/lib"]);

    let bpf = cmd::build_conformance_target_bpf(&Program::Config, "/work");
    assert_eq!(bpf.build.env[1].value, "/work/elfs/config.so");
    assert_eq!(
        bpf.artifact_destination,
        "./solana-conformance/impl/lib/core_bpf.so"
    );

    let run = cmd::run_fixtures(&Program::Config, "/work");
    assert!(run.args[1].contains("-t /work/./solana-conformance/impl/lib/core_bpf.so"));
    let run = cmd::run_conformance(&Program::Config, "/work");
    assert!(run.args[1].contains("-s /work/./solana-conformance/impl/lib/builtin.so"));
}
