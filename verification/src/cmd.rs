//! The free-function conformance pipeline and the stub-program
//! builds: the flavor of the pipeline that works from fixed paths
//! alone, with no handler state. The library computes the
//! invocations; the driver runs them.

use vstd::prelude::*;
use crate::conformance::CloneSpec;
use crate::conformance::CommandSpec;
use crate::conformance::EnvVar;
use crate::conformance::spec_adapter_artifact_path;
use crate::conformance::spec_conformance_path;
use crate::conformance::spec_is_adapter_build_command;
use crate::conformance::spec_is_make_targets_dir_command;
use crate::program::Program;
use crate::program::spec_fixtures_path;
use crate::program::spec_name_snake_case;
use crate::program::spec_program_id;
use crate::program::spec_skip_list;
use crate::text;
use crate::text::spec_path_join;

verus! {

/// The manifest of the activator helper program.
pub open spec fn spec_activator_manifest() -> Seq<char> {
    "./programs/activator/Cargo.toml"@
}

/// The manifest of the stub program.
pub open spec fn spec_stub_manifest() -> Seq<char> {
    "./programs/stub/Cargo.toml"@
}

/// A loadable-artifact build of one on-chain program: cargo's
/// build-sbf with the program's entrypoint enabled, dropping the
/// artifact in `out_dir`.
pub open spec fn spec_is_build_sbf(
    cmd: CommandSpec,
    manifest: Seq<char>,
    out_dir: Seq<char>,
) -> bool {
    &&& cmd.program@ == "cargo"@
    &&& cmd.current_dir is None
    &&& cmd.env@.len() == 0
    &&& cmd.args@.len() == 7
    &&& cmd.args@[0]@ == "build-sbf"@
    &&& cmd.args@[1]@ == "--manifest-path"@
    &&& cmd.args@[2]@ == manifest
    &&& cmd.args@[3]@ == "--features"@
    &&& cmd.args@[4]@ == "sbf-entrypoint"@
    &&& cmd.args@[5]@ == "--sbf-out-dir"@
    &&& cmd.args@[6]@ == out_dir
}

fn cargo_build_sbf(manifest_path: &str, out_dir: &str) -> (r: CommandSpec)
    ensures
        spec_is_build_sbf(r, manifest_path@, out_dir@),
{
    let mut args: Vec<String> = Vec::new();
    args.push(String::from_str("build-sbf"));
    args.push(String::from_str("--manifest-path"));
    args.push(String::from_str(manifest_path));
    args.push(String::from_str("--features"));
    args.push(String::from_str("sbf-entrypoint"));
    args.push(String::from_str("--sbf-out-dir"));
    args.push(String::from_str(out_dir));
    CommandSpec { program: String::from_str("cargo"), args, current_dir: None, env: Vec::new() }
}

/// Build the two on-chain helper programs of the stub test — the
/// activator, then the stub — into the artifact directory.
pub fn build_programs(out_dir: &str) -> (r: Vec<CommandSpec>)
    ensures
        r@.len() == 2,
        spec_is_build_sbf(r@[0], spec_activator_manifest(), out_dir@),
        spec_is_build_sbf(r@[1], spec_stub_manifest(), out_dir@),
{
    let mut r: Vec<CommandSpec> = Vec::new();
    r.push(cargo_build_sbf("./programs/activator/Cargo.toml", out_dir));
    r.push(cargo_build_sbf("./programs/stub/Cargo.toml", out_dir));
    r
}

/// The test-vector corpus checkout of this pipeline flavor.
pub open spec fn spec_cmd_fixtures_dir() -> Seq<char> {
    spec_path_join("./solana-conformance"@, "impl/test-vectors"@)
}

/// The program's selected corpus directory under that checkout.
pub open spec fn spec_cmd_corpus_dir(p: Program) -> Seq<char> {
    spec_path_join(spec_cmd_fixtures_dir(), spec_fixtures_path(p))
}

/// The environment preparation of this pipeline flavor: the three
/// checkouts to ensure, one removal per skip-listed fixture, and the
/// two bootstrap commands. The corpus holds one `<name>.fix` file per
/// recorded execution, directly under the corpus directory.
pub struct EnvironmentPlan {
    pub clone_conformance: CloneSpec,
    pub clone_test_vectors: CloneSpec,
    pub clone_adapter: CloneSpec,
    pub remove_fixtures: Vec<CommandSpec>,
    pub fetch_protos: CommandSpec,
    pub install_environment: CommandSpec,
}

/// Prepare the conformance environment for a program: ensure the
/// checkouts of the driver, the recorded corpus and the adapter at
/// its conformance branch — each cloned where absent and pulled where
/// present, through the checkout decision — then remove the program's
/// skip-listed fixtures from the corpus, fetch the protobufs and
/// install the driver's dependencies. Each skip-listed name is
/// removed by exactly one command, and nothing else is removed.
pub fn build_conformance_test_environment(program: &Program) -> (r: EnvironmentPlan)
    ensures
        r.clone_conformance.url@ == "https://github.com/firedancer-io/solana-conformance.git"@,
        r.clone_conformance.branch@ == "main"@,
        r.clone_conformance.dest@ == spec_conformance_path(),
        r.clone_test_vectors.url@ == "https://github.com/firedancer-io/test-vectors.git"@,
        r.clone_test_vectors.branch@ == "main"@,
        r.clone_test_vectors.dest@ == spec_cmd_fixtures_dir(),
        r.clone_adapter.url@ == "http://github.com/buffalojoec/solfuzz-agave.git"@,
        r.clone_adapter.branch@ == "core-bpf-conformance"@,
        r.clone_adapter.dest@ == spec_path_join("./solana-conformance"@, "impl/solfuzz-agave"@),
        r.remove_fixtures@.len() == spec_skip_list(*program).len(),
        forall|i: int|
            0 <= i < r.remove_fixtures@.len() ==> #[trigger] r.remove_fixtures@[i].program@
                == "rm"@ && r.remove_fixtures@[i].current_dir is None
                && r.remove_fixtures@[i].env@.len() == 0 && r.remove_fixtures@[i].args@.len() == 1
                && r.remove_fixtures@[i].args@[0]@ == spec_path_join(
                spec_cmd_corpus_dir(*program),
                spec_skip_list(*program)[i] + ".fix"@,
            ),
        r.fetch_protos.program@ == "make"@,
        (r.fetch_protos.current_dir matches Some(d) && d@ == spec_conformance_path()),
        r.fetch_protos.env@.len() == 0,
        r.fetch_protos.args@.len() == 4,
        r.fetch_protos.args@[0]@ == "-j"@,
        r.fetch_protos.args@[1]@ == "-C"@,
        r.fetch_protos.args@[2]@ == "impl/solfuzz-agave"@,
        r.fetch_protos.args@[3]@ == "fetch_proto"@,
        r.install_environment.program@ == "bash"@,
        (r.install_environment.current_dir matches Some(d) && d@ == spec_conformance_path()),
        r.install_environment.env@.len() == 0,
        r.install_environment.args@.len() == 1,
        r.install_environment.args@[0]@ == "install_ubuntu_lite.sh"@,
{
    let clone_conformance = CloneSpec {
        url: String::from_str("https://github.com/firedancer-io/solana-conformance.git"),
        branch: String::from_str("main"),
        dest: String::from_str("./solana-conformance"),
    };
    let fixtures_dir = text::path_join("./solana-conformance", "impl/test-vectors");
    let clone_test_vectors = CloneSpec {
        url: String::from_str("https://github.com/firedancer-io/test-vectors.git"),
        branch: String::from_str("main"),
        dest: fixtures_dir.clone(),
    };
    let clone_adapter = CloneSpec {
        url: String::from_str("http://github.com/buffalojoec/solfuzz-agave.git"),
        branch: String::from_str("core-bpf-conformance"),
        dest: text::path_join("./solana-conformance", "impl/solfuzz-agave"),
    };
    let corpus = text::path_join(fixtures_dir.as_str(), program.fixtures_path());
    let skip = program.skip_conformance_fixtures();
    let n = skip.len();
    let mut remove_fixtures: Vec<CommandSpec> = Vec::new();
    let mut i: usize = 0;
    while i < n
        invariant
            i <= n,
            n == spec_skip_list(*program).len(),
            skip@.map_values(|s: &'static str| s@) == spec_skip_list(*program),
            corpus@ == spec_cmd_corpus_dir(*program),
            remove_fixtures@.len() == i,
            forall|k: int|
                0 <= k < i ==> #[trigger] remove_fixtures@[k].program@ == "rm"@
                    && remove_fixtures@[k].current_dir is None
                    && remove_fixtures@[k].env@.len() == 0
                    && remove_fixtures@[k].args@.len() == 1 && remove_fixtures@[k].args@[0]@
                    == spec_path_join(
                    spec_cmd_corpus_dir(*program),
                    spec_skip_list(*program)[k] + ".fix"@,
                ),
        decreases n - i,
    {
        assert(skip@.map_values(|s: &'static str| s@)[i as int] == spec_skip_list(*program)[i as int]);
        let fix_name = String::from_str(skip[i]);
        let fix_name = fix_name.concat(".fix");
        let fix_path = text::path_join(corpus.as_str(), fix_name.as_str());
        let mut args: Vec<String> = Vec::new();
        args.push(fix_path);
        remove_fixtures.push(
            CommandSpec {
                program: String::from_str("rm"),
                args,
                current_dir: None,
                env: Vec::new(),
            },
        );
        i += 1;
    }
    let mut fetch_args: Vec<String> = Vec::new();
    fetch_args.push(String::from_str("-j"));
    fetch_args.push(String::from_str("-C"));
    fetch_args.push(String::from_str("impl/solfuzz-agave"));
    fetch_args.push(String::from_str("fetch_proto"));
    let fetch_protos = CommandSpec {
        program: String::from_str("make"),
        args: fetch_args,
        current_dir: Some(String::from_str("./solana-conformance")),
        env: Vec::new(),
    };
    let mut install_args: Vec<String> = Vec::new();
    install_args.push(String::from_str("install_ubuntu_lite.sh"));
    let install_environment = CommandSpec {
        program: String::from_str("bash"),
        args: install_args,
        current_dir: Some(String::from_str("./solana-conformance")),
        env: Vec::new(),
    };
    EnvironmentPlan {
        clone_conformance,
        clone_test_vectors,
        clone_adapter,
        remove_fixtures,
        fetch_protos,
        install_environment,
    }
}

/// This flavor's fixed path for the built native target.
pub open spec fn spec_cmd_builtin_target() -> Seq<char> {
    spec_path_join(spec_path_join("./solana-conformance"@, "impl/lib"@), "builtin.so"@)
}

/// This flavor's fixed path for the built candidate target.
pub open spec fn spec_cmd_bpf_target() -> Seq<char> {
    spec_path_join(spec_path_join("./solana-conformance"@, "impl/lib"@), "core_bpf.so"@)
}

/// Build the native target: compile the adapter in builtin mode and
/// move its artifact to the fixed builtin path.
pub fn build_conformance_target_builtin() -> (r: crate::conformance::BuildPlan)
    ensures
        spec_is_make_targets_dir_command(r.make_targets_dir),
        spec_is_adapter_build_command(r.build, 7),
        r.build.env@.len() == 0,
        r.artifact_source@ == spec_adapter_artifact_path(),
        r.artifact_destination@ == spec_cmd_builtin_target(),
{
    let mut args: Vec<String> = Vec::new();
    args.push(String::from_str("build"));
    args.push(String::from_str("--manifest-path"));
    let manifest = text::path_join("./solana-conformance", "impl/solfuzz-agave");
    args.push(text::path_join(manifest.as_str(), "Cargo.toml"));
    args.push(String::from_str("--lib"));
    args.push(String::from_str("--release"));
    args.push(String::from_str("--target"));
    args.push(String::from_str("x86_64-unknown-linux-gnu"));
    let build = CommandSpec {
        program: String::from_str("cargo"),
        args,
        current_dir: None,
        env: Vec::new(),
    };
    let adapter = text::path_join("./solana-conformance", "impl/solfuzz-agave");
    let source = text::path_join(
        adapter.as_str(),
        "target/x86_64-unknown-linux-gnu/release/libsolfuzz_agave.so",
    );
    let lib_dir = text::path_join("./solana-conformance", "impl/lib");
    let mut mkdir_args: Vec<String> = Vec::new();
    mkdir_args.push(String::from_str("-p"));
    mkdir_args.push(String::from_str("impl/lib"));
    crate::conformance::BuildPlan {
        make_targets_dir: CommandSpec {
            program: String::from_str("mkdir"),
            args: mkdir_args,
            current_dir: Some(String::from_str("./solana-conformance")),
            env: Vec::new(),
        },
        build,
        artifact_source: source,
        artifact_destination: text::path_join(lib_dir.as_str(), "builtin.so"),
    }
}

/// Build the candidate target for a program: compile the adapter in
/// conformance mode, pointed at the program under test and its
/// artifact under `cwd`'s artifact directory, and move the artifact
/// to the fixed candidate path.
pub fn build_conformance_target_bpf(program: &Program, cwd: &str) -> (r:
    crate::conformance::BuildPlan)
    ensures
        spec_is_make_targets_dir_command(r.make_targets_dir),
        spec_is_adapter_build_command(r.build, 9),
        r.build.args@[7]@ == "--features"@,
        r.build.args@[8]@ == "core-bpf-conformance"@,
        r.build.env@.len() == 3,
        r.build.env@[0].name@ == "CORE_BPF_PROGRAM_ID"@,
        r.build.env@[0].value@ == spec_program_id(*program),
        r.build.env@[1].name@ == "CORE_BPF_TARGET"@,
        r.build.env@[1].value@ == spec_path_join(
            spec_path_join(cwd@, "elfs"@),
            spec_name_snake_case(*program) + ".so"@,
        ),
        r.build.env@[2].name@ == "FORCE_RECOMPILE"@,
        r.build.env@[2].value@ == "true"@,
        r.artifact_source@ == spec_adapter_artifact_path(),
        r.artifact_destination@ == spec_cmd_bpf_target(),
{
    let mut plan = build_conformance_target_builtin();
    plan.build.args.push(String::from_str("--features"));
    plan.build.args.push(String::from_str("core-bpf-conformance"));
    let mut env: Vec<EnvVar> = Vec::new();
    env.push(
        EnvVar { name: String::from_str("CORE_BPF_PROGRAM_ID"), value: program.program_id() },
    );
    let elf_dir = text::path_join(cwd, "elfs");
    let elf_name = program.elf_name();
    env.push(
        EnvVar {
            name: String::from_str("CORE_BPF_TARGET"),
            value: text::path_join(elf_dir.as_str(), elf_name.as_str()),
        },
    );
    env.push(EnvVar { name: String::from_str("FORCE_RECOMPILE"), value: String::from_str("true") });
    plan.build.env = env;
    let lib_dir = text::path_join("./solana-conformance", "impl/lib");
    plan.artifact_destination = text::path_join(lib_dir.as_str(), "core_bpf.so");
    plan
}

/// The fixtures-only replay of this flavor, against the fixed
/// candidate path. This flavor keeps no record of what was built; the
/// handler-based pipeline is the one that enforces build-before-run.
pub fn run_fixtures(program: &Program, cwd: &str) -> (r: CommandSpec)
    ensures
        r.program@ == "bash"@,
        r.args@.len() == 2,
        r.args@[0]@ == "-c"@,
        r.args@[1]@ == crate::conformance::spec_fixtures_script(
            spec_cmd_corpus_dir(*program),
            spec_cmd_bpf_target(),
            cwd@,
        ),
{
    let fixtures_dir = text::path_join("./solana-conformance", "impl/test-vectors");
    let corpus = text::path_join(fixtures_dir.as_str(), program.fixtures_path());
    let lib_dir = text::path_join("./solana-conformance", "impl/lib");
    let target = text::path_join(lib_dir.as_str(), "core_bpf.so");
    let script = crate::conformance::fixtures_script(corpus.as_str(), target.as_str(), cwd);
    let mut args: Vec<String> = Vec::new();
    args.push(String::from_str("-c"));
    args.push(script);
    CommandSpec { program: String::from_str("bash"), args, current_dir: None, env: Vec::new() }
}

/// The differential replay of this flavor, against the fixed builtin
/// and candidate paths.
pub fn run_conformance(program: &Program, cwd: &str) -> (r: CommandSpec)
    ensures
        r.program@ == "bash"@,
        r.args@.len() == 2,
        r.args@[0]@ == "-c"@,
        r.args@[1]@ == crate::conformance::spec_conformance_script(
            spec_cmd_corpus_dir(*program),
            spec_cmd_builtin_target(),
            spec_cmd_bpf_target(),
            cwd@,
        ),
{
    let fixtures_dir = text::path_join("./solana-conformance", "impl/test-vectors");
    let corpus = text::path_join(fixtures_dir.as_str(), program.fixtures_path());
    let lib_dir = text::path_join("./solana-conformance", "impl/lib");
    let builtin = text::path_join(lib_dir.as_str(), "builtin.so");
    let target = text::path_join(lib_dir.as_str(), "core_bpf.so");
    let script = crate::conformance::conformance_script(
        corpus.as_str(),
        builtin.as_str(),
        target.as_str(),
        cwd,
    );
    let mut args: Vec<String> = Vec::new();
    args.push(String::from_str("-c"));
    args.push(script);
    CommandSpec { program: String::from_str("bash"), args, current_dir: None, env: Vec::new() }
}

} // verus!
