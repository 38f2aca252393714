//! The differential conformance subsystem.
//!
//! It proves a candidate loaded-program artifact behaviorally
//! equivalent to the runtime-native implementation it replaces,
//! independent of the live cluster: prepare a checkout of the
//! conformance driver, the fixture corpus and the reference-execution
//! adapter; build the adapter once in builtin mode and once in
//! candidate mode; and replay the fixture corpus through the targets.
//!
//! The library computes every command invocation and records which
//! targets have been built; the driver executes the commands. Build
//! ordering is a hard precondition: asking for a replay before the
//! needed target was built fails immediately with a target-not-built
//! error, and never produces a replay command.

use vstd::prelude::*;
use vstd::string::StringSliceAdditionalSpecFns;
use crate::program::Program;
use crate::program::spec_fixtures_path;
use crate::program::spec_name_snake_case;
use crate::program::spec_program_id;
use crate::program::spec_repository;
use crate::program::spec_skip_list;
use crate::text;
use crate::text::spec_path_join;

verus! {

/// The local checkout of the conformance driver.
pub open spec fn spec_conformance_path() -> Seq<char> {
    "./solana-conformance"@
}

/// The checkout of the program's own repository, under the driver.
pub open spec fn spec_program_repo_path() -> Seq<char> {
    spec_path_join(spec_conformance_path(), "impl/program-repo"@)
}

/// The checkout of the reference-execution adapter, under the driver.
pub open spec fn spec_sf_agave_path() -> Seq<char> {
    spec_path_join(spec_conformance_path(), "impl/solfuzz-agave"@)
}

/// The directory the built targets are moved into.
pub open spec fn spec_targets_dir() -> Seq<char> {
    spec_path_join(spec_conformance_path(), "impl/lib"@)
}

/// The checkout of the recorded fixture corpus, under the driver.
pub open spec fn spec_test_vectors_path() -> Seq<char> {
    spec_path_join(spec_conformance_path(), "impl/test-vectors"@)
}

/// The adapter's manifest.
pub open spec fn spec_adapter_manifest_path() -> Seq<char> {
    spec_path_join(spec_sf_agave_path(), "Cargo.toml"@)
}

/// Where the adapter build drops its shared artifact.
pub open spec fn spec_adapter_artifact_path() -> Seq<char> {
    spec_path_join(
        spec_sf_agave_path(),
        "target/x86_64-unknown-linux-gnu/release/libsolfuzz_agave.so"@,
    )
}

/// The fixed path of the built native target.
pub open spec fn spec_builtin_target_path() -> Seq<char> {
    spec_path_join(spec_targets_dir(), "builtin.so"@)
}

/// The fixed path of the built candidate target.
pub open spec fn spec_bpf_target_path() -> Seq<char> {
    spec_path_join(spec_targets_dir(), "bpf.so"@)
}

/// The fixture corpus the handler replays: the program's own
/// fixture blobs when asked for them, the recorded test-vector corpus
/// for the program otherwise.
pub open spec fn spec_fixtures_root(p: Program, use_mollusk_fixtures: bool) -> Seq<char> {
    if use_mollusk_fixtures {
        spec_path_join(
            spec_path_join(spec_path_join(spec_program_repo_path(), "program"@), "fuzz"@),
            "blob"@,
        )
    } else {
        spec_path_join(spec_test_vectors_path(), spec_fixtures_path(p))
    }
}

/// The command that creates the targets directory under the driver's
/// checkout.
pub open spec fn spec_is_make_targets_dir_command(cmd: CommandSpec) -> bool {
    &&& cmd.program@ == "mkdir"@
    &&& (cmd.current_dir matches Some(d) && d@ == spec_conformance_path())
    &&& cmd.env@.len() == 0
    &&& cmd.args@.len() == 2
    &&& cmd.args@[0]@ == "-p"@
    &&& cmd.args@[1]@ == "impl/lib"@
}

/// A build of the reference-execution adapter: cargo, against the
/// adapter's manifest, a release library for the fixed target triple.
/// The first seven arguments are that invocation; `n_args` admits the
/// feature flags a candidate build appends after them.
pub open spec fn spec_is_adapter_build_command(cmd: CommandSpec, n_args: int) -> bool {
    &&& cmd.program@ == "cargo"@
    &&& cmd.current_dir is None
    &&& cmd.args@.len() == n_args
    &&& n_args >= 7
    &&& cmd.args@[0]@ == "build"@
    &&& cmd.args@[1]@ == "--manifest-path"@
    &&& cmd.args@[2]@ == spec_adapter_manifest_path()
    &&& cmd.args@[3]@ == "--lib"@
    &&& cmd.args@[4]@ == "--release"@
    &&& cmd.args@[5]@ == "--target"@
    &&& cmd.args@[6]@ == "x86_64-unknown-linux-gnu"@
}

/// One environment variable of a command invocation.
pub struct EnvVar {
    pub name: String,
    pub value: String,
}

/// One subprocess invocation, in plain form, for the driver to run to
/// completion.
pub struct CommandSpec {
    pub program: String,
    pub args: Vec<String>,
    pub current_dir: Option<String>,
    pub env: Vec<EnvVar>,
}

/// One clone-if-absent/pull-if-present checkout, keyed by a fixed
/// URL and branch.
pub struct CloneSpec {
    pub url: String,
    pub branch: String,
    pub dest: String,
}

/// The idempotent environment preparation: the checkouts to ensure,
/// the skip-listed fixture files to remove, and the two bootstrap
/// commands of the conformance driver.
pub struct SetupPlan {
    pub clones: Vec<CloneSpec>,
    pub remove_fixtures: Vec<CommandSpec>,
    pub fetch_protos: CommandSpec,
    pub install_environment: CommandSpec,
}

/// A build whose artifact is then moved to its fixed target path.
pub struct BuildPlan {
    pub make_targets_dir: CommandSpec,
    pub build: CommandSpec,
    pub artifact_source: String,
    pub artifact_destination: String,
}

/// A replay was requested before the target it needs was built.
#[derive(Clone, Copy, Debug, PartialEq, Eq, Structural)]
pub enum ConformanceError {
    BuiltinTargetNotBuilt,
    BpfTargetNotBuilt,
}

/// The conformance testing handler. It accumulates, over its
/// lifetime, at most one built native target path and one built
/// candidate target path; replays demand the targets they use.
pub struct ConformanceHandler {
    pub builtin_target_path: Option<String>,
    pub bpf_target_path: Option<String>,
    pub elf_path: String,
    pub fixtures_path: String,
    pub program_id: String,
}

impl ConformanceHandler {
    fn new(program: &Program, elf_directory: &str, fixtures_path: String) -> (r: Self)
        ensures
            r.builtin_target_path is None,
            r.bpf_target_path is None,
            r.elf_path@ == spec_path_join(elf_directory@, spec_name_snake_case(*program) + ".so"@),
            r.fixtures_path@ == fixtures_path@,
            r.program_id@ == spec_program_id(*program),
    {
        let elf_name = program.elf_name();
        ConformanceHandler {
            builtin_target_path: None,
            bpf_target_path: None,
            elf_path: text::path_join(elf_directory, elf_name.as_str()),
            fixtures_path,
            program_id: program.program_id(),
        }
    }

    /// A handler over an already prepared environment: nothing is
    /// cloned or installed, and no target is recorded as built.
    pub fn no_setup(program: &Program, elf_directory: &str, use_mollusk_fixtures: bool) -> (r:
        Self)
        ensures
            r.builtin_target_path is None,
            r.bpf_target_path is None,
            r.elf_path@ == spec_path_join(elf_directory@, spec_name_snake_case(*program) + ".so"@),
            r.fixtures_path@ == spec_fixtures_root(*program, use_mollusk_fixtures),
            r.program_id@ == spec_program_id(*program),
    {
        let fixtures_path = fixtures_root(program, use_mollusk_fixtures);
        Self::new(program, elf_directory, fixtures_path)
    }

    /// The environment preparation for a fresh handler, as a plan for
    /// the driver: ensure the three checkouts, remove every
    /// skip-listed fixture of the program from the corpus, fetch the
    /// protobufs and install the driver's dependencies. The corpus
    /// holds one `<name>.fix` file per recorded execution, directly
    /// under the corpus directory; each skip-listed name is removed
    /// by exactly one command, and nothing else is removed.
    pub fn setup_plan(program: &Program, use_mollusk_fixtures: bool) -> (r: SetupPlan)
        ensures
            r.clones@.len() == 3,
            r.clones@[0].url@ == "https://github.com/firedancer-io/solana-conformance.git"@,
            r.clones@[0].branch@ == "main"@,
            r.clones@[0].dest@ == spec_conformance_path(),
            r.clones@[1].url@ == "http://github.com/buffalojoec/solfuzz-agave.git"@,
            r.clones@[1].branch@ == "support-feature-gate-program"@,
            r.clones@[1].dest@ == spec_sf_agave_path(),
            use_mollusk_fixtures ==> r.clones@[2].url@ == spec_repository(*program)
                && r.clones@[2].dest@ == spec_program_repo_path(),
            !use_mollusk_fixtures ==> r.clones@[2].url@
                == "https://github.com/firedancer-io/test-vectors.git"@ && r.clones@[2].dest@
                == spec_test_vectors_path(),
            r.clones@[2].branch@ == "main"@,
            use_mollusk_fixtures ==> r.remove_fixtures@.len() == 0,
            !use_mollusk_fixtures ==> r.remove_fixtures@.len() == spec_skip_list(*program).len(),
            forall|i: int|
                0 <= i < r.remove_fixtures@.len() ==> #[trigger] r.remove_fixtures@[i].program@
                    == "rm"@ && r.remove_fixtures@[i].current_dir is None
                    && r.remove_fixtures@[i].env@.len() == 0
                    && r.remove_fixtures@[i].args@.len() == 1
                    && r.remove_fixtures@[i].args@[0]@ == spec_path_join(
                    spec_fixtures_root(*program, false),
                    spec_skip_list(*program)[i] + ".fix"@,
                ),
            r.fetch_protos.program@ == "make"@,
            r.fetch_protos.current_dir matches Some(d) && d@ == spec_conformance_path(),
            r.fetch_protos.args@.len() == 4,
            r.fetch_protos.args@[0]@ == "-j"@,
            r.fetch_protos.args@[1]@ == "-C"@,
            r.fetch_protos.args@[2]@ == "impl/solfuzz-agave"@,
            r.fetch_protos.args@[3]@ == "fetch_proto"@,
            r.install_environment.program@ == "bash"@,
            r.install_environment.current_dir matches Some(d) && d@ == spec_conformance_path(),
            r.install_environment.args@.len() == 1,
            r.install_environment.args@[0]@ == "install_ubuntu_lite.sh"@,
    {
        let mut clones: Vec<CloneSpec> = Vec::new();
        clones.push(
            CloneSpec {
                url: String::from_str("https://github.com/firedancer-io/solana-conformance.git"),
                branch: String::from_str("main"),
                dest: String::from_str("./solana-conformance"),
            },
        );
        clones.push(
            CloneSpec {
                url: String::from_str("http://github.com/buffalojoec/solfuzz-agave.git"),
                branch: String::from_str("support-feature-gate-program"),
                dest: text::path_join("./solana-conformance", "impl/solfuzz-agave"),
            },
        );
        let mut remove_fixtures: Vec<CommandSpec> = Vec::new();
        if use_mollusk_fixtures {
            clones.push(
                CloneSpec {
                    url: String::from_str(program.repository()),
                    branch: String::from_str("main"),
                    dest: text::path_join("./solana-conformance", "impl/program-repo"),
                },
            );
        } else {
            clones.push(
                CloneSpec {
                    url: String::from_str("https://github.com/firedancer-io/test-vectors.git"),
                    branch: String::from_str("main"),
                    dest: text::path_join("./solana-conformance", "impl/test-vectors"),
                },
            );
            let corpus = fixtures_root(program, false);
            let skip = program.skip_conformance_fixtures();
            let n = skip.len();
            let mut i: usize = 0;
            while i < n
                invariant
                    i <= n,
                    n == spec_skip_list(*program).len(),
                    skip@.map_values(|s: &'static str| s@) == spec_skip_list(*program),
                    corpus@ == spec_fixtures_root(*program, false),
                    remove_fixtures@.len() == i,
                    forall|k: int|
                        0 <= k < i ==> #[trigger] remove_fixtures@[k].program@ == "rm"@
                            && remove_fixtures@[k].current_dir is None
                            && remove_fixtures@[k].env@.len() == 0
                            && remove_fixtures@[k].args@.len() == 1
                            && remove_fixtures@[k].args@[0]@ == spec_path_join(
                            spec_fixtures_root(*program, false),
                            spec_skip_list(*program)[k] + ".fix"@,
                        ),
                decreases n - i,
            {
                assert(skip@.map_values(|s: &'static str| s@)[i as int] == spec_skip_list(
                    *program,
                )[i as int]);
                let fix_name = String::from_str(skip[i]);
                let fix_name = fix_name.concat(".fix");
                let fix_file = text::path_join(corpus.as_str(), fix_name.as_str());
                let mut args: Vec<String> = Vec::new();
                args.push(fix_file);
                remove_fixtures.push(
                    CommandSpec {
                        program: String::from_str("rm"),
                        args,
                        current_dir: None,
                        env: Vec::new(),
                    },
                );
                i += 1;
            }
        }
        let mut fetch_args: Vec<String> = Vec::new();
        fetch_args.push(String::from_str("-j"));
        fetch_args.push(String::from_str("-C"));
        fetch_args.push(String::from_str("impl/solfuzz-agave"));
        fetch_args.push(String::from_str("fetch_proto"));
        let fetch_protos = CommandSpec {
            program: String::from_str("make"),
            args: fetch_args,
            current_dir: Some(String::from_str("./solana-conformance")),
            env: Vec::new(),
        };
        let mut install_args: Vec<String> = Vec::new();
        install_args.push(String::from_str("install_ubuntu_lite.sh"));
        let install_environment = CommandSpec {
            program: String::from_str("bash"),
            args: install_args,
            current_dir: Some(String::from_str("./solana-conformance")),
            env: Vec::new(),
        };
        SetupPlan { clones, remove_fixtures, fetch_protos, install_environment }
    }

    /// Compile the adapter in builtin mode and record the native
    /// target as built at its fixed path. The driver must run the
    /// returned plan's commands and move the artifact before replaying.
    pub fn build_conformance_target_builtin(&mut self) -> (r: BuildPlan)
        ensures
            spec_is_make_targets_dir_command(r.make_targets_dir),
            spec_is_adapter_build_command(r.build, 7),
            r.build.env@.len() == 0,
            r.artifact_source@ == spec_adapter_artifact_path(),
            r.artifact_destination@ == spec_builtin_target_path(),
            (final(self).builtin_target_path matches Some(p) && p@ == spec_builtin_target_path()),
            final(self).bpf_target_path == old(self).bpf_target_path,
            final(self).elf_path == old(self).elf_path,
            final(self).fixtures_path == old(self).fixtures_path,
            final(self).program_id == old(self).program_id,
    {
        let target_path = builtin_target_path();
        let plan = BuildPlan {
            make_targets_dir: make_targets_dir_command(),
            build: adapter_build_command(),
            artifact_source: adapter_artifact_path(),
            artifact_destination: builtin_target_path(),
        };
        self.builtin_target_path = Some(target_path);
        plan
    }

    /// Compile the adapter in candidate mode — pointed, through its
    /// build environment, at the program under test and the
    /// replacement artifact — and record the candidate target as built
    /// at its fixed path. `cwd` is the driver's working directory,
    /// used to absolutize the artifact path.
    pub fn build_conformance_target_bpf(&mut self, conformance_mode: bool, cwd: &str) -> (r:
        BuildPlan)
        ensures
            spec_is_make_targets_dir_command(r.make_targets_dir),
            spec_is_adapter_build_command(r.build, 9),
            r.build.env@.len() == 3,
            r.build.env@[0].name@ == "CORE_BPF_PROGRAM_ID"@,
            r.build.env@[0].value@ == old(self).program_id@,
            r.build.env@[1].name@ == "CORE_BPF_TARGET"@,
            r.build.env@[1].value@ == spec_path_join(cwd@, old(self).elf_path@),
            r.build.env@[2].name@ == "FORCE_RECOMPILE"@,
            r.build.env@[2].value@ == "true"@,
            r.build.args@[7]@ == "--features"@,
            conformance_mode ==> r.build.args@[8]@ == "core-bpf-conformance"@,
            !conformance_mode ==> r.build.args@[8]@ == "core-bpf"@,
            r.artifact_source@ == spec_adapter_artifact_path(),
            r.artifact_destination@ == spec_bpf_target_path(),
            (final(self).bpf_target_path matches Some(p) && p@ == spec_bpf_target_path()),
            final(self).builtin_target_path == old(self).builtin_target_path,
            final(self).elf_path == old(self).elf_path,
            final(self).fixtures_path == old(self).fixtures_path,
            final(self).program_id == old(self).program_id,
    {
        let mut build = adapter_build_command();
        build.args.push(String::from_str("--features"));
        if conformance_mode {
            build.args.push(String::from_str("core-bpf-conformance"));
        } else {
            build.args.push(String::from_str("core-bpf"));
        }
        let mut env: Vec<EnvVar> = Vec::new();
        env.push(
            EnvVar {
                name: String::from_str("CORE_BPF_PROGRAM_ID"),
                value: self.program_id.clone(),
            },
        );
        env.push(
            EnvVar {
                name: String::from_str("CORE_BPF_TARGET"),
                value: text::path_join(cwd, self.elf_path.as_str()),
            },
        );
        env.push(EnvVar { name: String::from_str("FORCE_RECOMPILE"), value: String::from_str("true") });
        build.env = env;
        let target_path = bpf_target_path();
        let plan = BuildPlan {
            make_targets_dir: make_targets_dir_command(),
            build,
            artifact_source: adapter_artifact_path(),
            artifact_destination: bpf_target_path(),
        };
        self.bpf_target_path = Some(target_path);
        plan
    }

    /// The fixtures-only replay: every selected fixture executed
    /// against the candidate target alone. Fails immediately with a
    /// target-not-built error — and produces no replay command — when
    /// the candidate target was never built.
    pub fn run_fixtures(&self, cwd: &str) -> (r: Result<CommandSpec, ConformanceError>)
        ensures
            r is Ok <==> self.bpf_target_path is Some,
            self.bpf_target_path is None ==> r == Result::<CommandSpec, ConformanceError>::Err(
                ConformanceError::BpfTargetNotBuilt,
            ),
            (r matches Ok(cmd) ==> cmd.program@ == "bash"@ && cmd.args@.len() == 2
                && cmd.args@[0]@ == "-c"@ && (self.bpf_target_path matches Some(t)
                && cmd.args@[1]@ == spec_fixtures_script(
                    self.fixtures_path@,
                    t@,
                    cwd@,
                ))),
    {
        match &self.bpf_target_path {
            Some(t) => {
                let script = fixtures_script(self.fixtures_path.as_str(), t.as_str(), cwd);
                let mut args: Vec<String> = Vec::new();
                args.push(String::from_str("-c"));
                args.push(script);
                Ok(
                    CommandSpec {
                        program: String::from_str("bash"),
                        args,
                        current_dir: None,
                        env: Vec::new(),
                    },
                )
            },
            None => Err(ConformanceError::BpfTargetNotBuilt),
        }
    }

    /// The differential replay: every selected fixture executed
    /// against both targets, requiring agreement. Fails immediately
    /// with a target-not-built error — and produces no replay command
    /// — when either target was never built.
    pub fn run_conformance(&self, cwd: &str) -> (r: Result<CommandSpec, ConformanceError>)
        ensures
            r is Ok <==> (self.builtin_target_path is Some && self.bpf_target_path is Some),
            self.builtin_target_path is None ==> r == Result::<
                CommandSpec,
                ConformanceError,
            >::Err(ConformanceError::BuiltinTargetNotBuilt),
            self.builtin_target_path is Some && self.bpf_target_path is None ==> r == Result::<
                CommandSpec,
                ConformanceError,
            >::Err(ConformanceError::BpfTargetNotBuilt),
            (r matches Ok(cmd) ==> cmd.program@ == "bash"@ && cmd.args@.len() == 2
                && cmd.args@[0]@ == "-c"@ && (self.builtin_target_path matches Some(s)
                && self.bpf_target_path matches Some(t) && cmd.args@[1]@
                == spec_conformance_script(
                    self.fixtures_path@,
                    s@,
                    t@,
                    cwd@,
                ))),
    {
        match &self.builtin_target_path {
            Some(s) => {
                match &self.bpf_target_path {
                    Some(t) => {
                        let script = conformance_script(
                            self.fixtures_path.as_str(),
                            s.as_str(),
                            t.as_str(),
                            cwd,
                        );
                        let mut args: Vec<String> = Vec::new();
                        args.push(String::from_str("-c"));
                        args.push(script);
                        Ok(
                            CommandSpec {
                                program: String::from_str("bash"),
                                args,
                                current_dir: None,
                                env: Vec::new(),
                            },
                        )
                    },
                    None => Err(ConformanceError::BpfTargetNotBuilt),
                }
            },
            None => Err(ConformanceError::BuiltinTargetNotBuilt),
        }
    }
}

/// The shell script of a fixtures-only replay: enter the driver's
/// checkout, activate its environment, and execute the fixtures at
/// `fixtures_path` against the target at `target_path`, both
/// absolutized against `cwd`.
pub open spec fn spec_fixtures_script(
    fixtures_path: Seq<char>,
    target_path: Seq<char>,
    cwd: Seq<char>,
) -> Seq<char> {
    "cd "@ + spec_conformance_path()
        + " && source test_suite_env/bin/activate && solana-test-suite exec-fixtures -i "@
        + spec_path_join(cwd, fixtures_path) + " -t "@ + spec_path_join(cwd, target_path)
}

/// The shell script of a differential replay: as the fixtures-only
/// script, but naming the native target with `-s` beside the
/// candidate target.
pub open spec fn spec_conformance_script(
    fixtures_path: Seq<char>,
    builtin_path: Seq<char>,
    target_path: Seq<char>,
    cwd: Seq<char>,
) -> Seq<char> {
    "cd "@ + spec_conformance_path()
        + " && source test_suite_env/bin/activate && solana-test-suite run-tests -i "@
        + spec_path_join(cwd, fixtures_path) + " -s "@ + spec_path_join(cwd, builtin_path)
        + " -t "@ + spec_path_join(cwd, target_path)
}

pub(crate) fn fixtures_script(fixtures_path: &str, target_path: &str, cwd: &str) -> (r: String)
    ensures
        r@ == spec_fixtures_script(fixtures_path@, target_path@, cwd@),
{
    let s = String::from_str("cd ");
    let s = s.concat("./solana-conformance");
    let s = s.concat(" && source test_suite_env/bin/activate && solana-test-suite exec-fixtures -i ");
    let i_path = text::path_join(cwd, fixtures_path);
    let s = s.concat(i_path.as_str());
    let s = s.concat(" -t ");
    let t_path = text::path_join(cwd, target_path);
    s.concat(t_path.as_str())
}

pub(crate) fn conformance_script(fixtures_path: &str, builtin_path: &str, target_path: &str, cwd: &str) -> (r:
    String)
    ensures
        r@ == spec_conformance_script(fixtures_path@, builtin_path@, target_path@, cwd@),
{
    let s = String::from_str("cd ");
    let s = s.concat("./solana-conformance");
    let s = s.concat(" && source test_suite_env/bin/activate && solana-test-suite run-tests -i ");
    let i_path = text::path_join(cwd, fixtures_path);
    let s = s.concat(i_path.as_str());
    let s = s.concat(" -s ");
    let s_path = text::path_join(cwd, builtin_path);
    let s = s.concat(s_path.as_str());
    let s = s.concat(" -t ");
    let t_path = text::path_join(cwd, target_path);
    s.concat(t_path.as_str())
}

/// The fixture corpus a handler replays for a program.
pub fn fixtures_root(program: &Program, use_mollusk_fixtures: bool) -> (r: String)
    ensures
        r@ == spec_fixtures_root(*program, use_mollusk_fixtures),
{
    if use_mollusk_fixtures {
        let p = text::path_join("./solana-conformance", "impl/program-repo");
        let p = text::path_join(p.as_str(), "program");
        let p = text::path_join(p.as_str(), "fuzz");
        text::path_join(p.as_str(), "blob")
    } else {
        let p = text::path_join("./solana-conformance", "impl/test-vectors");
        text::path_join(p.as_str(), program.fixtures_path())
    }
}

fn make_targets_dir_command() -> (r: CommandSpec)
    ensures
        spec_is_make_targets_dir_command(r),
{
    let mut args: Vec<String> = Vec::new();
    args.push(String::from_str("-p"));
    args.push(String::from_str("impl/lib"));
    CommandSpec {
        program: String::from_str("mkdir"),
        args,
        current_dir: Some(String::from_str("./solana-conformance")),
        env: Vec::new(),
    }
}

fn adapter_build_command() -> (r: CommandSpec)
    ensures
        spec_is_adapter_build_command(r, 7),
        r.env@.len() == 0,
{
    let mut args: Vec<String> = Vec::new();
    args.push(String::from_str("build"));
    args.push(String::from_str("--manifest-path"));
    args.push(adapter_manifest_path());
    args.push(String::from_str("--lib"));
    args.push(String::from_str("--release"));
    args.push(String::from_str("--target"));
    args.push(String::from_str("x86_64-unknown-linux-gnu"));
    CommandSpec { program: String::from_str("cargo"), args, current_dir: None, env: Vec::new() }
}

fn adapter_manifest_path() -> (r: String)
    ensures
        r@ == spec_adapter_manifest_path(),
{
    let p = text::path_join("./solana-conformance", "impl/solfuzz-agave");
    text::path_join(p.as_str(), "Cargo.toml")
}

fn adapter_artifact_path() -> (r: String)
    ensures
        r@ == spec_adapter_artifact_path(),
{
    let p = text::path_join("./solana-conformance", "impl/solfuzz-agave");
    text::path_join(p.as_str(), "target/x86_64-unknown-linux-gnu/release/libsolfuzz_agave.so")
}

fn builtin_target_path() -> (r: String)
    ensures
        r@ == spec_builtin_target_path(),
{
    let p = text::path_join("./solana-conformance", "impl/lib");
    text::path_join(p.as_str(), "builtin.so")
}

fn bpf_target_path() -> (r: String)
    ensures
        r@ == spec_bpf_target_path(),
{
    let p = text::path_join("./solana-conformance", "impl/lib");
    text::path_join(p.as_str(), "bpf.so")
}

/// The command that ensures a checkout is present and current:
/// where the destination already exists, pull it; where it does not,
/// clone it at the spec's branch.
pub fn ensure_checkout_command(clone: &CloneSpec, dest_exists: bool) -> (r: CommandSpec)
    ensures
        r.program@ == "git"@,
        r.current_dir is None,
        r.env@.len() == 0,
        dest_exists ==> r.args@.len() == 3 && r.args@[0]@ == "-C"@ && r.args@[1]@ == clone.dest@
            && r.args@[2]@ == "pull"@,
        !dest_exists ==> r.args@.len() == 5 && r.args@[0]@ == "clone"@ && r.args@[1]@
            == "--branch"@ && r.args@[2]@ == clone.branch@ && r.args@[3]@ == clone.url@
            && r.args@[4]@ == clone.dest@,
{
    let mut args: Vec<String> = Vec::new();
    if dest_exists {
        args.push(String::from_str("-C"));
        args.push(clone.dest.clone());
        args.push(String::from_str("pull"));
    } else {
        args.push(String::from_str("clone"));
        args.push(String::from_str("--branch"));
        args.push(clone.branch.clone());
        args.push(clone.url.clone());
        args.push(clone.dest.clone());
    }
    CommandSpec { program: String::from_str("git"), args, current_dir: None, env: Vec::new() }
}

/// Judge a fixtures-only replay from the driver's captured output:
/// the replay passed iff the output nowhere reports failed tests.
pub fn fixtures_replay_passed(output: &str) -> (r: bool)
    ensures
        r == !text::spec_contains_bytes(output.spec_bytes(), "Failed tests:".spec_bytes()),
{
    !text::contains_text(output, "Failed tests:")
}

/// Judge a differential replay from the driver's directory listing of
/// failed protobufs: the replay passed iff that directory is absent or
/// empty.
pub fn conformance_replay_passed(failed_dir_exists: bool, failed_dir_empty: bool) -> (r: bool)
    ensures
        r == (!failed_dir_exists || failed_dir_empty),
{
    !failed_dir_exists || failed_dir_empty
}

} // verus!
