//! The setup flow of the earlier driver generation: check out and
//! build the runtime at a fixed branch, delete any stale ledger, and
//! start a local test validator with the feature under test
//! deactivated. The library computes every invocation; the driver
//! runs them and reports what exists on disk.

use vstd::prelude::*;
use crate::command::Command;
use crate::command::Invocation;
use crate::command::spec_command_line;
use crate::command::spec_serialized_name;
use crate::dirs;
use crate::text;
use crate::text::spec_path_join;
use crate::text::spec_u64_dec;

verus! {

/// Slots per epoch for the local validator. Too small a value makes
/// program deploys choppy.
pub const SLOTS_PER_EPOCH: u64 = 150;

/// The slot the local validator warps to at start.
pub const WARP_SLOT: u64 = 123;

/// The runtime checkout's location under the repository.
pub open spec fn spec_solana_path() -> Seq<char> {
    spec_path_join(dirs::spec_repository_path(), ".solana"@)
}

/// The runtime checkout's manifest.
pub open spec fn spec_solana_cargo_manifest_path() -> Seq<char> {
    spec_path_join(spec_solana_path(), "Cargo.toml"@)
}

/// The built runtime CLI.
pub open spec fn spec_solana_cli_path() -> Seq<char> {
    spec_path_join(spec_solana_path(), "target/debug/solana"@)
}

/// The built test validator CLI.
pub open spec fn spec_solana_test_validator_cli_path() -> Seq<char> {
    spec_path_join(spec_solana_path(), "target/debug/solana-test-validator"@)
}

/// The local validator's disposable ledger directory.
pub open spec fn spec_test_validator_ledger_path() -> Seq<char> {
    spec_path_join(dirs::spec_repository_path(), "test-ledger"@)
}

/// The runtime checkout's location.
pub fn get_solana_path() -> (r: String)
    ensures
        r@ == spec_solana_path(),
{
    let repo = dirs::repository_path();
    text::path_join(repo.as_str(), ".solana")
}

/// The runtime checkout's manifest.
pub fn get_solana_cargo_manifest_path() -> (r: String)
    ensures
        r@ == spec_solana_cargo_manifest_path(),
{
    let p = get_solana_path();
    text::path_join(p.as_str(), "Cargo.toml")
}

/// The built runtime CLI.
pub fn get_solana_cli_path() -> (r: String)
    ensures
        r@ == spec_solana_cli_path(),
{
    let p = get_solana_path();
    text::path_join(p.as_str(), "target/debug/solana")
}

/// The built test validator CLI.
pub fn get_solana_test_validator_cli_path() -> (r: String)
    ensures
        r@ == spec_solana_test_validator_cli_path(),
{
    let p = get_solana_path();
    text::path_join(p.as_str(), "target/debug/solana-test-validator")
}

/// The local validator's disposable ledger directory.
pub fn get_solana_test_validator_ledger_path() -> (r: String)
    ensures
        r@ == spec_test_validator_ledger_path(),
{
    let repo = dirs::repository_path();
    text::path_join(repo.as_str(), "test-ledger")
}

/// One git invocation with the given arguments in the given
/// directory, run to completion.
pub open spec fn spec_is_git_invocation(inv: Invocation, args: Seq<char>, dir: Seq<char>) -> bool {
    &&& inv.command_line@ == spec_command_line(spec_serialized_name(Command::Git), args)
    &&& inv.dir@ == dir
    &&& !inv.detached
}

/// The arguments of the clone of the runtime repository at its fixed
/// URL and branch.
pub open spec fn spec_clone_args() -> Seq<char> {
    "clone "@ + "https://github.com/buffalojoec/solana.git"@ + " --branch "@
        + "test-migrate-feature-gate-03-14"@ + " "@ + spec_solana_path()
}

/// Bring the runtime checkout up to date: check the fixed branch out
/// and pull where the checkout exists, clone it at that branch where
/// it does not.
pub fn fetch_changes(checkout_exists: bool) -> (r: Vec<Invocation>)
    ensures
        checkout_exists ==> r@.len() == 2 && spec_is_git_invocation(
            r@[0],
            "checkout test-migrate-feature-gate-03-14"@,
            spec_solana_path(),
        ) && spec_is_git_invocation(r@[1], "pull"@, spec_solana_path()),
        !checkout_exists ==> r@.len() == 1 && spec_is_git_invocation(
            r@[0],
            spec_clone_args(),
            dirs::spec_repository_path(),
        ),
{
    let mut r: Vec<Invocation> = Vec::new();
    let solana_path = get_solana_path();
    if checkout_exists {
        r.push(
            Command::Git.command_with_dir(
                "checkout test-migrate-feature-gate-03-14",
                solana_path.as_str(),
            ),
        );
        r.push(Command::Git.command_with_dir("pull", solana_path.as_str()));
    } else {
        let args = String::from_str("clone ");
        let args = args.concat("https://github.com/buffalojoec/solana.git");
        let args = args.concat(" --branch ");
        let args = args.concat("test-migrate-feature-gate-03-14");
        let args = args.concat(" ");
        let args = args.concat(solana_path.as_str());
        r.push(Command::Git.command(args.as_str()));
    }
    r
}

/// Build the checked-out runtime with its own cargo wrapper.
pub fn build_solana() -> (r: Invocation)
    ensures
        r.command_line@ == spec_command_line(
            "./cargo"@,
            "build --manifest-path "@ + spec_solana_cargo_manifest_path(),
        ),
        r.dir@ == spec_solana_path(),
        !r.detached,
{
    let manifest = get_solana_cargo_manifest_path();
    let args = String::from_str("build --manifest-path ");
    let args = args.concat(manifest.as_str());
    let dir = get_solana_path();
    Command::raw_command_with_dir("./cargo", args.as_str(), dir.as_str())
}

/// The arguments the local validator is started with: the fixed epoch
/// length and warp slot, the disposable ledger, and the feature under
/// test deactivated so the run begins staged.
pub open spec fn spec_validator_args(feature_id: Seq<char>) -> Seq<char> {
    "--slots-per-epoch "@ + spec_u64_dec(150) + " --ledger "@ + spec_test_validator_ledger_path()
        + " --warp-slot "@ + spec_u64_dec(123) + " --deactivate-feature "@ + feature_id
}

/// Start the local test validator, detached, with the feature under
/// test deactivated.
pub fn start_test_validator(feature_id: &str) -> (r: Invocation)
    ensures
        r.command_line@ == spec_command_line(
            spec_solana_test_validator_cli_path(),
            spec_validator_args(feature_id@),
        ),
        r.dir@ == dirs::spec_repository_path(),
        r.detached,
{
    let ledger = get_solana_test_validator_ledger_path();
    let args = String::from_str("--slots-per-epoch ");
    let epoch = text::u64_to_dec_string(SLOTS_PER_EPOCH);
    let args = args.concat(epoch.as_str());
    let args = args.concat(" --ledger ");
    let args = args.concat(ledger.as_str());
    let args = args.concat(" --warp-slot ");
    let warp = text::u64_to_dec_string(WARP_SLOT);
    let args = args.concat(warp.as_str());
    let args = args.concat(" --deactivate-feature ");
    let args = args.concat(feature_id);
    let cli = get_solana_test_validator_cli_path();
    let repo = dirs::repository_path();
    Command::raw_command_detached_with_dir(cli.as_str(), args.as_str(), repo.as_str())
}

/// The whole setup flow, sequenced: delete any stale ledger, bring
/// the runtime checkout up to date, build it, and start the local
/// validator.
pub struct SetupSequence {
    pub ledger_to_delete: Option<String>,
    pub fetch: Vec<Invocation>,
    pub build: Invocation,
    pub start: Invocation,
}

/// Plan the setup flow from what exists on disk and the feature under
/// test.
pub fn setup(ledger_exists: bool, checkout_exists: bool, feature_id: &str) -> (r: SetupSequence)
    ensures
        r.ledger_to_delete is Some <==> ledger_exists,
        (r.ledger_to_delete matches Some(p) ==> p@ == spec_test_validator_ledger_path()),
        checkout_exists ==> r.fetch@.len() == 2 && spec_is_git_invocation(
            r.fetch@[0],
            "checkout test-migrate-feature-gate-03-14"@,
            spec_solana_path(),
        ) && spec_is_git_invocation(r.fetch@[1], "pull"@, spec_solana_path()),
        !checkout_exists ==> r.fetch@.len() == 1 && spec_is_git_invocation(
            r.fetch@[0],
            spec_clone_args(),
            dirs::spec_repository_path(),
        ),
        r.build.command_line@ == spec_command_line(
            "./cargo"@,
            "build --manifest-path "@ + spec_solana_cargo_manifest_path(),
        ),
        r.build.dir@ == spec_solana_path(),
        r.start.command_line@ == spec_command_line(
            spec_solana_test_validator_cli_path(),
            spec_validator_args(feature_id@),
        ),
        r.start.detached,
{
    SetupSequence {
        ledger_to_delete: teardown(ledger_exists),
        fetch: fetch_changes(checkout_exists),
        build: build_solana(),
        start: start_test_validator(feature_id),
    }
}

/// Tear the run down: the disposable ledger directory to delete, if
/// it exists. The ledger is never reused across runs.
pub fn teardown(ledger_exists: bool) -> (r: Option<String>)
    ensures
        r is Some <==> ledger_exists,
        (r matches Some(p) ==> p@ == spec_test_validator_ledger_path()),
{
    if ledger_exists {
        Some(get_solana_test_validator_ledger_path())
    } else {
        None
    }
}

} // verus!
