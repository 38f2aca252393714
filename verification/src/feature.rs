//! Feature activation through the runtime CLI: the invocation that
//! submits the activation, built from the feature keypair's path. The
//! driver runs it, then waits for the next epoch and a few settling
//! slots (see the synchronizer) before asserting anything.

use vstd::prelude::*;
use crate::command::Command;
use crate::command::Invocation;
use crate::command::spec_command_line;
use crate::dirs;
use crate::setup;

verus! {

/// The cluster the activation is submitted to: the local validator.
pub open spec fn spec_feature_cluster() -> Seq<char> {
    "development"@
}

/// The arguments of the CLI's feature activation.
pub open spec fn spec_activation_args(feature_keypair_path: Seq<char>) -> Seq<char> {
    "feature activate "@ + feature_keypair_path + " "@ + spec_feature_cluster()
}

/// The invocation that activates the feature under test: the built
/// runtime CLI, run in the repository, pointed at the feature keypair
/// and the local cluster.
pub fn activate_programify_feature_gate(feature_keypair_path: &str) -> (r: Invocation)
    ensures
        r.command_line@ == spec_command_line(
            setup::spec_solana_cli_path(),
            spec_activation_args(feature_keypair_path@),
        ),
        r.dir@ == dirs::spec_repository_path(),
        !r.detached,
{
    let cli = setup::get_solana_cli_path();
    let args = String::from_str("feature activate ");
    let args = args.concat(feature_keypair_path);
    let args = args.concat(" ");
    let args = args.concat("development");
    let repo = dirs::repository_path();
    Command::raw_command_with_dir(cli.as_str(), args.as_str(), repo.as_str())
}

} // verus!
