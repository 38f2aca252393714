//! The migration phase state machine.
//!
//! A program under migration is, at any instant, in one of three
//! phases, derived live from on-chain account ownership and never
//! cached: `BeforeMigration` (the runtime-owned builtin), `Staged`
//! (feature proposed but not yet effective) and `AfterMigration` (the
//! loaded-program implementation). The machine never moves backward.

use vstd::prelude::*;
use crate::activator::spec_activator_program_id;
use crate::sdk;
use crate::sdk::spec_native_loader_id;
use crate::sdk::spec_upgradeable_loader_id;

verus! {

/// One phase of a migration.
#[derive(Clone, Copy, Debug, PartialEq, Eq, Structural)]
pub enum Phase {
    BeforeMigration,
    Staged,
    AfterMigration,
}

/// A failed ownership assertion.
#[derive(Clone, Copy, Debug, PartialEq, Eq, Structural)]
pub enum PhaseError {
    NotABuiltin,
    NotALoadedProgram,
}

/// An owner marks a builtin program iff it is the reserved native
/// authority.
pub open spec fn spec_is_builtin(owner: Seq<char>) -> bool {
    owner == spec_native_loader_id()
}

/// An owner marks a loaded program iff it is the upgradeable loader.
pub open spec fn spec_is_loaded_program(owner: Seq<char>) -> bool {
    owner == spec_upgradeable_loader_id()
}

/// Whether the owner of a program account is the runtime's reserved
/// native authority.
pub fn is_builtin(owner: &str) -> (r: bool)
    ensures
        r == spec_is_builtin(owner@),
{
    let id = sdk::native_loader_id();
    let o = owner.to_owned();
    o == id
}

/// Whether the owner of a program account is the upgradeable loader.
pub fn is_loaded_program(owner: &str) -> (r: bool)
    ensures
        r == spec_is_loaded_program(owner@),
{
    let id = sdk::upgradeable_loader_id();
    let o = owner.to_owned();
    o == id
}

/// Succeeds iff the account's owning authority is the runtime's
/// reserved native authority. A failure is fatal to the run: the
/// driver panics on it rather than retrying.
pub fn assert_program_is_builtin(owner: &str) -> (r: Result<(), PhaseError>)
    ensures
        r is Ok <==> spec_is_builtin(owner@),
        r is Err ==> r == Result::<(), PhaseError>::Err(PhaseError::NotABuiltin),
{
    if is_builtin(owner) {
        Ok(())
    } else {
        Err(PhaseError::NotABuiltin)
    }
}

/// Succeeds iff the account's owning authority is the upgradeable
/// loader. A failure is fatal to the run.
pub fn assert_program_is_bpf(owner: &str) -> (r: Result<(), PhaseError>)
    ensures
        r is Ok <==> spec_is_loaded_program(owner@),
        r is Err ==> r == Result::<(), PhaseError>::Err(PhaseError::NotALoadedProgram),
{
    if is_loaded_program(owner) {
        Ok(())
    } else {
        Err(PhaseError::NotALoadedProgram)
    }
}

/// The phase that a pair of observed owners witnesses: the owner of
/// the program account, and the owner of the program's feature
/// account. `None` means the ownership matches no phase of the
/// migration protocol.
pub open spec fn spec_classify(program_owner: Seq<char>, feature_owner: Seq<char>) -> Option<
    Phase,
> {
    if spec_is_loaded_program(program_owner) {
        Some(Phase::AfterMigration)
    } else if spec_is_builtin(program_owner) && feature_owner == spec_activator_program_id() {
        Some(Phase::Staged)
    } else if spec_is_builtin(program_owner) {
        Some(Phase::BeforeMigration)
    } else {
        None
    }
}

/// Derive the current phase from account ownership. The feature
/// account is owned by the activator helper program exactly while the
/// feature is staged.
pub fn classify(program_owner: &str, feature_owner: &str) -> (r: Option<Phase>)
    ensures
        r == spec_classify(program_owner@, feature_owner@),
{
    if is_loaded_program(program_owner) {
        Some(Phase::AfterMigration)
    } else if is_builtin(program_owner) {
        let activator = crate::activator::activator_program_id();
        let f = feature_owner.to_owned();
        if f == activator {
            Some(Phase::Staged)
        } else {
            Some(Phase::BeforeMigration)
        }
    } else {
        None
    }
}

/// The builtin and the loaded-program assertion never hold of the same
/// owner at once: an account owned by the native authority is not
/// owned by the upgradeable loader.
pub proof fn lemma_builtin_loaded_exclusive(owner: Seq<char>)
    ensures
        !(spec_is_builtin(owner) && spec_is_loaded_program(owner)),
{
    reveal_strlit("NativeLoader1111111111111111111111111111111");
    reveal_strlit("BPFLoaderUpgradeab1e11111111111111111111111");
    assert(spec_native_loader_id()[0] == 'N');
    assert(spec_upgradeable_loader_id()[0] == 'B');
}

/// The phase witnessed before a migration is never `AfterMigration`,
/// and the phase witnessed after it is nothing else: `classify` maps
/// native ownership to `BeforeMigration` or `Staged`, and loader
/// ownership to `AfterMigration`, exclusively.
pub proof fn lemma_classify_faithful(program_owner: Seq<char>, feature_owner: Seq<char>)
    ensures
        spec_is_builtin(program_owner) ==> spec_classify(program_owner, feature_owner)
            != Some(Phase::AfterMigration),
        spec_is_loaded_program(program_owner) ==> spec_classify(program_owner, feature_owner)
            == Some(Phase::AfterMigration),
{
    lemma_builtin_loaded_exclusive(program_owner);
}

} // verus!
