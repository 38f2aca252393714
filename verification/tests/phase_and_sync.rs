//! The phase state machine and the epoch/slot synchronizer model.

use cbm_harness::phase::{
    assert_program_is_bpf, assert_program_is_builtin, classify, is_builtin, is_loaded_program,
    Phase, PhaseError,
};
use cbm_harness::sync::{
    activation_effect_slot, epoch_of_slot, epoch_wait_progress_percent, epoch_wait_step,
    migration_confirmation_slot, phase_at_slot, remaining_slots_in_epoch, run_epoch_wait,
    run_slot_wait, slot_wait_done, WaitStep,
};

const NATIVE: &str = "NativeLoader1111111111111111111111111111111";
const LOADER: &str = "BPFLoaderUpgradeab1e11111111111111111111111";
const ACTIVATOR: &str = "CBMActivator1111111111111111111111111111111";

#[test]
fn ownership_assertions_match_the_sdk_loaders() {
    assert_eq!(solana_sdk::native_loader::id().to_string(), NATIVE);
    assert_eq!(solana_sdk::bpf_loader_upgradeable::id().to_string(), LOADER);
    assert!(is_builtin(NATIVE));
    assert!(!is_builtin(LOADER));
    assert!(is_loaded_program(LOADER));
    assert!(!is_loaded_program(NATIVE));
}

#[test]
fn builtin_and_loaded_never_hold_at_once() {
    for owner in [NATIVE, LOADER, ACTIVATOR, ""] {
        assert!(!(is_builtin(owner) && is_loaded_program(owner)));
    }
    assert_eq!(assert_program_is_builtin(NATIVE), Ok(()));
    assert_eq!(
        assert_program_is_builtin(LOADER),
        Err(PhaseError::NotABuiltin)
    );
    assert_eq!(assert_program_is_bpf(LOADER), Ok(()));
    assert_eq!(
        assert_program_is_bpf(NATIVE),
        Err(PhaseError::NotALoadedProgram)
    );
}

#[test]
fn classify_derives_each_phase_from_ownership() {
    assert_eq!(classify(NATIVE, ACTIVATOR), Some(Phase::Staged));
    assert_eq!(classify(NATIVE, NATIVE), Some(Phase::BeforeMigration));
    assert_eq!(classify(LOADER, ACTIVATOR), Some(Phase::AfterMigration));
    assert_eq!(classify(LOADER, NATIVE), Some(Phase::AfterMigration));
    assert_eq!(classify(ACTIVATOR, ACTIVATOR), None);
}

#[test]
fn remaining_slots_and_epochs() {
    assert_eq!(remaining_slots_in_epoch(0, 50), 50);
    assert_eq!(remaining_slots_in_epoch(49, 50), 1);
    assert_eq!(remaining_slots_in_epoch(50, 50), 50);
    assert_eq!(remaining_slots_in_epoch(137, 50), 13);
    assert_eq!(epoch_of_slot(0, 50), 0);
    assert_eq!(epoch_of_slot(49, 50), 0);
    assert_eq!(epoch_of_slot(50, 50), 1);
    assert_eq!(epoch_of_slot(137, 50), 2);
}

#[test]
fn epoch_wait_progress_is_the_elapsed_share() {
    assert_eq!(epoch_wait_progress_percent(0, 50), 0);
    assert_eq!(epoch_wait_progress_percent(25, 50), 50);
    assert_eq!(epoch_wait_progress_percent(49, 50), 98);
    assert_eq!(epoch_wait_progress_percent(50, 50), 0);
    // Any positive epoch length is accepted, however large.
    assert_eq!(epoch_wait_progress_percent(u64::MAX - 1, u64::MAX), 99);
}

#[test]
fn epoch_wait_polls_until_one_slot_remains() {
    assert_eq!(epoch_wait_step(0, 50), WaitStep::KeepPolling);
    assert_eq!(epoch_wait_step(48, 50), WaitStep::KeepPolling);
    assert_eq!(epoch_wait_step(49, 50), WaitStep::Settle);
    assert_eq!(epoch_wait_step(99, 50), WaitStep::Settle);

    // Called at slot zero with a fifty-slot epoch: the loop keeps
    // polling until it sees slot 49, and the slot observed after the
    // settling delay is past the boundary, so the reported epoch is
    // that slot divided by fifty.
    let polls = vec![0u64, 7, 23, 42, 49];
    let outcome = run_epoch_wait(&polls, 51, 50).unwrap();
    assert_eq!(outcome.stop_index, 4);
    assert_eq!(outcome.epoch, 1);

    // A wait whose polls never reach the boundary has not returned.
    assert!(run_epoch_wait(&vec![0u64, 10, 20], 20, 50).is_none());
}

#[test]
fn slot_wait_blocks_until_the_slot_moves() {
    assert!(!slot_wait_done(7, 7));
    assert!(slot_wait_done(7, 8));
    assert_eq!(run_slot_wait(7, &vec![7u64, 7, 8, 9]), Some(2));
    assert_eq!(run_slot_wait(7, &vec![7u64, 7]), None);
}

#[test]
fn staged_feature_takes_effect_at_the_next_boundary() {
    // Activation submitted at slot 10 with a 150-slot epoch: the
    // feature takes effect at slot 150 and the migration is confirmed
    // queryable from slot 151 on.
    assert_eq!(activation_effect_slot(10, 150), 150);
    assert_eq!(migration_confirmation_slot(10, 150), 151);

    // The harness observes Staged through slot 149 and AfterMigration
    // from the boundary on; probes run at slots 5, 151 and 301 all
    // see a settled phase.
    assert_eq!(phase_at_slot(5, 10, 150), Phase::Staged);
    assert_eq!(phase_at_slot(149, 10, 150), Phase::Staged);
    assert_eq!(phase_at_slot(150, 10, 150), Phase::AfterMigration);
    assert_eq!(phase_at_slot(151, 10, 150), Phase::AfterMigration);
    assert_eq!(phase_at_slot(301, 10, 150), Phase::AfterMigration);

    // An activation right on a boundary still waits for the next one.
    assert_eq!(activation_effect_slot(150, 150), 300);
}
