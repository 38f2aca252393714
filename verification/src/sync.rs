//! The epoch/slot synchronizer and the migration timeline.
//!
//! The synchronizer polls the cluster's current slot at a fixed short
//! interval and blocks the calling flow until a target transition
//! occurs; no timeout is enforced. The library holds the decision
//! logic of those polling loops — when to keep polling, when to settle
//! and return — and the arithmetic of epochs; the driver performs the
//! polls and the sleeps, and feeds every observation back in.

use vstd::prelude::*;
use vstd::arithmetic::div_mod::lemma_fundamental_div_mod;
use crate::phase::Phase;

verus! {

/// The slots left in the epoch that contains `slot`: the distance to
/// the next epoch boundary, between one and the epoch length.
pub open spec fn spec_remaining_slots(slot: u64, epoch_length: u64) -> int {
    epoch_length - slot % epoch_length
}

/// The epoch that contains `slot`.
pub open spec fn spec_epoch_of(slot: u64, epoch_length: u64) -> int {
    slot as int / epoch_length as int
}

/// Compute the slots remaining in the current epoch.
pub fn remaining_slots_in_epoch(slot: u64, epoch_length: u64) -> (r: u64)
    requires
        epoch_length > 0,
    ensures
        r == spec_remaining_slots(slot, epoch_length),
        1 <= r <= epoch_length,
{
    epoch_length - (slot % epoch_length)
}

/// Compute the epoch that contains a slot.
pub fn epoch_of_slot(slot: u64, epoch_length: u64) -> (r: u64)
    requires
        epoch_length > 0,
    ensures
        r == spec_epoch_of(slot, epoch_length),
{
    slot / epoch_length
}

/// One decision of the epoch-wait polling loop.
#[derive(Clone, Copy, Debug, PartialEq, Eq, Structural)]
pub enum WaitStep {
    /// The boundary is more than one slot away: sleep the fixed
    /// interval and poll again.
    KeepPolling,
    /// The remaining distance has reached its minimum: add the one
    /// extra settling delay, then return.
    Settle,
}

/// Decide one step of the epoch wait from an observed slot.
pub fn epoch_wait_step(slot: u64, epoch_length: u64) -> (r: WaitStep)
    requires
        epoch_length > 0,
    ensures
        r == WaitStep::Settle <==> spec_remaining_slots(slot, epoch_length) == 1,
{
    if remaining_slots_in_epoch(slot, epoch_length) == 1 {
        WaitStep::Settle
    } else {
        WaitStep::KeepPolling
    }
}

/// How far through the current epoch an observed slot is, in percent:
/// what the wait's progress display shows. Computed in wider
/// arithmetic, so any positive epoch length is accepted.
pub fn epoch_wait_progress_percent(slot: u64, epoch_length: u64) -> (r: u64)
    requires
        epoch_length > 0,
    ensures
        r == (slot as int % epoch_length as int) * 100 / epoch_length as int,
        r < 100,
{
    let rem = slot % epoch_length;
    let pct = (rem as u128) * 100 / (epoch_length as u128);
    proof {
        assert((rem as int) * 100 / (epoch_length as int) < 100) by (nonlinear_arith)
            requires
                rem < epoch_length,
                epoch_length > 0,
        ;
    }
    pct as u64
}

/// Whether the slot wait is done: the observed slot differs from the
/// slot observed at call time. Polled slots never go backward, so a
/// differing slot strictly exceeds the starting one.
pub fn slot_wait_done(start_slot: u64, observed_slot: u64) -> (r: bool)
    ensures
        r == (observed_slot != start_slot),
        observed_slot >= start_slot ==> (r == (observed_slot > start_slot)),
{
    observed_slot != start_slot
}

/// The wait for the next slot, run over a recorded sequence of polled
/// slots: the index of the first poll that left the starting slot, or
/// `None` where every poll still saw it (the wait would still be
/// blocking).
pub fn run_slot_wait(start_slot: u64, polls: &Vec<u64>) -> (r: Option<usize>)
    ensures
        (r matches Some(i) ==> i < polls@.len() && polls@[i as int] != start_slot && (forall|j: int|
            0 <= j < i ==> polls@[j] == start_slot)),
        r is None <==> (forall|j: int| 0 <= j < polls@.len() ==> polls@[j] == start_slot),
{
    let n = polls.len();
    let mut i: usize = 0;
    while i < n
        invariant
            i <= n,
            n == polls@.len(),
            forall|j: int| 0 <= j < i ==> polls@[j] == start_slot,
        decreases n - i,
    {
        if slot_wait_done(start_slot, polls[i]) {
            return Some(i);
        }
        i += 1;
    }
    None
}

/// What the epoch wait returned: where its polling loop stopped, and
/// the epoch it then reported.
pub struct EpochWaitOutcome {
    /// The index of the poll whose remaining distance had reached one.
    pub stop_index: usize,
    /// The epoch of the slot observed after the settling delay.
    pub epoch: u64,
}

/// The wait for the next epoch, run over a recorded sequence of
/// polled slots: the loop polls until the remaining distance to the
/// boundary reaches one, settles, and reports the epoch of the slot
/// then observed (`settled_slot`). `None` means no poll reached the
/// boundary and the wait would still be blocking.
pub fn run_epoch_wait(polls: &Vec<u64>, settled_slot: u64, epoch_length: u64) -> (r: Option<
    EpochWaitOutcome,
>)
    requires
        epoch_length > 0,
    ensures
        (r matches Some(o) ==> o.stop_index < polls@.len() && spec_remaining_slots(
            polls@[o.stop_index as int],
            epoch_length,
        ) == 1 && (forall|j: int|
            0 <= j < o.stop_index ==> spec_remaining_slots(polls@[j], epoch_length) != 1)
            && o.epoch == spec_epoch_of(settled_slot, epoch_length)),
        r is None <==> (forall|j: int|
            0 <= j < polls@.len() ==> spec_remaining_slots(polls@[j], epoch_length) != 1),
{
    let n = polls.len();
    let mut i: usize = 0;
    while i < n
        invariant
            i <= n,
            n == polls@.len(),
            epoch_length > 0,
            forall|j: int| 0 <= j < i ==> spec_remaining_slots(polls@[j], epoch_length) != 1,
        decreases n - i,
    {
        match epoch_wait_step(polls[i], epoch_length) {
            WaitStep::Settle => {
                return Some(
                    EpochWaitOutcome {
                        stop_index: i,
                        epoch: epoch_of_slot(settled_slot, epoch_length),
                    },
                );
            },
            WaitStep::KeepPolling => {},
        }
        i += 1;
    }
    None
}

/// With a fifty-slot epoch, the epoch wait returns only once the
/// cluster has crossed the boundary: the polling loop stops at a slot
/// one short of the boundary, the settling delay observes a strictly
/// later slot, so the slot observed at return is at least fifty — and
/// the epoch reported is exactly that slot divided by fifty.
pub proof fn lemma_epoch_wait_crosses_boundary(
    polls: Seq<u64>,
    stop_index: int,
    settled_slot: u64,
)
    requires
        0 <= stop_index < polls.len(),
        spec_remaining_slots(polls[stop_index], 50) == 1,
        settled_slot > polls[stop_index],
    ensures
        settled_slot >= 50,
        spec_epoch_of(settled_slot, 50) >= 1,
{
    let s = polls[stop_index];
    assert(s % 50 == 49);
    lemma_fundamental_div_mod(s as int, 50);
    assert(s >= 49);
    assert(settled_slot >= 50);
    lemma_fundamental_div_mod(settled_slot as int, 50);
}

/// The slot at which a feature activated at `activation_slot` takes
/// effect: the next epoch boundary. Features only take effect at
/// epoch boundaries.
pub open spec fn spec_effect_slot(activation_slot: u64, epoch_length: u64) -> int {
    (spec_epoch_of(activation_slot, epoch_length) + 1) * epoch_length
}

/// Compute the slot at which an activation takes effect.
pub fn activation_effect_slot(activation_slot: u64, epoch_length: u64) -> (r: u64)
    requires
        epoch_length > 0,
        activation_slot + epoch_length <= u64::MAX,
    ensures
        r == spec_effect_slot(activation_slot, epoch_length),
        activation_slot < r <= activation_slot + epoch_length,
{
    let q = activation_slot / epoch_length;
    proof {
        lemma_fundamental_div_mod(activation_slot as int, epoch_length as int);
        vstd::arithmetic::div_mod::lemma_mod_bound(activation_slot as int, epoch_length as int);
        let m = activation_slot as int % epoch_length as int;
        assert(activation_slot < (q as int + 1) * epoch_length as int <= activation_slot
            + epoch_length) by (nonlinear_arith)
            requires
                activation_slot as int == epoch_length as int * (q as int) + m,
                0 <= m,
                m < epoch_length as int,
                epoch_length > 0,
        ;
    }
    (q + 1) * epoch_length
}

/// The first slot from which the completed migration is confirmed
/// queryable: one settle slot past the boundary that activated it.
pub fn migration_confirmation_slot(activation_slot: u64, epoch_length: u64) -> (r: u64)
    requires
        epoch_length > 0,
        activation_slot + epoch_length < u64::MAX,
    ensures
        r == spec_effect_slot(activation_slot, epoch_length) + 1,
{
    let boundary = activation_effect_slot(activation_slot, epoch_length);
    boundary + 1
}

/// The phase the cluster exhibits at `slot`, after a feature was
/// activated at `activation_slot`: staged until the next epoch
/// boundary, migrated from the boundary on.
pub open spec fn spec_phase_at_slot(slot: u64, activation_slot: u64, epoch_length: u64) -> Phase {
    if slot < spec_effect_slot(activation_slot, epoch_length) {
        Phase::Staged
    } else {
        Phase::AfterMigration
    }
}

/// Compute the phase the cluster exhibits at a slot.
pub fn phase_at_slot(slot: u64, activation_slot: u64, epoch_length: u64) -> (r: Phase)
    requires
        epoch_length > 0,
        activation_slot + epoch_length <= u64::MAX,
    ensures
        r == spec_phase_at_slot(slot, activation_slot, epoch_length),
{
    let boundary = activation_effect_slot(activation_slot, epoch_length);
    if slot < boundary {
        Phase::Staged
    } else {
        Phase::AfterMigration
    }
}

/// The migration timeline never moves backward: once a slot exhibits
/// the migrated phase, every later slot does too.
pub proof fn lemma_no_backward_transition(
    slot1: u64,
    slot2: u64,
    activation_slot: u64,
    epoch_length: u64,
)
    requires
        slot1 <= slot2,
        spec_phase_at_slot(slot1, activation_slot, epoch_length) == Phase::AfterMigration,
    ensures
        spec_phase_at_slot(slot2, activation_slot, epoch_length) == Phase::AfterMigration,
{
}

} // verus!
