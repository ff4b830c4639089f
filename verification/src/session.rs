//! The driver and the copier together: how the driver's phase follows the
//! snapshots that a copy publishes.

use vstd::prelude::*;
use crate::copier::{CopyEvent, CopyPhase, SENTINEL};
use crate::driver::{Driver, DriverEvent, DriverPhase};
use crate::meminfo::spec_estimated_flushed;
use crate::model::{lemma_initial_consistent, lemma_run_consistent, lemma_run_unchanging, spec_run, CopyWorld};

verus! {

/// The driver's phase after it has taken in the snapshot `value`, for a copy
/// of `total` bytes: while copying it waits for the total itself, while
/// flushing for the sentinel.
pub open spec fn spec_phase_after(phase: DriverPhase, total: usize, value: usize) -> DriverPhase {
    match phase {
        DriverPhase::Copying => if value == total {
            DriverPhase::Flushing
        } else {
            DriverPhase::Copying
        },
        DriverPhase::Flushing => if value == SENTINEL {
            DriverPhase::Done
        } else {
            DriverPhase::Flushing
        },
        _ => phase,
    }
}

/// The driver's phase after it has taken in `snapshots` one by one.
pub open spec fn spec_phase_after_all(phase: DriverPhase, total: usize, snapshots: Seq<usize>) -> DriverPhase
    decreases snapshots.len(),
{
    if snapshots.len() == 0 {
        phase
    } else {
        spec_phase_after(spec_phase_after_all(phase, total, snapshots.drop_last()), total, snapshots.last())
    }
}

/// The driver's steps move its phase as `spec_phase_after` says, whatever it
/// last reported: a snapshot received while copying, a snapshot found by a
/// poll while flushing. An empty poll and a measurement that gives an
/// estimate leave it flushing.
pub proof fn lemma_steps_follow_snapshots(driver: Driver, value: usize, dirty_kb: usize)
    ensures
        driver.phase == DriverPhase::Copying ==> driver.spec_step(DriverEvent::Snapshot { value }).0.phase
            == spec_phase_after(driver.phase, driver.total, value),
        driver.phase == DriverPhase::Flushing ==> driver.spec_step(
            DriverEvent::Polled { signal: Some(value) },
        ).0.phase == spec_phase_after(driver.phase, driver.total, value),
        driver.phase == DriverPhase::Flushing ==> driver.spec_step(DriverEvent::Polled { signal: None }).0.phase
            == DriverPhase::Flushing,
        driver.phase == DriverPhase::Flushing && spec_estimated_flushed(driver.total, dirty_kb).is_some()
            ==> driver.spec_step(DriverEvent::Measured { dirty_kb: Some(dirty_kb) }).0.phase
            == DriverPhase::Flushing,
{
}

/// Where a driver that expects as many bytes as the source holds stands
/// after the snapshots of the world `w`.
pub open spec fn spec_driver_phase(w: CopyWorld) -> DriverPhase {
    spec_phase_after_all(DriverPhase::Copying, w.source.len() as usize, w.published)
}

/// How the driver follows a copy without a block limit: it is done when the
/// copier is finished and not before, and it watches the flush from the
/// snapshot that closes the loop at the latest.
pub open spec fn spec_driver_follows(w: CopyWorld) -> bool {
    match w.task.phase {
        CopyPhase::Aborted => true,
        CopyPhase::Finished => spec_driver_phase(w) == DriverPhase::Done,
        CopyPhase::Flushing | CopyPhase::Signalling => spec_driver_phase(w) == DriverPhase::Flushing,
        _ => {
            &&& (w.task.phase == CopyPhase::Reporting ==> w.task.written > 0)
            &&& (spec_driver_phase(w) == DriverPhase::Copying || (spec_driver_phase(w) == DriverPhase::Flushing
                && w.source.len() > 0))
        },
    }
}

/// One move of the driver of the copier keeps the driver of the program in
/// step.
proof fn lemma_move_follows(w: CopyWorld, event: CopyEvent, next: CopyWorld)
    requires
        w.spec_consistent(),
        next.spec_consistent(),
        w.spec_moves(event, next),
        w.limit.is_none(),
        w.task.block_size > 0,
        w.source.len() <= usize::MAX,
        spec_driver_follows(w),
    ensures
        spec_driver_follows(next),
{
    if next.published != w.published {
        let value = next.published.last();
        assert(next.published.drop_last() =~= w.published);
        assert(spec_driver_phase(next) == spec_phase_after(spec_driver_phase(w), w.source.len() as usize, value));
    }
}

/// The driver ends on the sentinel. Of a copy without a block limit, in
/// blocks of at least one byte, watched by a driver that expects the length
/// of the source: while the copier is in its loop the driver is copying or
/// watching the flush; once the closing snapshot is out it watches the
/// flush; and it is done exactly when the copier has published the sentinel.
pub proof fn law_driver_ends_on_sentinel(
    source: Seq<u8>,
    before: Seq<u8>,
    block_size: usize,
    worlds: Seq<CopyWorld>,
    events: Seq<CopyEvent>,
    k: int,
)
    requires
        block_size > 0,
        source.len() <= usize::MAX,
        spec_run(worlds, events),
        worlds[0] == CopyWorld::spec_initial(source, before, block_size, None),
        0 <= k <= events.len(),
    ensures
        spec_driver_follows(worlds[k]),
        worlds[k].task.phase != CopyPhase::Aborted ==> (spec_driver_phase(worlds[k]) == DriverPhase::Done
            <==> worlds[k].task.phase == CopyPhase::Finished),
    decreases k,
{
    lemma_initial_consistent(source, before, block_size, None);
    if k > 0 {
        law_driver_ends_on_sentinel(source, before, block_size, worlds, events, k - 1);
        lemma_run_unchanging(worlds, events, k - 1);
        lemma_run_consistent(worlds, events, k - 1);
        lemma_run_consistent(worlds, events, k);
        assert(worlds[k - 1].spec_moves(events[k - 1], worlds[k - 1 + 1]));
        lemma_move_follows(worlds[k - 1], events[k - 1], worlds[k]);
    }
}

} // verus!
