//! The copier at work on a source of bytes: a model of its runs, and what
//! holds of every one of them.
//!
//! A run pairs the copier with a driver that does what it is told: a read
//! hands over the next bytes of the source, at most as many as were asked
//! for and none only at the end of the source; a write appends exactly the
//! bytes of the last read to what the run has written.

use vstd::prelude::*;
use crate::copier::{CopyAction, CopyEvent, CopyPhase, CopyTask, SENTINEL};

verus! {

/// A copier together with the files it works on.
pub struct CopyWorld {
    /// Content of the source.
    pub source: Seq<u8>,
    /// Content of the destination before the run.
    pub before: Seq<u8>,
    /// The block limit the copy was started with.
    pub limit: Option<usize>,
    /// Number of bytes read from the source so far.
    pub pos: nat,
    /// Number of reads made so far, the one that found the end included.
    pub reads: nat,
    /// The bytes written to the destination so far, in order.
    pub copied: Seq<u8>,
    /// The snapshots published so far, in order.
    pub published: Seq<usize>,
    /// The copier.
    pub task: CopyTask,
}

/// Content of a file that held `before` and was then written from its start
/// with `copied`, without being truncated.
pub open spec fn spec_overwrite(before: Seq<u8>, copied: Seq<u8>) -> Seq<u8> {
    if copied.len() >= before.len() {
        copied
    } else {
        copied + before.subrange(copied.len() as int, before.len() as int)
    }
}

impl CopyWorld {
    /// The world at the start of a copy.
    pub open spec fn spec_initial(
        source: Seq<u8>,
        before: Seq<u8>,
        block_size: usize,
        count: Option<usize>,
    ) -> CopyWorld {
        CopyWorld {
            source,
            before,
            limit: count,
            pos: 0,
            reads: 0,
            copied: Seq::empty(),
            published: Seq::empty(),
            task: CopyTask::spec_new(block_size, count),
        }
    }

    /// Content of the destination.
    pub open spec fn spec_destination(self) -> Seq<u8> {
        spec_overwrite(self.before, self.copied)
    }

    /// Whether the copy loop is over and the copy did not fail.
    pub open spec fn spec_loop_exited(self) -> bool {
        self.task.phase == CopyPhase::Closing || self.task.phase == CopyPhase::Flushing
            || self.task.phase == CopyPhase::Signalling || self.task.phase == CopyPhase::Finished
    }

    /// Whether `next` is this world after the driver carried out the pending
    /// action and reported `event`.
    pub open spec fn spec_moves(self, event: CopyEvent, next: CopyWorld) -> bool {
        &&& self.task.spec_accepts(event)
        &&& next.task == self.task.spec_step(event)
        &&& next.source == self.source
        &&& next.before == self.before
        &&& next.limit == self.limit
        &&& match (self.task.spec_action(), event) {
            (CopyAction::Read { max }, CopyEvent::ReadDone { len }) => {
                &&& self.pos + len <= self.source.len()
                &&& (len == 0 ==> self.pos == self.source.len() || max == 0)
                &&& next.pos == self.pos + len
                &&& next.reads == self.reads + 1
                &&& next.copied == self.copied
                &&& next.published == self.published
            },
            (CopyAction::Write { len }, CopyEvent::WriteDone { .. }) => {
                &&& next.pos == self.pos
                &&& next.reads == self.reads
                &&& next.copied == self.copied + self.source.subrange(self.pos - len, self.pos as int)
                &&& next.published == self.published
            },
            (CopyAction::Publish { value }, CopyEvent::Published) => {
                &&& next.pos == self.pos
                &&& next.reads == self.reads
                &&& next.copied == self.copied
                &&& next.published == self.published.push(value)
            },
            _ => {
                &&& next.pos == self.pos
                &&& next.reads == self.reads
                &&& next.copied == self.copied
                &&& next.published == self.published
            },
        }
    }

    /// The most that a copy limited to `limit` blocks, with `remaining` of
    /// them left, may have read.
    pub open spec fn spec_read_bound(limit: usize, remaining: usize, block_size: usize) -> int {
        (limit - remaining) * block_size
    }

    /// What holds of the budget in every world of a run.
    pub open spec fn spec_budget_kept(self) -> bool {
        match self.limit {
            None => self.task.remaining.is_none(),
            Some(limit) => {
                &&& self.pos <= limit * self.task.block_size
                &&& self.reads <= limit
                &&& self.task.remaining.is_some()
                &&& self.task.remaining.unwrap() <= limit
                &&& match self.task.phase {
                    CopyPhase::Reading | CopyPhase::Reporting => self.reads + self.task.remaining.unwrap()
                        <= limit,
                    _ => true,
                }
                &&& match self.task.phase {
                    CopyPhase::Aborted => true,
                    CopyPhase::Reading => {
                        &&& self.task.remaining.unwrap() >= 1
                        &&& self.pos <= Self::spec_read_bound(
                            limit,
                            self.task.remaining.unwrap(),
                            self.task.block_size,
                        )
                    },
                    CopyPhase::Writing { .. } => {
                        &&& self.task.remaining.unwrap() >= 1
                        &&& self.reads + self.task.remaining.unwrap() <= limit + 1
                        &&& self.pos <= Self::spec_read_bound(
                            limit,
                            self.task.remaining.unwrap(),
                            self.task.block_size,
                        ) + self.task.block_size
                    },
                    _ => self.pos <= Self::spec_read_bound(
                        limit,
                        self.task.remaining.unwrap(),
                        self.task.block_size,
                    ),
                }
            },
        }
    }

    /// What holds of the snapshots once the loop is over.
    pub open spec fn spec_snapshots_kept(self) -> bool {
        match self.task.phase {
            CopyPhase::Flushing | CopyPhase::Signalling => {
                &&& self.published.len() >= 1
                &&& self.published.last() == self.task.written
            },
            CopyPhase::Finished => {
                &&& self.published.len() >= 2
                &&& self.published[self.published.len() - 2] == self.task.written
                &&& self.published.last() == SENTINEL
            },
            _ => true,
        }
    }

    /// What holds in every world of a run.
    pub open spec fn spec_consistent(self) -> bool {
        &&& self.pos <= self.source.len()
        &&& self.copied.len() <= self.pos
        &&& self.copied == self.source.subrange(0, self.copied.len() as int)
        &&& self.spec_budget_kept()
        &&& self.task.phase != CopyPhase::Aborted ==> {
            &&& self.copied.len() == self.task.written
            &&& match self.task.phase {
                CopyPhase::Writing { len } => 0 < len <= self.task.block_size && self.task.written + len
                    == self.pos,
                _ => self.task.written == self.pos,
            }
            &&& self.spec_loop_exited() ==> self.pos == self.source.len() || self.task.block_size == 0
                || self.task.remaining == Some(0usize)
            &&& self.spec_snapshots_kept()
        }
    }
}

/// Whether `worlds` is a run of the copier under `events`: each world moves
/// to the next by the event of the same index.
pub open spec fn spec_run(worlds: Seq<CopyWorld>, events: Seq<CopyEvent>) -> bool {
    &&& worlds.len() == events.len() + 1
    &&& forall|i: int| 0 <= i < events.len() ==> (#[trigger] worlds[i]).spec_moves(events[i], worlds[i + 1])
}

/// A budget with one more block used allows one more block to have been
/// read.
proof fn lemma_bound_grows(limit: usize, remaining: usize, block_size: usize)
    requires
        1 <= remaining <= limit,
    ensures
        CopyWorld::spec_read_bound(limit, (remaining - 1) as usize, block_size) == CopyWorld::spec_read_bound(
            limit,
            remaining,
            block_size,
        ) + block_size,
        0 <= CopyWorld::spec_read_bound(limit, remaining, block_size),
        CopyWorld::spec_read_bound(limit, (remaining - 1) as usize, block_size) <= limit * block_size,
{
    assert((limit - (remaining - 1)) * block_size == (limit - remaining) * block_size + block_size)
        by (nonlinear_arith);
    assert(0 <= (limit - remaining) * block_size) by (nonlinear_arith)
        requires
            remaining <= limit,
    ;
    assert((limit - (remaining - 1)) * block_size <= limit * block_size) by (nonlinear_arith)
        requires
            1 <= remaining <= limit,
    ;
}

/// The start of a copy is consistent.
pub proof fn lemma_initial_consistent(source: Seq<u8>, before: Seq<u8>, block_size: usize, count: Option<usize>)
    ensures
        CopyWorld::spec_initial(source, before, block_size, count).spec_consistent(),
{
    let w = CopyWorld::spec_initial(source, before, block_size, count);
    assert(w.copied =~= w.source.subrange(0, 0));
    match count {
        Some(c) => {
            assert(0 <= c * block_size) by (nonlinear_arith);
            assert((c - c) * block_size == 0) by (nonlinear_arith);
        },
        None => {},
    }
}

/// One move of the driver keeps the world consistent.
pub proof fn lemma_move_consistent(w: CopyWorld, event: CopyEvent, next: CopyWorld)
    requires
        w.spec_consistent(),
        w.spec_moves(event, next),
    ensures
        next.spec_consistent(),
{
    match w.limit {
        Some(limit) => {
            let r = w.task.remaining.unwrap();
            if r >= 1 {
                lemma_bound_grows(limit, r, w.task.block_size);
            }
        },
        None => {},
    }
    match (w.task.phase, event) {
        (CopyPhase::Writing { len }, CopyEvent::WriteDone { .. }) => {
            assert(next.copied =~= w.source.subrange(0, w.pos as int));
        },
        _ => {},
    }
}

/// Every world of a run that starts consistent is consistent.
pub proof fn lemma_run_consistent(worlds: Seq<CopyWorld>, events: Seq<CopyEvent>, k: int)
    requires
        spec_run(worlds, events),
        worlds[0].spec_consistent(),
        0 <= k <= events.len(),
    ensures
        worlds[k].spec_consistent(),
    decreases k,
{
    if k > 0 {
        lemma_run_consistent(worlds, events, k - 1);
        assert(worlds[k - 1].spec_moves(events[k - 1], worlds[k - 1 + 1]));
        lemma_move_consistent(worlds[k - 1], events[k - 1], worlds[k]);
    }
}

/// A copy without a block limit, in blocks of at least one byte, copies the
/// source exactly: once its loop is over, it has written the bytes of the
/// source and no others, the destination begins with them, its counter
/// equals the length of the source, and so does the snapshot it publishes
/// on leaving the loop.
pub proof fn law_unlimited_copy_is_exact(
    source: Seq<u8>,
    before: Seq<u8>,
    block_size: usize,
    worlds: Seq<CopyWorld>,
    events: Seq<CopyEvent>,
)
    requires
        block_size > 0,
        spec_run(worlds, events),
        worlds[0] == CopyWorld::spec_initial(source, before, block_size, None),
        worlds.last().spec_loop_exited(),
    ensures
        worlds.last().copied == source,
        worlds.last().task.written == source.len(),
        worlds.last().spec_destination().len() >= source.len(),
        worlds.last().spec_destination().subrange(0, source.len() as int) == source,
        worlds.last().task.phase == CopyPhase::Closing ==> worlds.last().task.spec_action()
            == (CopyAction::Publish { value: source.len() as usize }),
        worlds.last().task.phase == CopyPhase::Flushing || worlds.last().task.phase
            == CopyPhase::Signalling ==> worlds.last().published.last() == source.len(),
        worlds.last().task.phase == CopyPhase::Finished ==> worlds.last().published.len() >= 2
            && worlds.last().published[worlds.last().published.len() - 2] == source.len()
            && worlds.last().published.last() == SENTINEL,
{
    lemma_initial_consistent(source, before, block_size, None);
    lemma_run_unchanging(worlds, events, events.len() as int);
    lemma_run_consistent(worlds, events, events.len() as int);
    let w = worlds.last();
    assert(w.copied =~= source);
    assert(w.spec_destination().subrange(0, source.len() as int) =~= source);
}

/// A run changes neither the source, nor what the destination held before
/// it, nor the limit and the block size of the copy.
pub proof fn lemma_run_unchanging(worlds: Seq<CopyWorld>, events: Seq<CopyEvent>, k: int)
    requires
        spec_run(worlds, events),
        0 <= k <= events.len(),
    ensures
        worlds[k].source == worlds[0].source,
        worlds[k].before == worlds[0].before,
        worlds[k].limit == worlds[0].limit,
        worlds[k].task.block_size == worlds[0].task.block_size,
    decreases k,
{
    if k > 0 {
        lemma_run_unchanging(worlds, events, k - 1);
        assert(worlds[k - 1].spec_moves(events[k - 1], worlds[k - 1 + 1]));
    }
}

/// A copy limited to `count` blocks of `block_size` bytes never makes more
/// than `count` reads, never reads more than `count * block_size` bytes from
/// the source, and never writes more than it has read, at any moment of any
/// run.
pub proof fn law_reads_within_budget(
    source: Seq<u8>,
    before: Seq<u8>,
    block_size: usize,
    count: usize,
    worlds: Seq<CopyWorld>,
    events: Seq<CopyEvent>,
    k: int,
)
    requires
        spec_run(worlds, events),
        worlds[0] == CopyWorld::spec_initial(source, before, block_size, Some(count)),
        0 <= k <= events.len(),
    ensures
        worlds[k].reads <= count,
        worlds[k].pos <= count * block_size,
        worlds[k].copied.len() <= worlds[k].pos,
        worlds[k].copied.len() <= count * block_size,
{
    lemma_initial_consistent(source, before, block_size, Some(count));
    lemma_run_unchanging(worlds, events, k);
    lemma_run_consistent(worlds, events, k);
}

/// A copy fails only where a read or a write fails: on a source that is not
/// longer than the byte counter can count, a move that is no failure never
/// leaves a copier aborted that was not.
pub proof fn law_abort_only_on_failure(w: CopyWorld, event: CopyEvent, next: CopyWorld)
    requires
        w.spec_consistent(),
        w.spec_moves(event, next),
        w.source.len() <= usize::MAX,
        w.task.phase != CopyPhase::Aborted,
        event != CopyEvent::IoFailed,
    ensures
        next.task.phase != CopyPhase::Aborted,
{
}

/// What holds in every world of a run on an empty source, in blocks of at
/// least one byte: nothing is written, and the snapshots are a zero on
/// leaving the loop and the sentinel at the end.
pub open spec fn spec_empty_kept(w: CopyWorld) -> bool {
    &&& w.source.len() == 0
    &&& w.task.block_size > 0
    &&& w.pos == 0
    &&& w.copied.len() == 0
    &&& w.task.written == 0
    &&& match w.task.phase {
        CopyPhase::Reading | CopyPhase::Closing => w.published =~= Seq::empty(),
        CopyPhase::Flushing | CopyPhase::Signalling => w.published =~= seq![0usize],
        CopyPhase::Finished => w.published =~= seq![0usize, SENTINEL],
        CopyPhase::Aborted => true,
        _ => false,
    }
}

/// A copy of an empty source, in blocks of at least one byte, writes
/// nothing and publishes two snapshots in all: a zero when the loop is left,
/// and the sentinel.
pub proof fn law_empty_source(
    before: Seq<u8>,
    block_size: usize,
    count: Option<usize>,
    worlds: Seq<CopyWorld>,
    events: Seq<CopyEvent>,
    k: int,
)
    requires
        block_size > 0,
        spec_run(worlds, events),
        worlds[0] == CopyWorld::spec_initial(Seq::empty(), before, block_size, count),
        0 <= k <= events.len(),
    ensures
        spec_empty_kept(worlds[k]),
        worlds[k].spec_destination() == before,
        worlds[k].task.phase == CopyPhase::Finished ==> worlds[k].published == seq![0usize, SENTINEL],
    decreases k,
{
    if k > 0 {
        law_empty_source(before, block_size, count, worlds, events, k - 1);
        lemma_run_unchanging(worlds, events, k - 1);
        assert(worlds[k - 1].spec_moves(events[k - 1], worlds[k - 1 + 1]));
        let w = worlds[k - 1];
        let next = worlds[k];
        match w.task.phase {
            CopyPhase::Closing => {
                assert(w.published.push(0usize) =~= seq![0usize]);
            },
            CopyPhase::Signalling => {
                assert(w.published.push(SENTINEL) =~= seq![0usize, SENTINEL]);
            },
            _ => {},
        }
        assert(spec_empty_kept(next));
    }
    lemma_run_unchanging(worlds, events, k);
    assert(worlds[k].spec_destination() =~= before);
}

/// A bound on the moves that are left to a copy: three for each byte that
/// is still unread, and those of the block at hand and of the end.
pub open spec fn spec_moves_left(w: CopyWorld) -> int {
    match w.task.phase {
        CopyPhase::Writing { .. } => 3 * (w.source.len() - w.pos) + 6,
        CopyPhase::Reporting => 3 * (w.source.len() - w.pos) + 5,
        CopyPhase::Reading => 3 * (w.source.len() - w.pos) + 4,
        CopyPhase::Closing => 3,
        CopyPhase::Flushing => 2,
        CopyPhase::Signalling => 1,
        CopyPhase::Finished => 0,
        CopyPhase::Aborted => 0,
    }
}

/// Every move brings the copy nearer to its end.
pub proof fn lemma_move_advances(w: CopyWorld, event: CopyEvent, next: CopyWorld)
    requires
        w.spec_consistent(),
        w.spec_moves(event, next),
    ensures
        0 <= spec_moves_left(next) < spec_moves_left(w),
{
    lemma_move_consistent(w, event, next);
}

/// Every copy ends: a run on a source of `source.len()` bytes has at most
/// three moves for each byte and four more, whatever the block size and the
/// limit, and a copier that has stopped accepts no further event.
pub proof fn law_run_is_bounded(
    source: Seq<u8>,
    before: Seq<u8>,
    block_size: usize,
    count: Option<usize>,
    worlds: Seq<CopyWorld>,
    events: Seq<CopyEvent>,
    k: int,
)
    requires
        spec_run(worlds, events),
        worlds[0] == CopyWorld::spec_initial(source, before, block_size, count),
        0 <= k <= events.len(),
    ensures
        k + spec_moves_left(worlds[k]) <= 3 * source.len() + 4,
        k <= 3 * source.len() + 4,
        worlds[k].task.phase == CopyPhase::Finished || worlds[k].task.phase == CopyPhase::Aborted ==> k
            == events.len(),
    decreases k,
{
    lemma_initial_consistent(source, before, block_size, count);
    lemma_run_consistent(worlds, events, k);
    if k > 0 {
        law_run_is_bounded(source, before, block_size, count, worlds, events, k - 1);
        lemma_run_consistent(worlds, events, k - 1);
        assert(worlds[k - 1].spec_moves(events[k - 1], worlds[k - 1 + 1]));
        lemma_move_advances(worlds[k - 1], events[k - 1], worlds[k]);
    }
    if k < events.len() {
        assert(worlds[k].spec_moves(events[k], worlds[k + 1]));
    }
}

/// Writing over a file what its start already holds changes nothing: after
/// a copy of `first` onto `before`, a copy of `second` leaves the file as it
/// is, where both are the start of one source and `second` is not the longer.
pub proof fn lemma_overwrite_again(source: Seq<u8>, before: Seq<u8>, first: Seq<u8>, second: Seq<u8>)
    requires
        second.len() <= first.len() <= source.len(),
        first == source.subrange(0, first.len() as int),
        second == source.subrange(0, second.len() as int),
    ensures
        spec_overwrite(spec_overwrite(before, first), second) == spec_overwrite(before, first),
{
    assert(spec_overwrite(spec_overwrite(before, first), second) =~= spec_overwrite(before, first));
}

/// Copying twice gives what copying once gives. Of two runs on the same
/// source, the second onto the destination that the first left: where the
/// second writes no more bytes than the first, it leaves the destination
/// unchanged. That is so in particular for two completed copies without a
/// block limit, in blocks of at least one byte.
pub proof fn law_second_copy_changes_nothing(
    source: Seq<u8>,
    before: Seq<u8>,
    block_size: usize,
    count: Option<usize>,
    first: Seq<CopyWorld>,
    first_events: Seq<CopyEvent>,
    second: Seq<CopyWorld>,
    second_events: Seq<CopyEvent>,
)
    requires
        spec_run(first, first_events),
        spec_run(second, second_events),
        first[0] == CopyWorld::spec_initial(source, before, block_size, count),
        second[0] == CopyWorld::spec_initial(source, first.last().spec_destination(), block_size, count),
        second.last().copied.len() <= first.last().copied.len() || (count.is_none() && block_size > 0
            && first.last().spec_loop_exited() && second.last().spec_loop_exited()),
    ensures
        second.last().spec_destination() == first.last().spec_destination(),
{
    let mid = first.last().spec_destination();
    lemma_initial_consistent(source, before, block_size, count);
    lemma_initial_consistent(source, mid, block_size, count);
    lemma_run_unchanging(first, first_events, first_events.len() as int);
    lemma_run_unchanging(second, second_events, second_events.len() as int);
    lemma_run_consistent(first, first_events, first_events.len() as int);
    lemma_run_consistent(second, second_events, second_events.len() as int);
    if !(second.last().copied.len() <= first.last().copied.len()) {
        law_unlimited_copy_is_exact(source, before, block_size, first, first_events);
        law_unlimited_copy_is_exact(source, mid, block_size, second, second_events);
    }
    lemma_overwrite_again(source, before, first.last().copied, second.last().copied);
}

} // verus!
