//! The block copier as a state machine.
//!
//! The machine decides; its driver performs. At each moment the machine has
//! one pending action. The driver carries it out, reports what happened as an
//! event, and receives the next action.

use vstd::prelude::*;

verus! {

/// Milliseconds that must have passed since the last snapshot before the
/// copier publishes another one between two blocks.
pub const REPORT_INTERVAL_MS: u128 = 500;

/// The snapshot value that marks the end of the copy phase.
pub const SENTINEL: usize = 0;

/// What the copier is waiting for.
#[derive(Debug, Clone, Copy, PartialEq, Eq)]
pub enum CopyPhase {
    /// A block is being read from the source.
    Reading,
    /// The `len` bytes of the last read are being written to the destination.
    Writing { len: usize },
    /// A snapshot is being published between two blocks.
    Reporting,
    /// The loop is over; the final snapshot is being published.
    Closing,
    /// The destination is being asked to flush its data.
    Flushing,
    /// The sentinel is being published.
    Signalling,
    /// Nothing is left to do.
    Finished,
    /// A read or a write failed, or the byte counter overflowed.
    Aborted,
}

/// What the driver must do next.
#[derive(Debug, Clone, Copy, PartialEq, Eq)]
pub enum CopyAction {
    /// Read at most `max` bytes from the source into the buffer.
    Read { max: usize },
    /// Write the first `len` bytes of the buffer, all of them, to the
    /// destination.
    Write { len: usize },
    /// Send `value` as a progress snapshot and restart the report clock.
    Publish { value: usize },
    /// Ask the destination to flush its data; a failure is not an error.
    Flush,
    /// Stop: the copy is complete.
    Done,
    /// Stop: the copy failed.
    Abort,
}

/// What the driver observed while carrying out the pending action.
#[derive(Debug, Clone, Copy, PartialEq, Eq)]
pub enum CopyEvent {
    /// The read returned `len` bytes; zero means the source is exhausted.
    ReadDone { len: usize },
    /// The write completed; `since_report_ms` milliseconds have passed since
    /// the report clock was last restarted.
    WriteDone { since_report_ms: u128 },
    /// The snapshot was sent.
    Published,
    /// The flush request returned, successfully or not.
    Flushed,
    /// A read or a write failed.
    IoFailed,
}

/// State of one copy.
#[derive(Debug, Clone, Copy, PartialEq, Eq)]
pub struct CopyTask {
    /// Size of one block in bytes.
    pub block_size: usize,
    /// Blocks that may still be read; `None` when there is no limit.
    pub remaining: Option<usize>,
    /// Bytes written to the destination so far.
    pub written: usize,
    /// What the copier is waiting for.
    pub phase: CopyPhase,
}

/// Whether a budget of `remaining` blocks allows another read.
pub open spec fn spec_budget_left(remaining: Option<usize>) -> bool {
    remaining != Some(0usize)
}

/// The budget after one block has been used.
pub open spec fn spec_budget_after_block(remaining: Option<usize>) -> Option<usize> {
    match remaining {
        Some(r) => if r > 0 {
            Some((r - 1) as usize)
        } else {
            Some(0usize)
        },
        None => None,
    }
}

impl CopyTask {
    /// The state of a fresh copy with the given block size and block budget.
    pub open spec fn spec_new(block_size: usize, count: Option<usize>) -> CopyTask {
        CopyTask {
            block_size,
            remaining: count,
            written: 0,
            phase: if spec_budget_left(count) {
                CopyPhase::Reading
            } else {
                CopyPhase::Closing
            },
        }
    }

    /// Whether the state is one that a copy can be in: a block that waits to
    /// be written is not empty and not longer than a block, and a read is
    /// pending only while the budget lasts.
    pub open spec fn spec_wf(self) -> bool {
        match self.phase {
            CopyPhase::Reading => spec_budget_left(self.remaining),
            CopyPhase::Writing { len } => 0 < len <= self.block_size,
            _ => true,
        }
    }

    /// The action that is pending in this state.
    pub open spec fn spec_action(self) -> CopyAction {
        match self.phase {
            CopyPhase::Reading => CopyAction::Read { max: self.block_size },
            CopyPhase::Writing { len } => CopyAction::Write { len },
            CopyPhase::Reporting => CopyAction::Publish { value: self.written },
            CopyPhase::Closing => CopyAction::Publish { value: self.written },
            CopyPhase::Flushing => CopyAction::Flush,
            CopyPhase::Signalling => CopyAction::Publish { value: SENTINEL },
            CopyPhase::Finished => CopyAction::Done,
            CopyPhase::Aborted => CopyAction::Abort,
        }
    }

    /// Whether `event` is an answer to the pending action. A read cannot
    /// return more than was asked for.
    pub open spec fn spec_accepts(self, event: CopyEvent) -> bool {
        match (self.phase, event) {
            (CopyPhase::Reading, CopyEvent::ReadDone { len }) => len <= self.block_size,
            (CopyPhase::Reading, CopyEvent::IoFailed) => true,
            (CopyPhase::Writing { .. }, CopyEvent::WriteDone { .. }) => true,
            (CopyPhase::Writing { .. }, CopyEvent::IoFailed) => true,
            (CopyPhase::Reporting, CopyEvent::Published) => true,
            (CopyPhase::Closing, CopyEvent::Published) => true,
            (CopyPhase::Flushing, CopyEvent::Flushed) => true,
            (CopyPhase::Signalling, CopyEvent::Published) => true,
            _ => false,
        }
    }

    /// The phase after a block: another read while the budget lasts, the
    /// closing snapshot otherwise.
    pub open spec fn spec_continue(remaining: Option<usize>) -> CopyPhase {
        if spec_budget_left(remaining) {
            CopyPhase::Reading
        } else {
            CopyPhase::Closing
        }
    }

    /// The state after `event`. An event that does not answer the pending
    /// action changes nothing.
    pub open spec fn spec_step(self, event: CopyEvent) -> CopyTask {
        if !self.spec_accepts(event) {
            self
        } else {
            match (self.phase, event) {
                (_, CopyEvent::IoFailed) => CopyTask { phase: CopyPhase::Aborted, ..self },
                (CopyPhase::Reading, CopyEvent::ReadDone { len }) => if len == 0 {
                    CopyTask { phase: CopyPhase::Closing, ..self }
                } else {
                    CopyTask { phase: CopyPhase::Writing { len }, ..self }
                },
                (CopyPhase::Writing { len }, CopyEvent::WriteDone { since_report_ms }) => if self.written
                    + len > usize::MAX {
                    CopyTask { phase: CopyPhase::Aborted, ..self }
                } else {
                    let remaining = spec_budget_after_block(self.remaining);
                    CopyTask {
                        block_size: self.block_size,
                        remaining,
                        written: (self.written + len) as usize,
                        phase: if since_report_ms > REPORT_INTERVAL_MS {
                            CopyPhase::Reporting
                        } else {
                            Self::spec_continue(remaining)
                        },
                    }
                },
                (CopyPhase::Reporting, CopyEvent::Published) => CopyTask {
                    phase: Self::spec_continue(self.remaining),
                    ..self
                },
                (CopyPhase::Closing, CopyEvent::Published) => CopyTask { phase: CopyPhase::Flushing, ..self },
                (CopyPhase::Flushing, CopyEvent::Flushed) => CopyTask { phase: CopyPhase::Signalling, ..self },
                (CopyPhase::Signalling, CopyEvent::Published) => CopyTask { phase: CopyPhase::Finished, ..self },
                _ => self,
            }
        }
    }

    /// Starts a copy in blocks of `block_size` bytes, of at most `count`
    /// blocks where a count is given.
    pub fn new(block_size: usize, count: Option<usize>) -> (task: CopyTask)
        ensures
            task == Self::spec_new(block_size, count),
            task.spec_wf(),
    {
        let phase = match count {
            Some(c) => if c == 0 {
                CopyPhase::Closing
            } else {
                CopyPhase::Reading
            },
            None => CopyPhase::Reading,
        };
        CopyTask { block_size, remaining: count, written: 0, phase }
    }

    /// The pending action.
    pub fn action(&self) -> (action: CopyAction)
        ensures
            action == self.spec_action(),
    {
        match self.phase {
            CopyPhase::Reading => CopyAction::Read { max: self.block_size },
            CopyPhase::Writing { len } => CopyAction::Write { len },
            CopyPhase::Reporting => CopyAction::Publish { value: self.written },
            CopyPhase::Closing => CopyAction::Publish { value: self.written },
            CopyPhase::Flushing => CopyAction::Flush,
            CopyPhase::Signalling => CopyAction::Publish { value: SENTINEL },
            CopyPhase::Finished => CopyAction::Done,
            CopyPhase::Aborted => CopyAction::Abort,
        }
    }

    /// Whether the copier has stopped, complete or failed.
    pub fn is_stopped(&self) -> (stopped: bool)
        ensures
            stopped == (self.phase == CopyPhase::Finished || self.phase == CopyPhase::Aborted),
    {
        match self.phase {
            CopyPhase::Finished => true,
            CopyPhase::Aborted => true,
            _ => false,
        }
    }

    /// Takes in what the driver observed and returns the action that is
    /// pending afterwards.
    pub fn step(&mut self, event: CopyEvent) -> (action: CopyAction)
        ensures
            *final(self) == old(self).spec_step(event),
            action == final(self).spec_action(),
            old(self).spec_wf() ==> final(self).spec_wf(),
            final(self).block_size == old(self).block_size,
    {
        match (self.phase, event) {
            (CopyPhase::Reading, CopyEvent::ReadDone { len }) => {
                if len <= self.block_size {
                    if len == 0 {
                        self.phase = CopyPhase::Closing;
                    } else {
                        self.phase = CopyPhase::Writing { len };
                    }
                }
            },
            (CopyPhase::Reading, CopyEvent::IoFailed) => {
                self.phase = CopyPhase::Aborted;
            },
            (CopyPhase::Writing { len }, CopyEvent::WriteDone { since_report_ms }) => {
                match self.written.checked_add(len) {
                    Some(total) => {
                        let remaining = budget_after_block(self.remaining);
                        self.remaining = remaining;
                        self.written = total;
                        if since_report_ms > REPORT_INTERVAL_MS {
                            self.phase = CopyPhase::Reporting;
                        } else {
                            self.phase = next_phase(remaining);
                        }
                    },
                    None => {
                        self.phase = CopyPhase::Aborted;
                    },
                }
            },
            (CopyPhase::Writing { .. }, CopyEvent::IoFailed) => {
                self.phase = CopyPhase::Aborted;
            },
            (CopyPhase::Reporting, CopyEvent::Published) => {
                self.phase = next_phase(self.remaining);
            },
            (CopyPhase::Closing, CopyEvent::Published) => {
                self.phase = CopyPhase::Flushing;
            },
            (CopyPhase::Flushing, CopyEvent::Flushed) => {
                self.phase = CopyPhase::Signalling;
            },
            (CopyPhase::Signalling, CopyEvent::Published) => {
                self.phase = CopyPhase::Finished;
            },
            _ => {},
        }
        self.action()
    }
}

/// The budget after one block has been used.
fn budget_after_block(remaining: Option<usize>) -> (after: Option<usize>)
    ensures
        after == spec_budget_after_block(remaining),
{
    match remaining {
        Some(r) => if r > 0 {
            Some(r - 1)
        } else {
            Some(0)
        },
        None => None,
    }
}

/// The phase after a block, by the budget that is left.
fn next_phase(remaining: Option<usize>) -> (phase: CopyPhase)
    ensures
        phase == CopyTask::spec_continue(remaining),
{
    match remaining {
        Some(r) => if r == 0 {
            CopyPhase::Closing
        } else {
            CopyPhase::Reading
        },
        None => CopyPhase::Reading,
    }
}

} // verus!
