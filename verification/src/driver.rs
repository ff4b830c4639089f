//! The driver's phases: from the check of the destination through the copy
//! and the flush to the summary.
//!
//! The program around the library does what an action says, and reports what
//! it saw as the next event.

use vstd::prelude::*;
use crate::copier::SENTINEL;
use crate::meminfo::{estimated_flushed, spec_estimated_flushed};
use crate::progress::{report, spec_report, ProgressReport};

verus! {

/// Milliseconds between two progress lines, by which rates are reckoned.
pub const REPORT_INTERVAL_MS: u64 = 500;

/// Milliseconds to wait before the line for a snapshot is printed.
pub const COPY_REPORT_DELAY_MS: u64 = 100;

/// Milliseconds to wait after a line of the flush phase.
pub const FLUSH_POLL_DELAY_MS: u64 = 500;

/// Where the driver stands.
#[derive(Debug, Clone, Copy, PartialEq, Eq)]
pub enum DriverPhase {
    /// The destination has not been looked at yet.
    Initializing,
    /// The copier runs; its snapshots are awaited.
    Copying,
    /// The copy is written; the flush is watched.
    Flushing,
    /// Nothing is left to do.
    Done,
}

/// Why the driver gave up.
#[derive(Debug, Clone, Copy, PartialEq, Eq)]
pub enum DriverFailure {
    /// The memory statistics could not be read, or hold no well-formed line
    /// for dirty memory.
    NoDirtyFigure,
    /// More memory is dirty than the copy has bytes in all.
    EstimateOutOfRange,
}

/// What the program observed.
#[derive(Debug, Clone, Copy, PartialEq, Eq)]
pub enum DriverEvent {
    /// The destination path was looked at.
    DestinationChecked { is_directory: bool },
    /// The copier published `value`.
    Snapshot { value: usize },
    /// The copier will publish nothing more.
    CopierGone,
    /// The snapshots were polled without waiting; `signal` is what was
    /// there, if anything.
    Polled { signal: Option<usize> },
    /// The dirty memory was measured; `None` where no figure could be had.
    Measured { dirty_kb: Option<usize> },
}

/// What the program must do next.
#[derive(Debug, Clone, Copy, PartialEq, Eq)]
pub enum DriverAction {
    /// Say that the destination is a directory and leave, without opening
    /// it and without an error.
    RefuseDirectory,
    /// Open the files, start the copier, announce the copy, then wait for a
    /// snapshot.
    StartCopy,
    /// Wait `wait_ms` milliseconds, print the line, then wait for the next
    /// snapshot.
    ReportCopy { wait_ms: u64, report: ProgressReport },
    /// Wait `wait_ms` milliseconds, print the line, announce the flush
    /// phase, then poll.
    ReportAndSync { wait_ms: u64, report: ProgressReport },
    /// Poll the snapshots without waiting.
    Poll,
    /// Measure the dirty memory.
    Measure,
    /// Print the line, wait `wait_ms` milliseconds, then poll.
    ReportFlush { report: ProgressReport, wait_ms: u64 },
    /// Print the summary for `total` bytes and leave.
    Summarize { total: usize },
    /// Leave with an error.
    Fail { reason: DriverFailure },
    /// Nothing: the event did not belong to the phase.
    Ignore,
}

/// State of the driver.
#[derive(Debug, Clone, Copy, PartialEq, Eq)]
pub struct Driver {
    /// Bytes the copy is expected to move; fixed when the driver is made.
    pub total: usize,
    /// The amount that the last progress line of the phase showed.
    pub last_reported: usize,
    /// Where the driver stands.
    pub phase: DriverPhase,
}

impl Driver {
    /// The driver before anything has happened.
    pub open spec fn spec_new(total: usize) -> Driver {
        Driver { total, last_reported: 0, phase: DriverPhase::Initializing }
    }

    /// The line for `value`, against the last one shown.
    pub open spec fn spec_line(self, value: usize) -> ProgressReport {
        spec_report(self.last_reported, value, self.total, REPORT_INTERVAL_MS)
    }

    /// The state after `event`, and the action it calls for.
    pub open spec fn spec_step(self, event: DriverEvent) -> (Driver, DriverAction) {
        match (self.phase, event) {
            (DriverPhase::Initializing, DriverEvent::DestinationChecked { is_directory }) => if is_directory {
                (Driver { phase: DriverPhase::Done, ..self }, DriverAction::RefuseDirectory)
            } else {
                (Driver { phase: DriverPhase::Copying, ..self }, DriverAction::StartCopy)
            },
            (DriverPhase::Copying, DriverEvent::Snapshot { value }) => if value == self.total {
                (
                    Driver { total: self.total, last_reported: 0, phase: DriverPhase::Flushing },
                    DriverAction::ReportAndSync { wait_ms: COPY_REPORT_DELAY_MS, report: self.spec_line(value) },
                )
            } else {
                (
                    Driver { total: self.total, last_reported: value, phase: DriverPhase::Copying },
                    DriverAction::ReportCopy { wait_ms: COPY_REPORT_DELAY_MS, report: self.spec_line(value) },
                )
            },
            (DriverPhase::Copying, DriverEvent::CopierGone) => (
                Driver { total: self.total, last_reported: 0, phase: DriverPhase::Flushing },
                DriverAction::Poll,
            ),
            (DriverPhase::Flushing, DriverEvent::Polled { signal }) => if signal == Some(SENTINEL) {
                (Driver { phase: DriverPhase::Done, ..self }, DriverAction::Summarize { total: self.total })
            } else {
                (self, DriverAction::Measure)
            },
            (DriverPhase::Flushing, DriverEvent::Measured { dirty_kb }) => match dirty_kb {
                None => (
                    Driver { phase: DriverPhase::Done, ..self },
                    DriverAction::Fail { reason: DriverFailure::NoDirtyFigure },
                ),
                Some(kb) => match spec_estimated_flushed(self.total, kb) {
                    None => (
                        Driver { phase: DriverPhase::Done, ..self },
                        DriverAction::Fail { reason: DriverFailure::EstimateOutOfRange },
                    ),
                    Some(flushed) => (
                        Driver { total: self.total, last_reported: flushed, phase: DriverPhase::Flushing },
                        DriverAction::ReportFlush { report: self.spec_line(flushed), wait_ms: FLUSH_POLL_DELAY_MS },
                    ),
                },
            },
            _ => (self, DriverAction::Ignore),
        }
    }

    /// A driver for a copy of `total` bytes.
    pub fn new(total: usize) -> (driver: Driver)
        ensures
            driver == Self::spec_new(total),
    {
        Driver { total, last_reported: 0, phase: DriverPhase::Initializing }
    }

    /// Takes in what the program observed and says what it must do next.
    /// The total never changes.
    pub fn step(&mut self, event: DriverEvent) -> (action: DriverAction)
        ensures
            (*final(self), action) == old(self).spec_step(event),
            final(self).total == old(self).total,
    {
        match (self.phase, event) {
            (DriverPhase::Initializing, DriverEvent::DestinationChecked { is_directory }) => {
                if is_directory {
                    self.phase = DriverPhase::Done;
                    DriverAction::RefuseDirectory
                } else {
                    self.phase = DriverPhase::Copying;
                    DriverAction::StartCopy
                }
            },
            (DriverPhase::Copying, DriverEvent::Snapshot { value }) => {
                let line = report(self.last_reported, value, self.total, REPORT_INTERVAL_MS);
                if value == self.total {
                    self.last_reported = 0;
                    self.phase = DriverPhase::Flushing;
                    DriverAction::ReportAndSync { wait_ms: COPY_REPORT_DELAY_MS, report: line }
                } else {
                    self.last_reported = value;
                    DriverAction::ReportCopy { wait_ms: COPY_REPORT_DELAY_MS, report: line }
                }
            },
            (DriverPhase::Copying, DriverEvent::CopierGone) => {
                self.last_reported = 0;
                self.phase = DriverPhase::Flushing;
                DriverAction::Poll
            },
            (DriverPhase::Flushing, DriverEvent::Polled { signal }) => {
                let ended = match signal {
                    Some(s) => s == SENTINEL,
                    None => false,
                };
                if ended {
                    self.phase = DriverPhase::Done;
                    DriverAction::Summarize { total: self.total }
                } else {
                    DriverAction::Measure
                }
            },
            (DriverPhase::Flushing, DriverEvent::Measured { dirty_kb }) => {
                match dirty_kb {
                    None => {
                        self.phase = DriverPhase::Done;
                        DriverAction::Fail { reason: DriverFailure::NoDirtyFigure }
                    },
                    Some(kb) => match estimated_flushed(self.total, kb) {
                        None => {
                            self.phase = DriverPhase::Done;
                            DriverAction::Fail { reason: DriverFailure::EstimateOutOfRange }
                        },
                        Some(flushed) => {
                            let line = report(self.last_reported, flushed, self.total, REPORT_INTERVAL_MS);
                            self.last_reported = flushed;
                            DriverAction::ReportFlush { report: line, wait_ms: FLUSH_POLL_DELAY_MS }
                        },
                    },
                }
            },
            _ => DriverAction::Ignore,
        }
    }
}

} // verus!
