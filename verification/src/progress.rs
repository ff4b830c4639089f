//! The numbers of a progress line.
//!
//! Sizes are shown in units of one million bytes, rates in tenths of such a
//! unit per second.

use vstd::prelude::*;

verus! {

/// Bytes in one displayed unit of size.
pub const UNIT_BYTES: usize = 1000000;

/// Bytes per millisecond that make one tenth of a unit per second.
pub const TENTH_RATE_BYTES_PER_MS: u128 = 100;

/// Bytes per second that make one tenth of a unit per second.
pub const TENTH_RATE_BYTES_PER_SEC: u128 = 100000;

/// What one progress line shows.
#[derive(Debug, Clone, Copy, PartialEq, Eq)]
pub struct ProgressReport {
    /// Share of the total that is done, in whole percent, rounded down.
    pub percent: u128,
    /// Amount done, in whole units, rounded down.
    pub value_units: usize,
    /// Expected total, in whole units, rounded down.
    pub total_units: usize,
    /// Whether the amount done is at least what it was at the last report.
    pub rising: bool,
    /// Size of the change since the last report, in tenths of a unit per
    /// second, rounded down.
    pub rate_tenths: u128,
}

/// Whole percent of `total` that `value` makes. Nothing of nothing counts as
/// all of it.
pub open spec fn spec_percent(value: usize, total: usize) -> int {
    if total == 0 {
        100
    } else {
        value * 100 / (total as int)
    }
}

/// Distance between two amounts.
pub open spec fn spec_distance(previous: usize, value: usize) -> int {
    if value >= previous {
        value - previous
    } else {
        previous - value
    }
}

/// A change of `distance` bytes within `interval_ms` milliseconds, in tenths
/// of a unit per second.
pub open spec fn spec_rate_tenths(distance: int, interval_ms: u64) -> int {
    distance / (TENTH_RATE_BYTES_PER_MS * interval_ms)
}

/// The report for `value` bytes done of `total`, `interval_ms` milliseconds
/// after a report for `previous` bytes.
pub open spec fn spec_report(previous: usize, value: usize, total: usize, interval_ms: u64) -> ProgressReport {
    ProgressReport {
        percent: spec_percent(value, total) as u128,
        value_units: value / UNIT_BYTES,
        total_units: total / UNIT_BYTES,
        rising: value >= previous,
        rate_tenths: spec_rate_tenths(spec_distance(previous, value), interval_ms) as u128,
    }
}

/// Average rate of `total` bytes in `elapsed_secs` whole seconds, in tenths
/// of a unit per second; undefined for no seconds.
pub open spec fn spec_average_rate_tenths(total: usize, elapsed_secs: u64) -> Option<u128> {
    if elapsed_secs == 0 {
        None
    } else {
        Some(((total as int) / (TENTH_RATE_BYTES_PER_SEC * elapsed_secs)) as u128)
    }
}

/// Whole percent of `total` that `value` makes, rounded down; 100 where
/// `total` is zero.
pub fn percent(value: usize, total: usize) -> (p: u128)
    ensures
        p == spec_percent(value, total),
        total == 0 ==> p == 100,
        value == total ==> p == 100,
        0 < total && value <= total ==> p <= 100,
{
    if total == 0 {
        100
    } else {
        let v: u128 = value as u128;
        let t: u128 = total as u128;
        proof {
            assert(value == total ==> value * 100 / (total as int) == 100) by (nonlinear_arith)
                requires
                    total > 0,
            ;
            assert(value <= total ==> value * 100 / (total as int) <= 100) by (nonlinear_arith)
                requires
                    total > 0,
            ;
            assert(0 <= value * 100 / (total as int) <= value * 100) by (nonlinear_arith)
                requires
                    total > 0,
            ;
        }
        v * 100 / t
    }
}

/// The numbers of the progress line for `value` bytes done of `total`,
/// `interval_ms` milliseconds after the line for `previous` bytes.
pub fn report(previous: usize, value: usize, total: usize, interval_ms: u64) -> (r: ProgressReport)
    requires
        interval_ms > 0,
    ensures
        r == spec_report(previous, value, total, interval_ms),
{
    let distance: u128 = if value >= previous {
        (value - previous) as u128
    } else {
        (previous - value) as u128
    };
    let per_tenth: u128 = TENTH_RATE_BYTES_PER_MS * (interval_ms as u128);
    proof {
        assert(0 <= (distance as int) / (per_tenth as int) <= distance) by (nonlinear_arith)
            requires
                per_tenth > 0,
        ;
    }
    ProgressReport {
        percent: percent(value, total),
        value_units: value / UNIT_BYTES,
        total_units: total / UNIT_BYTES,
        rising: value >= previous,
        rate_tenths: distance / per_tenth,
    }
}

/// Average rate of a copy of `total` bytes that took `elapsed_secs` whole
/// seconds, in tenths of a unit per second, rounded down. `None` exactly
/// when no whole second has passed.
pub fn average_rate_tenths(total: usize, elapsed_secs: u64) -> (rate: Option<u128>)
    ensures
        rate == spec_average_rate_tenths(total, elapsed_secs),
{
    if elapsed_secs == 0 {
        None
    } else {
        let per_tenth: u128 = TENTH_RATE_BYTES_PER_SEC * (elapsed_secs as u128);
        proof {
            assert(0 <= (total as int) / (per_tenth as int) <= total) by (nonlinear_arith)
                requires
                    per_tenth > 0,
            ;
        }
        Some((total as u128) / per_tenth)
    }
}

} // verus!
