//! Wheel speed sensing: the light sensors give one falling edge per slot of
//! the encoder wheel, counted in a byte that the reporter reads and clears
//! once per second.
use vstd::prelude::*;

verus! {

/// How often the count is reported and cleared, in milliseconds.
pub const REPORT_PERIOD_MS: u64 = 1000;

/// The count after one more pulse; a byte count wraps from 255 to 0.
pub open spec fn after_pulse(count: u8) -> u8 {
    ((count + 1) % 256) as u8
}

/// The count after `pulses` more pulses.
pub open spec fn after_pulses(count: u8, pulses: nat) -> u8
    decreases pulses,
{
    if pulses == 0 {
        count
    } else {
        after_pulse(after_pulses(count, (pulses - 1) as nat))
    }
}

/// Counts one pulse.
pub fn count_pulse(count: u8) -> (next: u8)
    ensures
        next == after_pulse(count),
{
    if count == 255 {
        0
    } else {
        count + 1
    }
}

/// Counting from a cleared count, a report gives the number of pulses since
/// the last report, modulo 256.
pub proof fn lemma_report_counts_pulses(pulses: nat)
    ensures
        after_pulses(0, pulses) == pulses % 256,
    decreases pulses,
{
    if pulses > 0 {
        lemma_report_counts_pulses((pulses - 1) as nat);
    }
}

} // verus!
