//! The proximity buzzer: how fast it beeps for the nearest obstacle distance.
use vstd::prelude::*;

verus! {

/// On and off times of one beep, in milliseconds.
#[derive(Clone, Copy, Debug, PartialEq, Eq, Structural)]
pub struct BeepTiming {
    pub on_ms: u64,
    pub off_ms: u64,
}

/// The beep timing for a nearest distance in whole centimetres.
pub open spec fn beep_timing_spec(distance_cm: u8) -> BeepTiming {
    if distance_cm <= 5 {
        BeepTiming { on_ms: 100, off_ms: 0 }
    } else if distance_cm == 6 {
        BeepTiming { on_ms: 100, off_ms: 25 }
    } else if distance_cm == 7 {
        BeepTiming { on_ms: 100, off_ms: 50 }
    } else if distance_cm == 8 {
        BeepTiming { on_ms: 100, off_ms: 100 }
    } else if distance_cm == 9 {
        BeepTiming { on_ms: 100, off_ms: 150 }
    } else if distance_cm == 10 {
        BeepTiming { on_ms: 100, off_ms: 200 }
    } else {
        BeepTiming { on_ms: 0, off_ms: 0 }
    }
}

/// Picks the beep timing for the nearest measured distance.
pub fn beep_timing(distance_cm: u8) -> (timing: BeepTiming)
    ensures
        timing == beep_timing_spec(distance_cm),
{
    match distance_cm {
        0..=5 => BeepTiming { on_ms: 100, off_ms: 0 },
        6 => BeepTiming { on_ms: 100, off_ms: 25 },
        7 => BeepTiming { on_ms: 100, off_ms: 50 },
        8 => BeepTiming { on_ms: 100, off_ms: 100 },
        9 => BeepTiming { on_ms: 100, off_ms: 150 },
        10 => BeepTiming { on_ms: 100, off_ms: 200 },
        _ => BeepTiming { on_ms: 0, off_ms: 0 },
    }
}

/// How long the buzzer task waits before looking again when it stays silent.
pub const QUIET_POLL_MS: u64 = 100;

/// What the buzzer task does in one round.
#[derive(Clone, Copy, Debug, PartialEq, Eq, Structural)]
pub enum BuzzerStep {
    /// Drive the buzzer high for `on_ms`, then low for `off_ms`.
    Beep { on_ms: u64, off_ms: u64 },
    /// Leave the buzzer off and wait `wait_ms`.
    Quiet { wait_ms: u64 },
}

/// One round of the buzzer task for the nearest distance: it beeps when the
/// timing has a positive on-time, and otherwise stays quiet for a poll period.
pub open spec fn buzzer_step_spec(distance_cm: u8) -> BuzzerStep {
    let timing = beep_timing_spec(distance_cm);
    if timing.on_ms > 0 {
        BuzzerStep::Beep { on_ms: timing.on_ms, off_ms: timing.off_ms }
    } else {
        BuzzerStep::Quiet { wait_ms: QUIET_POLL_MS }
    }
}

/// Decides one round of the buzzer task.
pub fn buzzer_step(distance_cm: u8) -> (step: BuzzerStep)
    ensures
        step == buzzer_step_spec(distance_cm),
{
    let timing = beep_timing(distance_cm);
    if timing.on_ms > 0 {
        BuzzerStep::Beep { on_ms: timing.on_ms, off_ms: timing.off_ms }
    } else {
        BuzzerStep::Quiet { wait_ms: QUIET_POLL_MS }
    }
}

/// The buzzer beeps exactly when the nearest obstacle is at most 10 cm away.
pub proof fn lemma_beeps_iff_within_ten_cm(distance_cm: u8)
    ensures
        (buzzer_step_spec(distance_cm) is Beep) <==> distance_cm <= 10,
{
}

/// A nearer obstacle never gives a longer pause between beeps.
pub proof fn lemma_nearer_beeps_faster(near_cm: u8, far_cm: u8)
    requires
        near_cm <= far_cm <= 10,
    ensures
        beep_timing_spec(near_cm).off_ms <= beep_timing_spec(far_cm).off_ms,
        beep_timing_spec(near_cm).on_ms == beep_timing_spec(far_cm).on_ms,
{
}

/// At 5 cm or nearer the buzzer sounds without pause.
pub proof fn lemma_continuous_tone_when_close(distance_cm: u8)
    requires
        distance_cm <= 5,
    ensures
        buzzer_step_spec(distance_cm) == (BuzzerStep::Beep { on_ms: 100, off_ms: 0 }),
{
}

/// A round of the buzzer beeps with exactly the timing picked for the
/// distance when that distance is at most 10 cm, and otherwise waits 100 ms.
pub proof fn lemma_step_uses_timing(distance_cm: u8)
    ensures
        distance_cm <= 10 ==> buzzer_step_spec(distance_cm) == (BuzzerStep::Beep {
            on_ms: beep_timing_spec(distance_cm).on_ms,
            off_ms: beep_timing_spec(distance_cm).off_ms,
        }),
        distance_cm > 10 ==> buzzer_step_spec(distance_cm) == (BuzzerStep::Quiet { wait_ms: 100 }),
{
}

/// Every beep is 100 ms long; the pause after it is zero up to 5 cm and
/// grows strictly with each centimetre from 5 to 10 cm.
pub proof fn lemma_pause_grows_with_distance(near_cm: u8, far_cm: u8)
    requires
        near_cm < far_cm <= 10,
    ensures
        buzzer_step_spec(near_cm) is Beep,
        buzzer_step_spec(far_cm) is Beep,
        buzzer_step_spec(near_cm)->on_ms == 100,
        buzzer_step_spec(far_cm)->on_ms == 100,
        near_cm <= 5 ==> buzzer_step_spec(near_cm)->off_ms == 0,
        5 <= near_cm ==> buzzer_step_spec(near_cm)->off_ms < buzzer_step_spec(far_cm)->off_ms,
        buzzer_step_spec(near_cm)->off_ms <= buzzer_step_spec(far_cm)->off_ms,
        buzzer_step_spec(far_cm)->off_ms <= 200,
{
}

} // verus!
