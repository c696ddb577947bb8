//! Properties of the tasks working together: what the sensor task finds
//! decides what the movement and buzzer tasks may do.
use vstd::prelude::*;
use crate::buzzer::{buzzer_step_spec, BuzzerStep, lemma_continuous_tone_when_close};
use crate::movement::{planned_step, drive_pins, Movement, lemma_never_drives_into_obstacle};
use crate::sensors::{
    obstacles_seen,
    nearest_of,
    lemma_obstacle_means_near,
    lemma_nearest_in_range,
    MIN_SAFE_DISTANCE_CM,
    FRONT,
    BACK,
};

verus! {

/// With something nearer than the safe distance ahead, no command makes the
/// car drive forward or turn; with something that near behind, none makes it
/// reverse.
pub proof fn lemma_no_motion_toward_near_obstacle(distances: Seq<Option<u32>>, command: u8)
    requires
        distances.len() == 4,
    ensures
        distances[FRONT as int] matches Some(d) && d < MIN_SAFE_DISTANCE_CM ==> {
            let pins = planned_step(command, obstacles_seen(distances)).pins;
            &&& pins != drive_pins(Movement::Forward)
            &&& pins != drive_pins(Movement::Left)
            &&& pins != drive_pins(Movement::Right)
        },
        distances[BACK as int] matches Some(d) && d < MIN_SAFE_DISTANCE_CM ==> planned_step(
            command,
            obstacles_seen(distances),
        ).pins != drive_pins(Movement::Reverse),
{
    lemma_never_drives_into_obstacle(command, obstacles_seen(distances));
}

/// Whenever a sensor sees an obstacle, the buzzer sounds without pause.
pub proof fn lemma_obstacle_sounds_alarm(distances: Seq<Option<u32>>)
    requires
        distances.len() == 4,
        obstacles_seen(distances).front || obstacles_seen(distances).back || obstacles_seen(
            distances,
        ).left || obstacles_seen(distances).right,
    ensures
        buzzer_step_spec(nearest_of(distances) as u8) == (BuzzerStep::Beep {
            on_ms: 100,
            off_ms: 0,
        }),
{
    lemma_obstacle_means_near(distances);
    lemma_nearest_in_range(distances);
    lemma_continuous_tone_when_close(nearest_of(distances) as u8);
}

} // verus!
