//! Distance sensors: which directions are blocked and how near the nearest
//! obstacle is. Distances are whole centimetres; `None` is a failed
//! measurement.
use vstd::prelude::*;
use crate::movement::Obstacles;

verus! {

/// An obstacle nearer than this many centimetres blocks its direction.
pub const MIN_SAFE_DISTANCE_CM: u32 = 5;

/// The distance reported when no sensor measured anything nearer.
pub const MAX_DISTANCE: u8 = 255;

/// Position of each sensor's reading in the array the sensor task fills.
pub const FRONT: usize = 0;
pub const BACK: usize = 1;
pub const LEFT: usize = 2;
pub const RIGHT: usize = 3;

/// A failed measurement counts as the largest distance.
pub open spec fn reading_or_max(reading: Option<u32>) -> int {
    match reading {
        Some(d) => d as int,
        None => MAX_DISTANCE as int,
    }
}

/// A reading shows an obstacle when it is nearer than the safe distance.
pub open spec fn detects_obstacle(reading: Option<u32>) -> bool {
    reading_or_max(reading) < MIN_SAFE_DISTANCE_CM
}

/// Decides whether one reading shows an obstacle.
pub fn detect_obstacle(reading: Option<u32>) -> (seen: bool)
    ensures
        seen == detects_obstacle(reading),
{
    let distance: u32 = match reading {
        Some(d) => d,
        None => MAX_DISTANCE as u32,
    };
    distance < MIN_SAFE_DISTANCE_CM
}

/// The running minimum after looking at one more reading; failed
/// measurements are skipped.
pub open spec fn nearer(nearest: int, reading: Option<u32>) -> int {
    match reading {
        Some(d) => if d < nearest {
            d as int
        } else {
            nearest
        },
        None => nearest,
    }
}

/// The smallest measured distance among the readings, and `MAX_DISTANCE`
/// when none is smaller.
pub open spec fn nearest_of(readings: Seq<Option<u32>>) -> int
    decreases readings.len(),
{
    if readings.len() == 0 {
        MAX_DISTANCE as int
    } else {
        nearer(nearest_of(readings.drop_last()), readings.last())
    }
}

/// The nearest distance is a byte value.
pub proof fn lemma_nearest_in_range(readings: Seq<Option<u32>>)
    ensures
        0 <= nearest_of(readings) <= MAX_DISTANCE,
    decreases readings.len(),
{
    if readings.len() > 0 {
        lemma_nearest_in_range(readings.drop_last());
    }
}

/// The nearest distance among the readings; every failed measurement is
/// skipped.
pub fn nearest_distance(readings: &[Option<u32>]) -> (nearest: u8)
    ensures
        nearest == nearest_of(readings@),
{
    let mut nearest: u8 = MAX_DISTANCE;
    let mut i: usize = 0;
    while i < readings.len()
        invariant
            i <= readings@.len(),
            nearest == nearest_of(readings@.take(i as int)),
        decreases readings@.len() - i,
    {
        proof {
            assert(readings@.take(i as int + 1).drop_last() =~= readings@.take(i as int));
            lemma_nearest_in_range(readings@.take(i as int));
        }
        match readings[i] {
            Some(d) => {
                if d < nearest as u32 {
                    nearest = d as u8;
                }
            },
            None => {},
        }
        i = i + 1;
    }
    proof {
        assert(readings@.take(readings@.len() as int) =~= readings@);
    }
    nearest
}

/// No measured distance is nearer than the reported nearest one, which is at
/// most `MAX_DISTANCE`.
pub proof fn lemma_nearest_is_lower_bound(readings: Seq<Option<u32>>)
    ensures
        nearest_of(readings) <= MAX_DISTANCE,
        forall|i: int|
            0 <= i < readings.len() && #[trigger] readings[i] is Some ==> nearest_of(readings)
                <= readings[i]->0,
    decreases readings.len(),
{
    if readings.len() > 0 {
        let rest = readings.drop_last();
        lemma_nearest_is_lower_bound(rest);
        assert forall|i: int|
            0 <= i < readings.len() && #[trigger] readings[i] is Some implies nearest_of(readings)
                <= readings[i]->0 by {
            if i < readings.len() - 1 {
                assert(readings[i] == rest[i]);
            }
        }
    }
}

/// The reported nearest distance is `MAX_DISTANCE` or one of the readings.
pub proof fn lemma_nearest_is_measured(readings: Seq<Option<u32>>)
    ensures
        nearest_of(readings) == MAX_DISTANCE || exists|i: int|
            0 <= i < readings.len() && #[trigger] readings[i] == Some(nearest_of(readings) as u32),
    decreases readings.len(),
{
    if readings.len() > 0 {
        let rest = readings.drop_last();
        lemma_nearest_is_measured(rest);
        lemma_nearest_in_range(rest);
        if nearest_of(readings) != MAX_DISTANCE {
            if nearest_of(readings) == nearest_of(rest) {
                let i = choose|i: int|
                    0 <= i < rest.len() && #[trigger] rest[i] == Some(nearest_of(rest) as u32);
                assert(readings[i] == rest[i]);
            } else {
                assert(readings[readings.len() - 1] == Some(nearest_of(readings) as u32));
            }
        }
    }
}

/// What one round of the sensor task found.
#[derive(Clone, Copy, Debug, PartialEq, Eq, Structural)]
pub struct SensorReport {
    pub obstacles: Obstacles,
    /// The nearest distance measured, in whole centimetres.
    pub nearest_cm: u8,
}

/// The obstacles shown by the front, back, left and right readings, in that
/// order.
pub open spec fn obstacles_seen(distances: Seq<Option<u32>>) -> Obstacles {
    Obstacles {
        front: detects_obstacle(distances[FRONT as int]),
        back: detects_obstacle(distances[BACK as int]),
        left: detects_obstacle(distances[LEFT as int]),
        right: detects_obstacle(distances[RIGHT as int]),
    }
}

/// Evaluates one round of readings from the front, back, left and right
/// sensors.
pub fn sensor_update(distances: [Option<u32>; 4]) -> (report: SensorReport)
    ensures
        report.obstacles == obstacles_seen(distances@),
        report.nearest_cm == nearest_of(distances@),
{
    let obstacles = Obstacles {
        front: detect_obstacle(distances[FRONT]),
        back: detect_obstacle(distances[BACK]),
        left: detect_obstacle(distances[LEFT]),
        right: detect_obstacle(distances[RIGHT]),
    };
    let nearest_cm = nearest_distance(distances.as_slice());
    SensorReport { obstacles, nearest_cm }
}

/// A blocked direction always means the nearest distance is below the safe
/// distance.
pub proof fn lemma_obstacle_means_near(distances: Seq<Option<u32>>)
    requires
        distances.len() == 4,
        obstacles_seen(distances).front || obstacles_seen(distances).back || obstacles_seen(
            distances,
        ).left || obstacles_seen(distances).right,
    ensures
        nearest_of(distances) < MIN_SAFE_DISTANCE_CM,
{
    lemma_nearest_is_lower_bound(distances);
    assert(distances[FRONT as int] is Some || distances[BACK as int] is Some || distances[LEFT as int] is Some || distances[RIGHT as int] is Some);
}

/// Each direction's flag is set exactly when that direction's own reading
/// measured less than 5 cm; the other readings play no part.
pub proof fn lemma_flags_follow_own_reading(distances: Seq<Option<u32>>)
    requires
        distances.len() == 4,
    ensures
        obstacles_seen(distances).front <==> (distances[0] is Some && distances[0]->0 < 5),
        obstacles_seen(distances).back <==> (distances[1] is Some && distances[1]->0 < 5),
        obstacles_seen(distances).left <==> (distances[2] is Some && distances[2]->0 < 5),
        obstacles_seen(distances).right <==> (distances[3] is Some && distances[3]->0 < 5),
{
}

} // verus!
