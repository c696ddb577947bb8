//! Motor control: the movement commands, their one-byte codes, the levels of
//! the four H-bridge inputs, and the decision that stops the car in front of
//! an obstacle.
use vstd::prelude::*;

verus! {

/// A movement the car can be told to make.
#[derive(Clone, Copy, Debug, PartialEq, Eq, Structural)]
pub enum Movement {
    Stop,
    Forward,
    Reverse,
    Left,
    Right,
}

/// The byte under which a movement is shared between tasks.
pub open spec fn movement_code(m: Movement) -> u8 {
    match m {
        Movement::Stop => 0,
        Movement::Forward => 1,
        Movement::Reverse => 2,
        Movement::Left => 3,
        Movement::Right => 4,
    }
}

/// The movement that a shared byte stands for, if any.
pub open spec fn movement_of_code(code: u8) -> Option<Movement> {
    if code == 0 {
        Some(Movement::Stop)
    } else if code == 1 {
        Some(Movement::Forward)
    } else if code == 2 {
        Some(Movement::Reverse)
    } else if code == 3 {
        Some(Movement::Left)
    } else if code == 4 {
        Some(Movement::Right)
    } else {
        None
    }
}

impl Movement {
    /// The byte that stands for this movement.
    pub fn code(self) -> (code: u8)
        ensures
            code == movement_code(self),
    {
        match self {
            Movement::Stop => 0,
            Movement::Forward => 1,
            Movement::Reverse => 2,
            Movement::Left => 3,
            Movement::Right => 4,
        }
    }

    /// The movement a byte stands for; `None` for a byte no movement uses.
    pub fn from_code(code: u8) -> (m: Option<Movement>)
        ensures
            m == movement_of_code(code),
    {
        match code {
            0 => Some(Movement::Stop),
            1 => Some(Movement::Forward),
            2 => Some(Movement::Reverse),
            3 => Some(Movement::Left),
            4 => Some(Movement::Right),
            _ => None,
        }
    }
}

/// Every movement is found again from its code.
pub proof fn lemma_code_round_trip(m: Movement)
    ensures
        movement_of_code(movement_code(m)) == Some(m),
{
}

/// A byte that decodes to a movement is that movement's code.
pub proof fn lemma_decode_then_encode(code: u8)
    ensures
        movement_of_code(code) matches Some(m) ==> movement_code(m) == code,
{
}

/// Which of the four distance sensors currently see an obstacle.
#[derive(Clone, Copy, Debug, PartialEq, Eq, Structural)]
pub struct Obstacles {
    pub front: bool,
    pub back: bool,
    pub left: bool,
    pub right: bool,
}

/// Levels of the four H-bridge inputs (`true` is high): `in1`/`in2` drive one
/// side of the car, `in3`/`in4` the other.
#[derive(Clone, Copy, Debug, PartialEq, Eq, Structural)]
pub struct MotorPins {
    pub in1: bool,
    pub in2: bool,
    pub in3: bool,
    pub in4: bool,
}

/// All four inputs low: both motors off.
pub open spec fn stopped_pins() -> MotorPins {
    MotorPins { in1: false, in2: false, in3: false, in4: false }
}

/// The input levels that make the car perform a movement.
pub open spec fn drive_pins(m: Movement) -> MotorPins {
    match m {
        Movement::Stop => stopped_pins(),
        Movement::Forward => MotorPins { in1: true, in2: false, in3: true, in4: false },
        Movement::Reverse => MotorPins { in1: false, in2: true, in3: false, in4: true },
        Movement::Left => MotorPins { in1: true, in2: false, in3: false, in4: true },
        Movement::Right => MotorPins { in1: false, in2: true, in3: true, in4: false },
    }
}

impl MotorPins {
    /// The levels that stop both motors.
    pub fn stopped() -> (pins: MotorPins)
        ensures
            pins == stopped_pins(),
    {
        MotorPins { in1: false, in2: false, in3: false, in4: false }
    }

    /// The levels that make the car perform `m`.
    pub fn driving(m: Movement) -> (pins: MotorPins)
        ensures
            pins == drive_pins(m),
    {
        match m {
            Movement::Stop => MotorPins::stopped(),
            Movement::Forward => MotorPins { in1: true, in2: false, in3: true, in4: false },
            Movement::Reverse => MotorPins { in1: false, in2: true, in3: false, in4: true },
            Movement::Left => MotorPins { in1: true, in2: false, in3: false, in4: true },
            Movement::Right => MotorPins { in1: false, in2: true, in3: true, in4: false },
        }
    }
}

/// How long the motors stay off after a stop, in milliseconds.
pub const STOP_HOLD_MS: u64 = 100;

/// How long a turn is driven before the car stops again, in milliseconds.
pub const TURN_MS: u64 = 100;

/// Pause at the end of every round of the movement task, in milliseconds.
pub const MOVEMENT_PERIOD_MS: u64 = 100;

/// An obstacle lies in the way of a movement: ahead for forward, behind for
/// reverse, and on that side or ahead for a turn.
pub open spec fn blocked(m: Movement, obstacles: Obstacles) -> bool {
    match m {
        Movement::Stop => false,
        Movement::Forward => obstacles.front,
        Movement::Reverse => obstacles.back,
        Movement::Left => obstacles.left || obstacles.front,
        Movement::Right => obstacles.right || obstacles.front,
    }
}

/// Turns are driven for a short time only.
pub open spec fn is_turn(m: Movement) -> bool {
    m == Movement::Left || m == Movement::Right
}

/// What the movement task does in one round.
#[derive(Clone, Copy, Debug, PartialEq, Eq, Structural)]
pub struct MotorStep {
    /// Levels to put on the H-bridge inputs first.
    pub pins: MotorPins,
    /// How long to wait after setting them, in milliseconds.
    pub hold_ms: u64,
    /// The code to store as the shared movement command afterwards, if any.
    pub next_command: Option<u8>,
    /// Pause before the next round, in milliseconds.
    pub pause_ms: u64,
}

/// One round of the movement task for the shared command byte and the
/// obstacles seen: a movement whose way is clear is driven (a turn only for
/// `TURN_MS`, after which the command goes back to stop); a blocked movement
/// stops the motors and resets the command to stop; a stop command or an
/// unknown byte stops the motors and leaves the command alone.
pub open spec fn planned_step(command: u8, obstacles: Obstacles) -> MotorStep {
    let decoded = movement_of_code(command);
    if decoded is Some && decoded->0 != Movement::Stop {
        let m = decoded->0;
        if blocked(m, obstacles) {
            MotorStep {
                pins: stopped_pins(),
                hold_ms: STOP_HOLD_MS,
                next_command: Some(movement_code(Movement::Stop)),
                pause_ms: MOVEMENT_PERIOD_MS,
            }
        } else if is_turn(m) {
            MotorStep {
                pins: drive_pins(m),
                hold_ms: TURN_MS,
                next_command: Some(movement_code(Movement::Stop)),
                pause_ms: MOVEMENT_PERIOD_MS,
            }
        } else {
            MotorStep {
                pins: drive_pins(m),
                hold_ms: 0,
                next_command: None,
                pause_ms: MOVEMENT_PERIOD_MS,
            }
        }
    } else {
        MotorStep {
            pins: stopped_pins(),
            hold_ms: STOP_HOLD_MS,
            next_command: None,
            pause_ms: MOVEMENT_PERIOD_MS,
        }
    }
}

/// The step that stops the motors and, when asked, resets the command.
fn stop_step(reset_command: bool) -> (step: MotorStep)
    ensures
        step.pins == stopped_pins(),
        step.hold_ms == STOP_HOLD_MS,
        step.next_command == (if reset_command {
            Some(movement_code(Movement::Stop))
        } else {
            None::<u8>
        }),
        step.pause_ms == MOVEMENT_PERIOD_MS,
{
    let next_command = if reset_command {
        Some(Movement::Stop.code())
    } else {
        None
    };
    MotorStep {
        pins: MotorPins::stopped(),
        hold_ms: STOP_HOLD_MS,
        next_command,
        pause_ms: MOVEMENT_PERIOD_MS,
    }
}

/// Decides one round of the movement task.
pub fn movement_step(command: u8, obstacles: Obstacles) -> (step: MotorStep)
    ensures
        step == planned_step(command, obstacles),
{
    match Movement::from_code(command) {
        Some(Movement::Forward) => {
            if obstacles.front {
                stop_step(true)
            } else {
                MotorStep {
                    pins: MotorPins::driving(Movement::Forward),
                    hold_ms: 0,
                    next_command: None,
                    pause_ms: MOVEMENT_PERIOD_MS,
                }
            }
        },
        Some(Movement::Reverse) => {
            if obstacles.back {
                stop_step(true)
            } else {
                MotorStep {
                    pins: MotorPins::driving(Movement::Reverse),
                    hold_ms: 0,
                    next_command: None,
                    pause_ms: MOVEMENT_PERIOD_MS,
                }
            }
        },
        Some(Movement::Left) => {
            if obstacles.left || obstacles.front {
                stop_step(true)
            } else {
                MotorStep {
                    pins: MotorPins::driving(Movement::Left),
                    hold_ms: TURN_MS,
                    next_command: Some(Movement::Stop.code()),
                    pause_ms: MOVEMENT_PERIOD_MS,
                }
            }
        },
        Some(Movement::Right) => {
            if obstacles.right || obstacles.front {
                stop_step(true)
            } else {
                MotorStep {
                    pins: MotorPins::driving(Movement::Right),
                    hold_ms: TURN_MS,
                    next_command: Some(Movement::Stop.code()),
                    pause_ms: MOVEMENT_PERIOD_MS,
                }
            }
        },
        _ => stop_step(false),
    }
}

/// The motors run only for a known, non-stop command whose way is clear,
/// and then with exactly that movement's input levels.
pub proof fn lemma_never_drives_into_obstacle(command: u8, obstacles: Obstacles)
    ensures
        planned_step(command, obstacles).pins != stopped_pins() ==> {
            &&& movement_of_code(command) is Some
            &&& !blocked(movement_of_code(command)->0, obstacles)
            &&& planned_step(command, obstacles).pins == drive_pins(
                movement_of_code(command)->0,
            )
        },
{
}

/// A blocked movement stops the motors and resets the command to stop.
pub proof fn lemma_blocked_movement_stops(command: u8, obstacles: Obstacles)
    requires
        movement_of_code(command) is Some,
        blocked(movement_of_code(command)->0, obstacles),
    ensures
        planned_step(command, obstacles).pins == stopped_pins(),
        planned_step(command, obstacles).next_command == Some(movement_code(Movement::Stop)),
{
}

/// Neither side of the H-bridge ever has both of its inputs high.
pub proof fn lemma_bridge_never_shorted(command: u8, obstacles: Obstacles)
    ensures
        !(planned_step(command, obstacles).pins.in1 && planned_step(command, obstacles).pins.in2),
        !(planned_step(command, obstacles).pins.in3 && planned_step(command, obstacles).pins.in4),
{
}

/// The movement task only ever rewrites the command to stop, and it does so
/// after every turn, driven or blocked.
pub proof fn lemma_only_resets_to_stop(command: u8, obstacles: Obstacles)
    ensures
        planned_step(command, obstacles).next_command matches Some(c) ==> c == movement_code(
            Movement::Stop,
        ),
        movement_of_code(command) matches Some(m) && is_turn(m) ==> planned_step(
            command,
            obstacles,
        ).next_command == Some(movement_code(Movement::Stop)),
{
}

/// A stop command, or a byte that is no command, keeps the motors off and the
/// command unchanged, whatever the sensors see.
pub proof fn lemma_stop_is_idle(command: u8, obstacles: Obstacles)
    requires
        movement_of_code(command) is None || movement_of_code(command) == Some(Movement::Stop),
    ensures
        planned_step(command, obstacles).pins == stopped_pins(),
        planned_step(command, obstacles).next_command is None,
{
}

/// A known movement other than stop whose way is clear is driven with that
/// movement's input levels; only turns reset the command afterwards.
pub proof fn lemma_clear_way_is_driven(command: u8, obstacles: Obstacles, m: Movement)
    requires
        movement_of_code(command) == Some(m),
        m != Movement::Stop,
        !blocked(m, obstacles),
    ensures
        planned_step(command, obstacles).pins == drive_pins(m),
        planned_step(command, obstacles).next_command is Some <==> is_turn(m),
{
}

/// Forward (code 1) looks only at the front sensor and reverse (code 2)
/// only at the back one: with it clear the car drives that way whatever the
/// other sensors see, and with it blocked the motors stop and the command
/// goes back to stop (code 0).
pub proof fn lemma_straight_moves_watch_one_sensor(obstacles: Obstacles)
    ensures
        !obstacles.front ==> planned_step(1, obstacles) == (MotorStep {
            pins: MotorPins { in1: true, in2: false, in3: true, in4: false },
            hold_ms: 0,
            next_command: None,
            pause_ms: 100,
        }),
        obstacles.front ==> planned_step(1, obstacles) == (MotorStep {
            pins: MotorPins { in1: false, in2: false, in3: false, in4: false },
            hold_ms: 100,
            next_command: Some(0u8),
            pause_ms: 100,
        }),
        !obstacles.back ==> planned_step(2, obstacles) == (MotorStep {
            pins: MotorPins { in1: false, in2: true, in3: false, in4: true },
            hold_ms: 0,
            next_command: None,
            pause_ms: 100,
        }),
        obstacles.back ==> planned_step(2, obstacles) == (MotorStep {
            pins: MotorPins { in1: false, in2: false, in3: false, in4: false },
            hold_ms: 100,
            next_command: Some(0u8),
            pause_ms: 100,
        }),
{
}

/// A left turn (code 3) looks at the left and front sensors, a right turn
/// (code 4) at the right and front ones: with them clear the turn is driven
/// for 100 ms and the command goes back to stop; otherwise the motors stop
/// and the command goes back to stop too.
pub proof fn lemma_turns_watch_side_and_front(obstacles: Obstacles)
    ensures
        !(obstacles.left || obstacles.front) ==> planned_step(3, obstacles) == (MotorStep {
            pins: MotorPins { in1: true, in2: false, in3: false, in4: true },
            hold_ms: 100,
            next_command: Some(0u8),
            pause_ms: 100,
        }),
        (obstacles.left || obstacles.front) ==> planned_step(3, obstacles) == (MotorStep {
            pins: MotorPins { in1: false, in2: false, in3: false, in4: false },
            hold_ms: 100,
            next_command: Some(0u8),
            pause_ms: 100,
        }),
        !(obstacles.right || obstacles.front) ==> planned_step(4, obstacles) == (MotorStep {
            pins: MotorPins { in1: false, in2: true, in3: true, in4: false },
            hold_ms: 100,
            next_command: Some(0u8),
            pause_ms: 100,
        }),
        (obstacles.right || obstacles.front) ==> planned_step(4, obstacles) == (MotorStep {
            pins: MotorPins { in1: false, in2: false, in3: false, in4: false },
            hold_ms: 100,
            next_command: Some(0u8),
            pause_ms: 100,
        }),
{
}

/// A stop command (code 0) or any byte above 4 switches the motors off for
/// 100 ms and leaves the command as it is, whatever the sensors see.
pub proof fn lemma_idle_codes(command: u8, obstacles: Obstacles)
    requires
        command == 0 || command > 4,
    ensures
        planned_step(command, obstacles) == (MotorStep {
            pins: MotorPins { in1: false, in2: false, in3: false, in4: false },
            hold_ms: 100,
            next_command: None,
            pause_ms: 100,
        }),
{
}

/// Two rounds with the same command whose sensors agree on the directions
/// that command looks at decide the same: forward and reverse look at one
/// sensor each, turns at their side and the front.
pub proof fn lemma_decision_ignores_other_sensors(command: u8, a: Obstacles, b: Obstacles)
    requires
        command == 1 ==> a.front == b.front,
        command == 2 ==> a.back == b.back,
        command == 3 ==> a.left == b.left && a.front == b.front,
        command == 4 ==> a.right == b.right && a.front == b.front,
    ensures
        planned_step(command, a) == planned_step(command, b),
{
}

} // verus!
