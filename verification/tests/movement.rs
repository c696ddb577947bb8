use robot_car::movement::{movement_step, Movement, MotorPins, MotorStep, Obstacles};

fn clear() -> Obstacles {
    Obstacles { front: false, back: false, left: false, right: false }
}

fn stopped() -> MotorPins {
    MotorPins { in1: false, in2: false, in3: false, in4: false }
}

#[test]
fn codes_round_trip() {
    for m in [Movement::Stop, Movement::Forward, Movement::Reverse, Movement::Left, Movement::Right] {
        assert_eq!(Movement::from_code(m.code()), Some(m));
    }
    assert_eq!(Movement::Stop.code(), 0);
    assert_eq!(Movement::Forward.code(), 1);
    assert_eq!(Movement::Reverse.code(), 2);
    assert_eq!(Movement::Left.code(), 3);
    assert_eq!(Movement::Right.code(), 4);
    assert_eq!(Movement::from_code(5), None);
    assert_eq!(Movement::from_code(255), None);
}

#[test]
fn forward_drives_when_clear() {
    let step = movement_step(Movement::Forward.code(), clear());
    assert_eq!(
        step,
        MotorStep {
            pins: MotorPins { in1: true, in2: false, in3: true, in4: false },
            hold_ms: 0,
            next_command: None,
            pause_ms: 100,
        }
    );
}

#[test]
fn reverse_drives_when_clear() {
    let step = movement_step(Movement::Reverse.code(), clear());
    assert_eq!(step.pins, MotorPins { in1: false, in2: true, in3: false, in4: true });
    assert_eq!(step.hold_ms, 0);
    assert_eq!(step.next_command, None);
}

#[test]
fn turns_are_driven_briefly_then_reset() {
    let left = movement_step(Movement::Left.code(), clear());
    assert_eq!(left.pins, MotorPins { in1: true, in2: false, in3: false, in4: true });
    assert_eq!(left.hold_ms, 100);
    assert_eq!(left.next_command, Some(0));
    let right = movement_step(Movement::Right.code(), clear());
    assert_eq!(right.pins, MotorPins { in1: false, in2: true, in3: true, in4: false });
    assert_eq!(right.hold_ms, 100);
    assert_eq!(right.next_command, Some(0));
}

#[test]
fn front_obstacle_stops_forward_and_turns() {
    let obstacles = Obstacles { front: true, ..clear() };
    for m in [Movement::Forward, Movement::Left, Movement::Right] {
        let step = movement_step(m.code(), obstacles);
        assert_eq!(step.pins, stopped());
        assert_eq!(step.hold_ms, 100);
        assert_eq!(step.next_command, Some(Movement::Stop.code()));
        assert_eq!(step.pause_ms, 100);
    }
    let reverse = movement_step(Movement::Reverse.code(), obstacles);
    assert_eq!(reverse.pins, MotorPins { in1: false, in2: true, in3: false, in4: true });
}

#[test]
fn back_obstacle_stops_reverse_only() {
    let obstacles = Obstacles { back: true, ..clear() };
    let reverse = movement_step(Movement::Reverse.code(), obstacles);
    assert_eq!(reverse.pins, stopped());
    assert_eq!(reverse.next_command, Some(0));
    let forward = movement_step(Movement::Forward.code(), obstacles);
    assert_eq!(forward.pins, MotorPins { in1: true, in2: false, in3: true, in4: false });
}

#[test]
fn side_obstacles_block_their_turn() {
    let left_blocked = Obstacles { left: true, ..clear() };
    assert_eq!(movement_step(Movement::Left.code(), left_blocked).pins, stopped());
    assert_eq!(
        movement_step(Movement::Right.code(), left_blocked).pins,
        MotorPins { in1: false, in2: true, in3: true, in4: false }
    );
    let right_blocked = Obstacles { right: true, ..clear() };
    assert_eq!(movement_step(Movement::Right.code(), right_blocked).pins, stopped());
    assert_eq!(movement_step(Movement::Right.code(), right_blocked).next_command, Some(0));
    assert_eq!(
        movement_step(Movement::Left.code(), right_blocked).pins,
        MotorPins { in1: true, in2: false, in3: false, in4: true }
    );
}

#[test]
fn stop_and_unknown_codes_idle() {
    let all = Obstacles { front: true, back: true, left: true, right: true };
    for code in [0u8, 5, 42, 255] {
        for obstacles in [clear(), all] {
            let step = movement_step(code, obstacles);
            assert_eq!(step.pins, stopped());
            assert_eq!(step.hold_ms, 100);
            assert_eq!(step.next_command, None);
            assert_eq!(step.pause_ms, 100);
        }
    }
}

#[test]
fn bridge_never_shorted_on_any_input() {
    for code in 0u8..=255 {
        for bits in 0u8..16 {
            let obstacles = Obstacles {
                front: bits & 1 != 0,
                back: bits & 2 != 0,
                left: bits & 4 != 0,
                right: bits & 8 != 0,
            };
            let pins = movement_step(code, obstacles).pins;
            assert!(!(pins.in1 && pins.in2));
            assert!(!(pins.in3 && pins.in4));
            if let Some(c) = movement_step(code, obstacles).next_command {
                assert_eq!(c, 0);
            }
        }
    }
}

#[test]
fn helper_pins() {
    assert_eq!(MotorPins::stopped(), stopped());
    assert_eq!(MotorPins::driving(Movement::Stop), stopped());
    assert_eq!(
        MotorPins::driving(Movement::Forward),
        MotorPins { in1: true, in2: false, in3: true, in4: false }
    );
}
