use robot_car::buzzer::{beep_timing, buzzer_step, BeepTiming, BuzzerStep};

#[test]
fn timing_table() {
    for d in 0u8..=5 {
        assert_eq!(beep_timing(d), BeepTiming { on_ms: 100, off_ms: 0 });
    }
    assert_eq!(beep_timing(6), BeepTiming { on_ms: 100, off_ms: 25 });
    assert_eq!(beep_timing(7), BeepTiming { on_ms: 100, off_ms: 50 });
    assert_eq!(beep_timing(8), BeepTiming { on_ms: 100, off_ms: 100 });
    assert_eq!(beep_timing(9), BeepTiming { on_ms: 100, off_ms: 150 });
    assert_eq!(beep_timing(10), BeepTiming { on_ms: 100, off_ms: 200 });
    assert_eq!(beep_timing(11), BeepTiming { on_ms: 0, off_ms: 0 });
    assert_eq!(beep_timing(255), BeepTiming { on_ms: 0, off_ms: 0 });
}

#[test]
fn steps() {
    assert_eq!(buzzer_step(0), BuzzerStep::Beep { on_ms: 100, off_ms: 0 });
    assert_eq!(buzzer_step(9), BuzzerStep::Beep { on_ms: 100, off_ms: 150 });
    assert_eq!(buzzer_step(11), BuzzerStep::Quiet { wait_ms: 100 });
    assert_eq!(buzzer_step(255), BuzzerStep::Quiet { wait_ms: 100 });
}

#[test]
fn beeps_iff_within_ten_and_nearer_is_faster() {
    for d in 0u8..=255 {
        assert_eq!(matches!(buzzer_step(d), BuzzerStep::Beep { .. }), d <= 10);
    }
    for near in 0u8..=10 {
        for far in near..=10 {
            assert!(beep_timing(near).off_ms <= beep_timing(far).off_ms);
        }
    }
}
