use robot_car::pulses::count_pulse;

#[test]
fn counts_and_wraps() {
    assert_eq!(count_pulse(0), 1);
    assert_eq!(count_pulse(41), 42);
    assert_eq!(count_pulse(254), 255);
    assert_eq!(count_pulse(255), 0);
}

#[test]
fn report_is_pulses_mod_256() {
    let mut count: u8 = 0;
    for n in 1u32..=600 {
        count = count_pulse(count);
        assert_eq!(count as u32, n % 256);
    }
}
