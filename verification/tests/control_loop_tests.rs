use mpro::control_loop::{LoopState, BOOST_HOLD_NS, RAMP_DOWN_STEP_RPM};

#[test]
fn loop_starts_at_baseline() {
    let s = LoopState::new(42);
    assert_eq!(s.current_target_rpm, 800);
    assert_eq!(s.last_level, -1);
    assert_eq!(s.last_boost_ns, 42);
}

#[test]
fn fan_target_rises_at_once_and_steps_down_slowly() {
    let mut s = LoopState::new(0);
    let out = s.tick(1, 3000, 1);
    assert_eq!(out.target_rpm, 3000);
    let mut expected = 3000;
    for k in 0..20u64 {
        let out = s.tick(0, 1000, 2 + k);
        expected = if expected - RAMP_DOWN_STEP_RPM > 1000 { expected - RAMP_DOWN_STEP_RPM } else { 1000 };
        assert_eq!(out.target_rpm, expected);
    }
    assert_eq!(s.current_target_rpm, 1000);
}

#[test]
fn boost_level_is_held_for_ten_seconds() {
    let mut s = LoopState::new(0);
    let out = s.tick(3, 5200, 1_000);
    assert_eq!(out.reported_level, 3);
    assert!(out.raise_alarm);
    let out = s.tick(0, 800, 1_000 + BOOST_HOLD_NS - 1);
    assert_eq!(out.reported_level, 3);
    assert!(!out.raise_alarm);
    assert_eq!(out.target_rpm, 5050);
    let out = s.tick(0, 800, 1_000 + BOOST_HOLD_NS);
    assert_eq!(out.reported_level, 0);
    assert!(!out.raise_alarm);
}

#[test]
fn clock_reading_before_boost_counts_as_no_time() {
    let mut s = LoopState::new(0);
    s.tick(2, 3500, 50_000_000_000);
    let out = s.tick(1, 1400, 10);
    assert_eq!(out.reported_level, 2);
}

#[test]
fn alarm_only_on_rising_edge() {
    let mut s = LoopState::new(0);
    assert!(!s.tick(1, 1400, 1).raise_alarm);
    assert!(s.tick(2, 3500, 2).raise_alarm);
    assert!(!s.tick(2, 3500, 3).raise_alarm);
    assert!(s.tick(3, 5200, 4).raise_alarm);
    assert!(!s.tick(3, 5200, 5).raise_alarm);
    // A drop from CRITICAL to WARNING is a change of boost level too.
    assert!(s.tick(2, 3500, 6).raise_alarm);
}
