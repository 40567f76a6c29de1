use mpro::config::{is_night_window_custom, night_hour_override, night_window_active};

#[test]
fn test_cross_midnight_night_window() {
    // 23:00 (11 PM) to 11:00 (11 AM)
    assert!(is_night_window_custom(23, 23, 11));
    assert!(is_night_window_custom(0, 23, 11));
    assert!(is_night_window_custom(3, 23, 11));
    assert!(is_night_window_custom(10, 23, 11));
    assert!(!is_night_window_custom(11, 23, 11));
    assert!(!is_night_window_custom(12, 23, 11));
    assert!(!is_night_window_custom(22, 23, 11));
}

#[test]
fn test_same_day_night_window() {
    // 01:00 to 07:00
    assert!(is_night_window_custom(1, 1, 7));
    assert!(is_night_window_custom(5, 1, 7));
    assert!(!is_night_window_custom(7, 1, 7));
    assert!(!is_night_window_custom(0, 1, 7));
}

#[test]
fn empty_night_window_contains_no_hour() {
    for hour in 0..24 {
        assert!(!is_night_window_custom(hour, 5, 5));
    }
}

#[test]
fn swapped_window_is_complement() {
    for hour in 0..24 {
        assert_ne!(is_night_window_custom(hour, 23, 11), is_night_window_custom(hour, 11, 23));
        assert_ne!(is_night_window_custom(hour, 1, 7), is_night_window_custom(hour, 7, 1));
    }
}

#[test]
fn window_is_circular_interval() {
    let (start, end) = (22u32, 6u32);
    for hour in 0..24u32 {
        let after_start = (hour + 24 - start) % 24;
        let length = (end + 24 - start) % 24;
        assert_eq!(is_night_window_custom(hour, start, end), after_start < length);
    }
}

#[test]
fn night_window_now_follows_the_clock() {
    // A window covering the whole dial always contains the current hour.
    assert!(night_window_active(0, 24));
    // An empty window never does.
    assert!(!night_window_active(7, 7));
}

#[test]
fn command_line_night_hours_are_capped() {
    assert_eq!(night_hour_override(23, None), 23);
    assert_eq!(night_hour_override(23, Some(2)), 2);
    assert_eq!(night_hour_override(11, Some(30)), 23);
    assert_eq!(night_hour_override(11, Some(23)), 23);
}
