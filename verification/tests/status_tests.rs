use mpro::status::StatusWriterState;

#[test]
fn unchanged_alert_written_every_five_seconds() {
    let mut s = StatusWriterState::after_write(0, 1000);
    assert!(!s.should_write(0, 1001));
    assert!(!s.should_write(0, 1004));
    assert!(s.should_write(0, 1005));
    assert_eq!(s.last_write_ts, 1005);
    assert!(!s.should_write(0, 1009));
}

#[test]
fn alert_change_written_at_once() {
    let mut s = StatusWriterState::after_write(0, 1000);
    assert!(s.should_write(2, 1000));
    assert_eq!(s.last_alert, 2);
    assert!(s.should_write(0, 999));
    assert_eq!(s.last_write_ts, 999);
}
