use mpro::telemetry::{parse_sensor_text, reading_from_read_result};

#[test]
fn milli_celsius_line() {
    assert_eq!(parse_sensor_text(b"52000\n"), 52000);
    assert_eq!(parse_sensor_text(b"1200"), 1200);
}

#[test]
fn leading_noise_and_zeros_skipped() {
    assert_eq!(parse_sensor_text(b"  47\n"), 47);
    assert_eq!(parse_sensor_text(b"0 12"), 12);
    assert_eq!(parse_sensor_text(b"01 2"), 1);
    assert_eq!(parse_sensor_text(b"12a34"), 12);
}

#[test]
fn no_digits_read_as_zero() {
    assert_eq!(parse_sensor_text(b""), 0);
    assert_eq!(parse_sensor_text(b"\n"), 0);
    assert_eq!(parse_sensor_text(b"000\n"), 0);
}

#[test]
fn longest_buffer_fits() {
    assert_eq!(parse_sensor_text(b"9999999999999999"), 9_999_999_999_999_999);
    assert_eq!(parse_sensor_text(b"999999999999999999"), 999_999_999_999_999_999);
}

#[test]
fn read_result_counts() {
    let mut buf = [0u8; 16];
    buf[..6].copy_from_slice(b"48500\n");
    assert_eq!(reading_from_read_result(&buf, 6), 48500);
    assert_eq!(reading_from_read_result(&buf, 3), 485);
    assert_eq!(reading_from_read_result(&buf, 0), 0);
    assert_eq!(reading_from_read_result(&buf, -1), 0);
}
