use mpro::clock::{chrono_like_time, clock_text};
use mpro::notify::{choose_webhook_url, gchat_level_icon, gchat_message_text};
use mpro::sysfs::parse_sysfs_value;

#[test]
fn clock_text_of_timestamps() {
    assert_eq!(clock_text(0), "00:00:00");
    assert_eq!(clock_text(3723), "01:02:03");
    assert_eq!(clock_text(86399), "23:59:59");
    assert_eq!(clock_text(86400 + 45296), "12:34:56");
}

#[test]
fn current_time_text_shape() {
    let t = chrono_like_time();
    assert_eq!(t.len(), 8);
    let b = t.as_bytes();
    assert_eq!(b[2], b':');
    assert_eq!(b[5], b':');
    let hours = (b[0] - b'0') * 10 + (b[1] - b'0');
    assert!(hours < 24);
}

#[test]
fn sysfs_values() {
    assert_eq!(parse_sysfs_value(b"52000\n"), Some(52000));
    assert_eq!(parse_sysfs_value(b"  -17 \n"), Some(-17));
    assert_eq!(parse_sysfs_value(b"+8"), Some(8));
    assert_eq!(parse_sysfs_value("\u{a0}12\u{3000}".as_bytes()), Some(12));
    assert_eq!(parse_sysfs_value(b""), None);
    assert_eq!(parse_sysfs_value(b"abc"), None);
    assert_eq!(parse_sysfs_value(b"-"), None);
    assert_eq!(parse_sysfs_value(b"1 2"), None);
    assert_eq!(parse_sysfs_value(&[0xff, 0x31]), None);
    assert_eq!(parse_sysfs_value(b"9223372036854775808"), None);
    assert_eq!(parse_sysfs_value(b"-9223372036854775808"), Some(i64::MIN));
}

#[test]
fn webhook_url_choice() {
    assert_eq!(choose_webhook_url(Some("  https://a/b \n"), Some("https://c")), Some("https://a/b".to_string()));
    assert_eq!(choose_webhook_url(Some("   "), Some("\nhttps://c\n")), Some("https://c".to_string()));
    assert_eq!(choose_webhook_url(None, Some("https://c")), Some("https://c".to_string()));
    assert_eq!(choose_webhook_url(Some(""), Some(" \t ")), None);
    assert_eq!(choose_webhook_url(None, None), None);
}

#[test]
fn webhook_message_text() {
    assert_eq!(gchat_level_icon(1), "ℹ️");
    assert_eq!(gchat_level_icon(2), "🚨");
    assert_eq!(gchat_level_icon(3), "🔥");
    assert_eq!(gchat_level_icon(0), "🛡️");
    assert_eq!(gchat_level_icon(7), "🛡️");
    assert_eq!(
        gchat_message_text("mpro Level 3", "hot", 3),
        "🔥 *mpro Level 3*\n*Host*: `michael-MacPro5-1`\nhot"
    );
}
