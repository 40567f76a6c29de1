use mpro::dbus::{
    fan_zone_writes, last_sent_after, override_command, OverrideCommand, NO_OVERRIDE_SENT,
};

#[test]
fn first_request_is_sent() {
    assert_eq!(override_command(NO_OVERRIDE_SENT, 3500), OverrideCommand::SetOverride(3500));
    assert_eq!(override_command(NO_OVERRIDE_SENT, 800), OverrideCommand::ResetOverride);
    assert_eq!(override_command(NO_OVERRIDE_SENT, 801), OverrideCommand::SetOverride(801));
}

#[test]
fn delivered_speed_is_deduplicated() {
    let last = last_sent_after(NO_OVERRIDE_SENT, 3500, true);
    assert_eq!(last, 3500);
    assert_eq!(override_command(last, 3500), OverrideCommand::Skip);
    assert_eq!(override_command(last, 800), OverrideCommand::ResetOverride);
}

#[test]
fn failed_delivery_is_retried() {
    let last = last_sent_after(NO_OVERRIDE_SENT, 3500, false);
    assert_eq!(last, NO_OVERRIDE_SENT);
    assert_eq!(override_command(last, 3500), OverrideCommand::SetOverride(3500));
}

#[test]
fn all_six_zones_capped_at_their_maximum() {
    let w = fan_zone_writes(4000);
    assert_eq!(w.len(), 6);
    let expected = [2800, 2800, 2800, 2800, 4000, 4000];
    for (i, zone) in w.iter().enumerate() {
        assert_eq!(zone.fan_index as usize, i + 1);
        assert_eq!(zone.capped_rpm, expected[i]);
        assert!(!zone.release_manual);
    }
}

#[test]
fn baseline_request_releases_manual_control() {
    for zone in fan_zone_writes(800) {
        assert_eq!(zone.capped_rpm, 800);
        assert!(zone.release_manual);
    }
    for zone in fan_zone_writes(801) {
        assert!(!zone.release_manual);
    }
}
