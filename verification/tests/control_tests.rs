use mpro::control::{
    bounded_fan_rpm, classify_alert, decide_fan_control, AlertLevel, ThermalObservations,
    RPM_MAX_CEILING, RPM_MIN_BASELINE,
};

fn calm() -> ThermalObservations {
    ThermalObservations {
        tn0d_at_critical_limit: false,
        tn0d_at_60: false,
        tn0d_at_56_5: false,
        tn0d_at_55: false,
        tn0d_at_53_5: false,
        rate_at_3_0: false,
        rate_at_1_5: false,
        rate_at_1_2: false,
        rate_at_0_6: false,
        cpu0_at_74: false,
        cpu0_at_65: false,
        p5m_above_0_75: false,
        p5m_above_0_50: false,
        p5m_above_0_25: false,
        p15m_above_0_05: false,
        iso_above_0_70: false,
    }
}

#[test]
fn calm_machine_is_nominal_on_hardware_curve() {
    let d = decide_fan_control(&calm(), false, 812);
    assert_eq!(d.alert_level, AlertLevel::Nominal);
    assert_eq!(d.alert_level.code(), 0);
    assert_eq!(d.alert_level.status_str(), "NOMINAL");
    assert_eq!(d.desired_rpm, 812);
    assert!(!d.enable_manual);
}

#[test]
fn critical_limit_runs_fans_at_ceiling() {
    let obs = ThermalObservations { tn0d_at_critical_limit: true, ..calm() };
    let d = decide_fan_control(&obs, true, 900);
    assert_eq!(d.alert_level, AlertLevel::Critical);
    assert_eq!(d.alert_level.status_str(), "CRITICAL");
    assert_eq!(d.desired_rpm, RPM_MAX_CEILING);
    assert!(d.enable_manual);
}

#[test]
fn hazard_at_sixty_degrees_is_critical() {
    let obs = ThermalObservations {
        p5m_above_0_25: true,
        tn0d_at_60: true,
        tn0d_at_56_5: true,
        tn0d_at_55: true,
        tn0d_at_53_5: true,
        ..calm()
    };
    assert_eq!(classify_alert(&obs, false), AlertLevel::Critical);
    // Without the hazard, 60 degrees is a warning.
    let obs = ThermalObservations { p5m_above_0_25: false, ..obs };
    assert_eq!(classify_alert(&obs, false), AlertLevel::Warning);
}

#[test]
fn warning_raises_floor() {
    let obs = ThermalObservations { cpu0_at_74: true, cpu0_at_65: true, ..calm() };
    let d = decide_fan_control(&obs, false, 1000);
    assert_eq!(d.alert_level, AlertLevel::Warning);
    assert_eq!(d.alert_level.code(), 2);
    assert_eq!(d.alert_level.status_str(), "WARNING");
    assert_eq!(d.desired_rpm, 3500);
    let d = decide_fan_control(&obs, false, 4100);
    assert_eq!(d.desired_rpm, 4100);
}

#[test]
fn notice_thresholds_depend_on_night() {
    let obs = ThermalObservations { rate_at_0_6: true, ..calm() };
    let day = decide_fan_control(&obs, false, 900);
    assert_eq!(day.alert_level, AlertLevel::Notice);
    assert_eq!(day.alert_level.status_str(), "NOTICE");
    assert_eq!(day.desired_rpm, 1400);
    let night = decide_fan_control(&obs, true, 900);
    assert_eq!(night.alert_level, AlertLevel::Nominal);
    assert_eq!(night.desired_rpm, 900);
    let obs = ThermalObservations { p5m_above_0_50: true, p5m_above_0_25: true, ..calm() };
    assert_eq!(classify_alert(&obs, false), AlertLevel::Notice);
    assert_eq!(classify_alert(&obs, true), AlertLevel::Nominal);
    let obs = ThermalObservations { iso_above_0_70: true, ..calm() };
    assert_eq!(classify_alert(&obs, true), AlertLevel::Notice);
}

#[test]
fn warm_cpu_engages_manual_control_at_nominal() {
    let obs = ThermalObservations { cpu0_at_65: true, ..calm() };
    let d = decide_fan_control(&obs, false, 800);
    assert_eq!(d.alert_level, AlertLevel::Nominal);
    assert!(d.enable_manual);
}

#[test]
fn fan_command_is_bounded() {
    assert_eq!(bounded_fan_rpm(i32::MIN, AlertLevel::Nominal), RPM_MIN_BASELINE);
    assert_eq!(bounded_fan_rpm(i32::MAX, AlertLevel::Nominal), RPM_MAX_CEILING);
    assert_eq!(bounded_fan_rpm(2000, AlertLevel::Notice), 2000);
    assert_eq!(bounded_fan_rpm(1000, AlertLevel::Notice), 1400);
    assert_eq!(bounded_fan_rpm(100, AlertLevel::Critical), 5200);
    assert_eq!(AlertLevel::Critical.rpm_floor(), 5200);
    assert_eq!(AlertLevel::Critical.code(), 3);
    assert_eq!(AlertLevel::Notice.code(), 1);
}

#[test]
fn hotter_observations_never_lower_the_level() {
    let base = ThermalObservations { tn0d_at_53_5: true, ..calm() };
    let hotter = ThermalObservations { tn0d_at_55: true, p15m_above_0_05: true, ..base };
    assert!(classify_alert(&base, false).code() <= classify_alert(&hotter, false).code());
    assert_eq!(classify_alert(&hotter, false), AlertLevel::Warning);
}

#[test]
fn fast_rise_spools_fans_to_warning_floor() {
    let obs = ThermalObservations {
        rate_at_1_5: true,
        rate_at_1_2: true,
        rate_at_0_6: true,
        ..calm()
    };
    for night in [false, true] {
        let d = decide_fan_control(&obs, night, 900);
        assert_eq!(d.alert_level, AlertLevel::Warning);
        assert!(d.desired_rpm >= 3500);
    }
}

#[test]
fn night_never_raises_the_level() {
    let obs = ThermalObservations { rate_at_1_2: true, rate_at_0_6: true, ..calm() };
    assert_eq!(classify_alert(&obs, true), AlertLevel::Notice);
    assert_eq!(classify_alert(&obs, false), AlertLevel::Notice);
    let obs = ThermalObservations { p5m_above_0_50: true, p5m_above_0_25: true, tn0d_at_60: true,
        tn0d_at_56_5: true, tn0d_at_55: true, tn0d_at_53_5: true, ..calm() };
    assert_eq!(classify_alert(&obs, true), classify_alert(&obs, false));
    assert_eq!(classify_alert(&obs, true), AlertLevel::Critical);
}
