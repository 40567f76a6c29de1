use vstd::prelude::*;

verus! {

/// Silent acoustic floor of the fan command (RPM).
pub const RPM_MIN_BASELINE: i32 = 800;

/// Maximum physical speed of the BOOSTA fan (RPM).
pub const RPM_MAX_CEILING: i32 = 5200;

/// Fan floor while a WARNING is active (RPM).
pub const RPM_WARNING_FLOOR: i32 = 3500;

/// Fan floor while a NOTICE is active (RPM).
pub const RPM_NOTICE_FLOOR: i32 = 1400;

/// Discrete alert levels of the control engine, from calm to critical.
#[derive(Clone, Copy, Debug, PartialEq, Eq, Structural)]
pub enum AlertLevel {
    Nominal,
    Notice,
    Warning,
    Critical,
}

impl AlertLevel {
    /// Numeric alert level: 0 = NOMINAL, 1 = NOTICE, 2 = WARNING, 3 = CRITICAL.
    pub open spec fn spec_code(self) -> i32 {
        match self {
            AlertLevel::Nominal => 0,
            AlertLevel::Notice => 1,
            AlertLevel::Warning => 2,
            AlertLevel::Critical => 3,
        }
    }

    /// Lowest fan speed commanded while this level is active.
    pub open spec fn spec_rpm_floor(self) -> i32 {
        match self {
            AlertLevel::Nominal => RPM_MIN_BASELINE,
            AlertLevel::Notice => RPM_NOTICE_FLOOR,
            AlertLevel::Warning => RPM_WARNING_FLOOR,
            AlertLevel::Critical => RPM_MAX_CEILING,
        }
    }

    /// Numeric alert level: 0 = NOMINAL, 1 = NOTICE, 2 = WARNING, 3 = CRITICAL.
    pub fn code(&self) -> (c: i32)
        ensures
            c == self.spec_code(),
            0 <= c <= 3,
    {
        match self {
            AlertLevel::Nominal => 0,
            AlertLevel::Notice => 1,
            AlertLevel::Warning => 2,
            AlertLevel::Critical => 3,
        }
    }

    /// Lowest fan speed commanded while this level is active.
    pub fn rpm_floor(&self) -> (rpm: i32)
        ensures
            rpm == self.spec_rpm_floor(),
            RPM_MIN_BASELINE <= rpm <= RPM_MAX_CEILING,
    {
        match self {
            AlertLevel::Nominal => RPM_MIN_BASELINE,
            AlertLevel::Notice => RPM_NOTICE_FLOOR,
            AlertLevel::Warning => RPM_WARNING_FLOOR,
            AlertLevel::Critical => RPM_MAX_CEILING,
        }
    }

    /// Human-readable state indicator string.
    pub fn status_str(&self) -> (s: &'static str)
        ensures
            self is Nominal ==> s@ == "NOMINAL"@,
            self is Notice ==> s@ == "NOTICE"@,
            self is Warning ==> s@ == "WARNING"@,
            self is Critical ==> s@ == "CRITICAL"@,
    {
        match self {
            AlertLevel::Nominal => "NOMINAL",
            AlertLevel::Notice => "NOTICE",
            AlertLevel::Warning => "WARNING",
            AlertLevel::Critical => "CRITICAL",
        }
    }
}

/// The outcome of each threshold comparison that the alert rules read.
/// Every field is the truth value of one comparison on the filtered
/// Northbridge temperature (`tn0d`), its rate of change (`rate`, in °C/s),
/// the CPU 0 temperature and the hazard forecast.
#[derive(Clone, Copy, Debug, PartialEq, Eq, Structural)]
pub struct ThermalObservations {
    /// `tn0d >= critical_limit` (configured critical limit).
    pub tn0d_at_critical_limit: bool,
    /// `tn0d >= 60.0`
    pub tn0d_at_60: bool,
    /// `tn0d >= 56.5`
    pub tn0d_at_56_5: bool,
    /// `tn0d >= 55.0`
    pub tn0d_at_55: bool,
    /// `tn0d >= 53.5`
    pub tn0d_at_53_5: bool,
    /// `rate >= 3.0`
    pub rate_at_3_0: bool,
    /// `rate >= 1.5`
    pub rate_at_1_5: bool,
    /// `rate >= 1.2` (night rate threshold)
    pub rate_at_1_2: bool,
    /// `rate >= 0.6` (day rate threshold)
    pub rate_at_0_6: bool,
    /// `cpu0 >= 74.0`
    pub cpu0_at_74: bool,
    /// `cpu0 >= 65.0`
    pub cpu0_at_65: bool,
    /// `p_5m > 0.75` (night hazard threshold)
    pub p5m_above_0_75: bool,
    /// `p_5m > 0.50` (day hazard threshold)
    pub p5m_above_0_50: bool,
    /// `p_5m > 0.25`
    pub p5m_above_0_25: bool,
    /// `p_15m > 0.05`
    pub p15m_above_0_05: bool,
    /// `iso_score > 0.70`
    pub iso_above_0_70: bool,
}

impl ThermalObservations {
    /// CRITICAL: the critical limit is reached, the temperature climbs at
    /// 3 °C/s or more, or a short-term hazard is forecast at 60 °C or more.
    pub open spec fn critical_condition(self) -> bool {
        self.tn0d_at_critical_limit || self.rate_at_3_0 || (self.p5m_above_0_25 && self.tn0d_at_60)
    }

    /// WARNING: 56.5 °C, 1.5 °C/s, a hot CPU 0, or a 15-minute hazard at 55 °C.
    pub open spec fn warning_condition(self) -> bool {
        self.tn0d_at_56_5 || self.rate_at_1_5 || self.cpu0_at_74 || (self.p15m_above_0_05
            && self.tn0d_at_55)
    }

    /// NOTICE: 53.5 °C, the rate or hazard threshold of the time of day, or an
    /// anomalous isolation score.  At night the rate and hazard thresholds are higher.
    pub open spec fn notice_condition(self, night: bool) -> bool {
        ||| self.tn0d_at_53_5
        ||| (if night { self.rate_at_1_2 } else { self.rate_at_0_6 })
        ||| (if night { self.p5m_above_0_75 } else { self.p5m_above_0_50 })
        ||| self.iso_above_0_70
    }

    /// The observations agree with the order of the thresholds they compare
    /// against, as any set of comparisons on real readings does.
    pub open spec fn consistent(self) -> bool {
        &&& self.tn0d_at_60 ==> self.tn0d_at_56_5
        &&& self.tn0d_at_56_5 ==> self.tn0d_at_55
        &&& self.tn0d_at_55 ==> self.tn0d_at_53_5
        &&& self.rate_at_3_0 ==> self.rate_at_1_5
        &&& self.rate_at_1_5 ==> self.rate_at_1_2
        &&& self.rate_at_1_2 ==> self.rate_at_0_6
        &&& self.cpu0_at_74 ==> self.cpu0_at_65
        &&& self.p5m_above_0_75 ==> self.p5m_above_0_50
        &&& self.p5m_above_0_50 ==> self.p5m_above_0_25
    }

    /// Every comparison true in `self` is also true in `other`.
    pub open spec fn no_hotter_than(self, other: Self) -> bool {
        &&& self.tn0d_at_critical_limit ==> other.tn0d_at_critical_limit
        &&& self.tn0d_at_60 ==> other.tn0d_at_60
        &&& self.tn0d_at_56_5 ==> other.tn0d_at_56_5
        &&& self.tn0d_at_55 ==> other.tn0d_at_55
        &&& self.tn0d_at_53_5 ==> other.tn0d_at_53_5
        &&& self.rate_at_3_0 ==> other.rate_at_3_0
        &&& self.rate_at_1_5 ==> other.rate_at_1_5
        &&& self.rate_at_1_2 ==> other.rate_at_1_2
        &&& self.rate_at_0_6 ==> other.rate_at_0_6
        &&& self.cpu0_at_74 ==> other.cpu0_at_74
        &&& self.cpu0_at_65 ==> other.cpu0_at_65
        &&& self.p5m_above_0_75 ==> other.p5m_above_0_75
        &&& self.p5m_above_0_50 ==> other.p5m_above_0_50
        &&& self.p5m_above_0_25 ==> other.p5m_above_0_25
        &&& self.p15m_above_0_05 ==> other.p15m_above_0_05
        &&& self.iso_above_0_70 ==> other.iso_above_0_70
    }
}

/// The alert level that the rules assign: the most severe level whose
/// condition holds, checked from CRITICAL down to NOTICE.
pub open spec fn spec_alert_level(obs: ThermalObservations, night: bool) -> AlertLevel {
    if obs.critical_condition() {
        AlertLevel::Critical
    } else if obs.warning_condition() {
        AlertLevel::Warning
    } else if obs.notice_condition(night) {
        AlertLevel::Notice
    } else {
        AlertLevel::Nominal
    }
}

/// The fan command: the raw physics command, raised to the floor of the
/// alert level and capped at the fan ceiling.
pub open spec fn spec_bounded_rpm(raw_rpm_ceil: i32, level: AlertLevel) -> i32 {
    let raised = if raw_rpm_ceil < level.spec_rpm_floor() {
        level.spec_rpm_floor()
    } else {
        raw_rpm_ceil
    };
    if raised < RPM_MAX_CEILING {
        raised
    } else {
        RPM_MAX_CEILING
    }
}

/// Manual (software) fan control is needed whenever an alert is active, the
/// Northbridge reaches 53.5 °C or CPU 0 reaches 65 °C; otherwise the
/// hardware automatic curve takes over.
pub open spec fn spec_manual_control(obs: ThermalObservations, level: AlertLevel) -> bool {
    level.spec_code() > 0 || obs.tn0d_at_53_5 || obs.cpu0_at_65
}

/// The integer part of a control decision.
#[derive(Clone, Copy, Debug, PartialEq, Eq, Structural)]
pub struct FanDecision {
    /// Alert level chosen by the rules.
    pub alert_level: AlertLevel,
    /// Target fan speed in RPM.
    pub desired_rpm: i32,
    /// `true` = manual sysfs control, `false` = hardware automatic curve.
    pub enable_manual: bool,
}

/// Applies the discrete alert rules: CRITICAL, then WARNING, then NOTICE.
pub fn classify_alert(obs: &ThermalObservations, night: bool) -> (level: AlertLevel)
    ensures
        level == spec_alert_level(*obs, night),
{
    if obs.tn0d_at_critical_limit || obs.rate_at_3_0 || (obs.p5m_above_0_25 && obs.tn0d_at_60) {
        AlertLevel::Critical
    } else if obs.tn0d_at_56_5 || obs.rate_at_1_5 || obs.cpu0_at_74 || (obs.p15m_above_0_05
        && obs.tn0d_at_55) {
        AlertLevel::Warning
    } else if obs.tn0d_at_53_5 || (if night {
        obs.rate_at_1_2
    } else {
        obs.rate_at_0_6
    }) || (if night {
        obs.p5m_above_0_75
    } else {
        obs.p5m_above_0_50
    }) || obs.iso_above_0_70 {
        AlertLevel::Notice
    } else {
        AlertLevel::Nominal
    }
}

/// Raises the ceiling of the raw physics command to the floor of the alert
/// level and caps it at the maximum fan speed.
pub fn bounded_fan_rpm(raw_rpm_ceil: i32, level: AlertLevel) -> (rpm: i32)
    ensures
        rpm == spec_bounded_rpm(raw_rpm_ceil, level),
        level.spec_rpm_floor() <= rpm <= RPM_MAX_CEILING,
        level.spec_rpm_floor() <= raw_rpm_ceil <= RPM_MAX_CEILING ==> rpm == raw_rpm_ceil,
{
    let floor = level.rpm_floor();
    let raised = if raw_rpm_ceil < floor {
        floor
    } else {
        raw_rpm_ceil
    };
    if raised < RPM_MAX_CEILING {
        raised
    } else {
        RPM_MAX_CEILING
    }
}

/// Evaluates the alert rules and the fan command for one control step.
/// `raw_rpm_ceil` is the ceiling of the physics command (baseline plus the
/// proportional, derivative and feed-forward terms); `night` tells whether
/// the acoustic night window is active.
pub fn decide_fan_control(obs: &ThermalObservations, night: bool, raw_rpm_ceil: i32) -> (d:
    FanDecision)
    ensures
        d.alert_level == spec_alert_level(*obs, night),
        d.desired_rpm == spec_bounded_rpm(raw_rpm_ceil, d.alert_level),
        d.enable_manual == spec_manual_control(*obs, d.alert_level),
        RPM_MIN_BASELINE <= d.desired_rpm <= RPM_MAX_CEILING,
{
    let alert_level = classify_alert(obs, night);
    let desired_rpm = bounded_fan_rpm(raw_rpm_ceil, alert_level);
    let enable_manual = alert_level.code() > 0 || obs.tn0d_at_53_5 || obs.cpu0_at_65;
    FanDecision { alert_level, desired_rpm, enable_manual }
}

/// The levels are numbered 0 to 3 in order of severity, and their fan
/// floors rise with them: 800, 1400, 3500 and 5200 RPM.
pub proof fn lemma_alert_level_ladder()
    ensures
        AlertLevel::Nominal.spec_code() == 0 && AlertLevel::Nominal.spec_rpm_floor() == 800,
        AlertLevel::Notice.spec_code() == 1 && AlertLevel::Notice.spec_rpm_floor() == 1400,
        AlertLevel::Warning.spec_code() == 2 && AlertLevel::Warning.spec_rpm_floor() == 3500,
        AlertLevel::Critical.spec_code() == 3 && AlertLevel::Critical.spec_rpm_floor() == 5200,
        forall|a: AlertLevel, b: AlertLevel| #[trigger] a.spec_code() == #[trigger] b.spec_code() ==> a == b,
{
    assert forall|a: AlertLevel, b: AlertLevel| #[trigger] a.spec_code() == #[trigger] b.spec_code() implies a == b by {
        match a {
            AlertLevel::Nominal => {},
            AlertLevel::Notice => {},
            AlertLevel::Warning => {},
            AlertLevel::Critical => {},
        }
        match b {
            AlertLevel::Nominal => {},
            AlertLevel::Notice => {},
            AlertLevel::Warning => {},
            AlertLevel::Critical => {},
        }
    }
}

/// The CRITICAL triggers: the configured critical limit, a rise of 3 °C/s or
/// more, or a short-term hazard above 0.25 at 60 °C or more.  Any one of
/// them, whatever the other readings and the time of day, makes the step
/// CRITICAL, runs the fans at `RPM_MAX_CEILING` and engages manual control;
/// without any of them the step is below CRITICAL.
pub proof fn lemma_critical_triggers(obs: ThermalObservations, night: bool, raw_rpm_ceil: i32)
    ensures
        obs.tn0d_at_critical_limit || obs.rate_at_3_0 || (obs.p5m_above_0_25 && obs.tn0d_at_60)
            ==> {
            &&& spec_alert_level(obs, night) == AlertLevel::Critical
            &&& spec_alert_level(obs, night).spec_code() == 3
            &&& spec_bounded_rpm(raw_rpm_ceil, spec_alert_level(obs, night)) == RPM_MAX_CEILING
            &&& spec_manual_control(obs, spec_alert_level(obs, night))
        },
        !(obs.tn0d_at_critical_limit || obs.rate_at_3_0 || (obs.p5m_above_0_25 && obs.tn0d_at_60))
            ==> spec_alert_level(obs, night).spec_code() < 3,
{
}

/// The WARNING triggers: 56.5 °C, a rise of 1.5 °C/s, CPU 0 at 74 °C, or a
/// 15-minute hazard above 0.05 at 55 °C.  Any one of them gives at least a
/// WARNING and at least 3500 RPM; the level is exactly WARNING when no
/// CRITICAL trigger holds, and below WARNING when no trigger of either holds.
pub proof fn lemma_warning_triggers(obs: ThermalObservations, night: bool, raw_rpm_ceil: i32)
    ensures
        ({
            let crit = obs.tn0d_at_critical_limit || obs.rate_at_3_0 || (obs.p5m_above_0_25
                && obs.tn0d_at_60);
            let warn = obs.tn0d_at_56_5 || obs.rate_at_1_5 || obs.cpu0_at_74 || (obs.p15m_above_0_05
                && obs.tn0d_at_55);
            let level = spec_alert_level(obs, night);
            &&& warn ==> level.spec_code() >= 2 && spec_bounded_rpm(raw_rpm_ceil, level) >= 3500
            &&& warn && !crit ==> level == AlertLevel::Warning
            &&& !warn && !crit ==> level.spec_code() < 2
        }),
{
}

/// The NOTICE triggers: 53.5 °C, a rise of 0.6 °C/s by day or 1.2 °C/s at
/// night, a 5-minute hazard above 0.50 by day or 0.75 at night, or an
/// isolation score above 0.70.  Any one of them gives at least a NOTICE and
/// at least 1400 RPM; with no trigger of any level the step is NOMINAL.
pub proof fn lemma_notice_triggers(obs: ThermalObservations, night: bool, raw_rpm_ceil: i32)
    ensures
        ({
            let crit = obs.tn0d_at_critical_limit || obs.rate_at_3_0 || (obs.p5m_above_0_25
                && obs.tn0d_at_60);
            let warn = obs.tn0d_at_56_5 || obs.rate_at_1_5 || obs.cpu0_at_74 || (obs.p15m_above_0_05
                && obs.tn0d_at_55);
            let notice = obs.tn0d_at_53_5 || (!night && obs.rate_at_0_6) || (night && obs.rate_at_1_2)
                || (!night && obs.p5m_above_0_50) || (night && obs.p5m_above_0_75)
                || obs.iso_above_0_70;
            let level = spec_alert_level(obs, night);
            &&& notice ==> level.spec_code() >= 1 && spec_bounded_rpm(raw_rpm_ceil, level) >= 1400
            &&& notice && !warn && !crit ==> level == AlertLevel::Notice
            &&& !notice && !warn && !crit ==> level == AlertLevel::Nominal && level.spec_code() == 0
        }),
{
}

/// The fan command is the raw command clamped to `[floor, 5200]`, where the
/// floor is 800, 1400, 3500 or 5200 by level: a raw command inside the range
/// is kept, one below is raised to the floor, one above is cut to 5200.
pub proof fn lemma_fan_command_clamps(raw_rpm_ceil: i32, level: AlertLevel)
    ensures
        ({
            let floor: int = if level.spec_code() == 0 {
                800
            } else if level.spec_code() == 1 {
                1400
            } else if level.spec_code() == 2 {
                3500
            } else {
                5200
            };
            let rpm = spec_bounded_rpm(raw_rpm_ceil, level);
            &&& floor <= raw_rpm_ceil <= 5200 ==> rpm == raw_rpm_ceil
            &&& raw_rpm_ceil < floor ==> rpm == floor
            &&& raw_rpm_ceil > 5200 ==> rpm == 5200
        }),
{
}

/// Manual control is engaged exactly when an alert is active, the
/// Northbridge is at 53.5 °C or more, or CPU 0 is at 65 °C or more.
pub proof fn lemma_manual_control_triggers(obs: ThermalObservations, level: AlertLevel)
    ensures
        spec_manual_control(obs, level) <==> (level != AlertLevel::Nominal || obs.tn0d_at_53_5
            || obs.cpu0_at_65),
{
}

/// A CRITICAL alert always commands the fans to their full speed, whatever
/// the physics command.
pub proof fn lemma_critical_runs_fans_at_ceiling(raw_rpm_ceil: i32)
    ensures
        spec_bounded_rpm(raw_rpm_ceil, AlertLevel::Critical) == RPM_MAX_CEILING,
{
}

/// The fan command never leaves `[RPM_MIN_BASELINE, RPM_MAX_CEILING]`, and
/// is monotone in both the physics command and the alert level.
pub proof fn lemma_fan_command_monotone(raw1: i32, raw2: i32, level1: AlertLevel, level2: AlertLevel)
    requires
        raw1 <= raw2,
        level1.spec_code() <= level2.spec_code(),
    ensures
        RPM_MIN_BASELINE <= spec_bounded_rpm(raw1, level1) <= RPM_MAX_CEILING,
        spec_bounded_rpm(raw1, level1) <= spec_bounded_rpm(raw2, level2),
{
}

/// Proactive slope control: a Northbridge temperature rising at 1.5 °C/s or
/// more raises at least a WARNING and spools the fans to at least the
/// warning floor, whatever the temperature itself.
pub proof fn lemma_slope_spools_fans(obs: ThermalObservations, night: bool, raw_rpm_ceil: i32)
    requires
        obs.rate_at_1_5,
    ensures
        spec_alert_level(obs, night).spec_code() >= 2,
        spec_bounded_rpm(raw_rpm_ceil, spec_alert_level(obs, night)) >= RPM_WARNING_FLOOR,
{
}

/// Hotter observations never lower the alert level.
pub proof fn lemma_alert_level_monotone(obs1: ThermalObservations, obs2: ThermalObservations, night: bool)
    requires
        obs1.no_hotter_than(obs2),
    ensures
        spec_alert_level(obs1, night).spec_code() <= spec_alert_level(obs2, night).spec_code(),
{
}

/// Manual fan control is engaged for every alert; at NOMINAL on consistent
/// observations it is engaged only by a CPU 0 at 65 °C or more, so a calm
/// machine is handed back to the hardware's automatic curve.
pub proof fn lemma_manual_control_rules(obs: ThermalObservations, night: bool)
    requires
        obs.consistent(),
    ensures
        spec_alert_level(obs, night) != AlertLevel::Nominal ==> spec_manual_control(
            obs,
            spec_alert_level(obs, night),
        ),
        spec_alert_level(obs, night) == AlertLevel::Nominal ==> (spec_manual_control(
            obs,
            spec_alert_level(obs, night),
        ) <==> obs.cpu0_at_65),
{
}

/// The night window only relaxes the rules: on consistent observations the
/// alert level at night never exceeds the one by day, and the two differ
/// only between NOTICE and NOMINAL.
pub proof fn lemma_night_relaxes_alerts(obs: ThermalObservations)
    requires
        obs.consistent(),
    ensures
        spec_alert_level(obs, true).spec_code() <= spec_alert_level(obs, false).spec_code(),
        spec_alert_level(obs, true).spec_code() >= 2 ==> spec_alert_level(obs, true)
            == spec_alert_level(obs, false),
        spec_alert_level(obs, false).spec_code() >= 2 ==> spec_alert_level(obs, true)
            == spec_alert_level(obs, false),
{
}

} // verus!
