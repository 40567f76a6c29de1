use vstd::prelude::*;
use crate::control::RPM_MIN_BASELINE;

verus! {

/// Physical maximum RPM of fan 5 (BOOSTA).
pub const FAN_MAX_BOOSTA: i32 = 5200;
/// Physical maximum RPM of fan 6 (BOOSTB).
pub const FAN_MAX_BOOSTB: i32 = 5200;
/// Physical maximum RPM of fan 3 (EXHAUST).
pub const FAN_MAX_EXHAUST: i32 = 2800;
/// Physical maximum RPM of fan 4 (INTAKE).
pub const FAN_MAX_INTAKE: i32 = 2800;
/// Physical maximum RPM of fan 1 (PCI).
pub const FAN_MAX_PCI: i32 = 2800;
/// Physical maximum RPM of fan 2 (PS).
pub const FAN_MAX_PS: i32 = 2800;

/// Number of chassis fan zones.
pub const FAN_ZONE_COUNT: usize = 6;

/// Value of the last-sent register before any override was delivered.
pub const NO_OVERRIDE_SENT: i32 = -1;

/// The maximum RPM of fan zone `index` (1 to 6).
pub open spec fn fan_zone_max(index: int) -> i32 {
    if index == 1 {
        FAN_MAX_PCI
    } else if index == 2 {
        FAN_MAX_PS
    } else if index == 3 {
        FAN_MAX_EXHAUST
    } else if index == 4 {
        FAN_MAX_INTAKE
    } else if index == 5 {
        FAN_MAX_BOOSTA
    } else {
        FAN_MAX_BOOSTB
    }
}

/// The D-Bus call that a fan override request turns into.
#[derive(Clone, Copy, Debug, PartialEq, Eq, Structural)]
pub enum OverrideCommand {
    /// The same speed was already delivered: nothing is sent.
    Skip,
    /// `SetOverride` with the requested speed.
    SetOverride(i32),
    /// `ResetOverride`: hand the fans back to the daemon's own curve.
    ResetOverride,
}

/// A request equal to the last delivered speed is skipped; a speed above
/// the silent baseline is set as an override; anything else resets the
/// override.
pub open spec fn spec_override_command(last_sent_rpm: i32, target_rpm: i32) -> OverrideCommand {
    if target_rpm == last_sent_rpm {
        OverrideCommand::Skip
    } else if target_rpm > RPM_MIN_BASELINE {
        OverrideCommand::SetOverride(target_rpm)
    } else {
        OverrideCommand::ResetOverride
    }
}

/// Chooses the D-Bus call for an override request, given the last speed
/// that was delivered.
pub fn override_command(last_sent_rpm: i32, target_rpm: i32) -> (cmd: OverrideCommand)
    ensures
        cmd == spec_override_command(last_sent_rpm, target_rpm),
        target_rpm == last_sent_rpm ==> cmd == OverrideCommand::Skip,
        target_rpm != last_sent_rpm && target_rpm > RPM_MIN_BASELINE ==> cmd
            == OverrideCommand::SetOverride(target_rpm),
        target_rpm != last_sent_rpm && target_rpm <= RPM_MIN_BASELINE ==> cmd
            == OverrideCommand::ResetOverride,
{
    if target_rpm == last_sent_rpm {
        OverrideCommand::Skip
    } else if target_rpm > RPM_MIN_BASELINE {
        OverrideCommand::SetOverride(target_rpm)
    } else {
        OverrideCommand::ResetOverride
    }
}

/// The last delivered speed after a call for `target_rpm`: it is recorded
/// only when the call succeeded.
pub fn last_sent_after(last_sent_rpm: i32, target_rpm: i32, delivered: bool) -> (r: i32)
    ensures
        r == (if delivered {
            target_rpm
        } else {
            last_sent_rpm
        }),
{
    if delivered {
        target_rpm
    } else {
        last_sent_rpm
    }
}

/// State deduplication: once a speed was delivered, asking for it again
/// sends nothing; a failed call is retried by the next identical request.
pub proof fn lemma_override_deduplicated(last_sent_rpm: i32, target_rpm: i32)
    ensures
        spec_override_command(target_rpm, target_rpm) == OverrideCommand::Skip,
        target_rpm != last_sent_rpm ==> spec_override_command(last_sent_rpm, target_rpm)
            != OverrideCommand::Skip,
{
}

/// The three D-Bus calls: a request equal to the last delivered speed sends
/// nothing; any other request above 800 RPM, up to the largest speed,
/// sends `SetOverride` with exactly that speed; any other request at or
/// below 800 RPM sends `ResetOverride`.
pub proof fn lemma_override_calls(last_sent_rpm: i32, target_rpm: i32)
    ensures
        target_rpm == last_sent_rpm ==> spec_override_command(last_sent_rpm, target_rpm)
            == OverrideCommand::Skip,
        target_rpm != last_sent_rpm && target_rpm > 800 ==> spec_override_command(
            last_sent_rpm,
            target_rpm,
        ) == OverrideCommand::SetOverride(target_rpm),
        target_rpm != last_sent_rpm && target_rpm <= 800 ==> spec_override_command(
            last_sent_rpm,
            target_rpm,
        ) == OverrideCommand::ResetOverride,
        spec_override_command(last_sent_rpm, target_rpm) matches OverrideCommand::SetOverride(r)
            ==> r == target_rpm,
{
}

/// The zone limits: PCI, PS, EXHAUST and INTAKE (zones 1 to 4) run up to
/// 2800 RPM, BOOSTA and BOOSTB (zones 5 and 6) up to 5200 RPM; each zone
/// gets the request cut to its own limit.
pub proof fn lemma_zone_limits(target_rpm: i32)
    ensures
        forall|i: int|
            1 <= i <= 4 ==> (#[trigger] spec_zone_write(i, target_rpm)).capped_rpm == (if target_rpm
                < 2800 {
                target_rpm
            } else {
                2800
            }),
        forall|i: int|
            5 <= i <= 6 ==> (#[trigger] spec_zone_write(i, target_rpm)).capped_rpm == (if target_rpm
                < 5200 {
                target_rpm
            } else {
                5200
            }),
        forall|i: int|
            1 <= i <= 6 ==> ((#[trigger] spec_zone_write(i, target_rpm)).release_manual <==> (
            spec_zone_write(i, target_rpm)).capped_rpm <= 800),
{
}

/// What the sysfs override writes for one fan zone.
#[derive(Clone, Copy, Debug, PartialEq, Eq, Structural)]
pub struct FanZoneWrite {
    /// Fan zone index, 1 to 6.
    pub fan_index: u32,
    /// Speed written to the zone's `_min` and `_output` registers.
    pub capped_rpm: i32,
    /// `true` when the zone's `_manual` register is set back to `0`.
    pub release_manual: bool,
}

/// The write planned for fan zone `index` when `target_rpm` is requested.
pub open spec fn spec_zone_write(index: int, target_rpm: i32) -> FanZoneWrite {
    let capped = if target_rpm < fan_zone_max(index) {
        target_rpm
    } else {
        fan_zone_max(index)
    };
    FanZoneWrite {
        fan_index: index as u32,
        capped_rpm: capped,
        release_manual: capped <= RPM_MIN_BASELINE,
    }
}

/// Plans the secondary hardware override across all six chassis fan zones:
/// each zone gets the requested speed capped at its own maximum, and zones
/// at or below the silent baseline are handed back to automatic control.
pub fn fan_zone_writes(target_rpm: i32) -> (writes: Vec<FanZoneWrite>)
    ensures
        writes@.len() == FAN_ZONE_COUNT,
        forall|i: int| 0 <= i < 6 ==> #[trigger] writes@[i] == spec_zone_write(i + 1, target_rpm),
{
    let limits: [i32; 6] = [
        FAN_MAX_PCI,
        FAN_MAX_PS,
        FAN_MAX_EXHAUST,
        FAN_MAX_INTAKE,
        FAN_MAX_BOOSTA,
        FAN_MAX_BOOSTB,
    ];
    assert(forall|i: int| 0 <= i < 6 ==> #[trigger] limits@[i] == fan_zone_max(i + 1));
    let mut writes: Vec<FanZoneWrite> = Vec::new();
    let mut i: usize = 0;
    while i < 6
        invariant
            i <= 6,
            writes@.len() == i,
            forall|j: int| 0 <= j < 6 ==> #[trigger] limits@[j] == fan_zone_max(j + 1),
            forall|j: int| 0 <= j < i ==> #[trigger] writes@[j] == spec_zone_write(j + 1, target_rpm),
        decreases 6 - i,
    {
        let max_rpm = limits[i];
        let capped = if target_rpm < max_rpm {
            target_rpm
        } else {
            max_rpm
        };
        writes.push(
            FanZoneWrite {
                fan_index: (i + 1) as u32,
                capped_rpm: capped,
                release_manual: capped <= RPM_MIN_BASELINE,
            },
        );
        i = i + 1;
    }
    writes
}

/// Every zone is covered once, in order, never above its own maximum; a
/// request within every zone's range reaches every zone unchanged; and the
/// zones are released to automatic control exactly when the request is at
/// or below the silent baseline.
pub proof fn lemma_fan_zones_covered(target_rpm: i32)
    ensures
        forall|i: int|
            1 <= i <= 6 ==> {
                let w = #[trigger] spec_zone_write(i, target_rpm);
                &&& w.fan_index == i
                &&& w.capped_rpm <= fan_zone_max(i)
                &&& target_rpm <= 2800 ==> w.capped_rpm == target_rpm
                &&& w.release_manual <==> target_rpm <= RPM_MIN_BASELINE
            },
{
}

} // verus!
