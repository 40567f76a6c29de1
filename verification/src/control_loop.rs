use vstd::prelude::*;
use crate::control::RPM_MIN_BASELINE;

verus! {

/// Largest drop of the fan target between two control ticks (RPM), which
/// gives the smooth acoustic step-down.
pub const RAMP_DOWN_STEP_RPM: i32 = 150;

/// How long a WARNING or CRITICAL level is held after its last boost (ns).
pub const BOOST_HOLD_NS: u64 = 10_000_000_000;

/// Alert level from which fans are boosted and alarms are raised.
pub const BOOST_LEVEL: i32 = 2;

/// State that the control loop keeps from one tick to the next.
#[derive(Clone, Copy, Debug, PartialEq, Eq, Structural)]
pub struct LoopState {
    /// Fan speed commanded at the previous tick (RPM).
    pub current_target_rpm: i32,
    /// Alert level reported at the previous tick (-1 before the first tick).
    pub last_level: i32,
    /// Monotonic time of the last tick at WARNING or above (ns).
    pub last_boost_ns: u64,
}

/// What one control tick reports and commands.
#[derive(Clone, Copy, Debug, PartialEq, Eq, Structural)]
pub struct TickOutcome {
    /// Alert level reported for this tick, after the boost hold.
    pub reported_level: i32,
    /// Fan speed to command (RPM).
    pub target_rpm: i32,
    /// `true` when an alarm notification is due.
    pub raise_alarm: bool,
}

/// Time elapsed between two readings of a monotonic clock; a reading before
/// the reference counts as no time elapsed.
pub open spec fn elapsed_ns(earlier: u64, now: u64) -> int {
    if now >= earlier {
        now - earlier
    } else {
        0
    }
}

/// The alert level reported for a tick: a boost level is reported as is;
/// a lower level is replaced by the previous boost level while the boost
/// hold lasts.
pub open spec fn spec_reported_level(s: LoopState, decided_level: i32, now_ns: u64) -> i32 {
    if decided_level >= BOOST_LEVEL {
        decided_level
    } else if s.last_level >= BOOST_LEVEL && elapsed_ns(s.last_boost_ns, now_ns) < BOOST_HOLD_NS {
        s.last_level
    } else {
        decided_level
    }
}

/// The fan target after a tick: it follows a higher demand at once, and
/// comes down towards a lower demand by at most `RAMP_DOWN_STEP_RPM`.
pub open spec fn spec_ramped_target(current: i32, desired: i32) -> int {
    if desired < current {
        if current - RAMP_DOWN_STEP_RPM > desired {
            current - RAMP_DOWN_STEP_RPM
        } else {
            desired as int
        }
    } else {
        desired as int
    }
}

/// The state after a tick.
pub open spec fn spec_next_state(s: LoopState, decided_level: i32, desired_rpm: i32, now_ns: u64) -> LoopState {
    LoopState {
        current_target_rpm: spec_ramped_target(s.current_target_rpm, desired_rpm) as i32,
        last_level: spec_reported_level(s, decided_level, now_ns),
        last_boost_ns: if decided_level >= BOOST_LEVEL {
            now_ns
        } else {
            s.last_boost_ns
        },
    }
}

/// What a tick reports and commands.
pub open spec fn spec_tick_outcome(s: LoopState, decided_level: i32, desired_rpm: i32, now_ns: u64) -> TickOutcome {
    let level = spec_reported_level(s, decided_level, now_ns);
    TickOutcome {
        reported_level: level,
        target_rpm: spec_ramped_target(s.current_target_rpm, desired_rpm) as i32,
        raise_alarm: level != s.last_level && level >= BOOST_LEVEL,
    }
}

/// The ramp-down step `current_target_rpm - RAMP_DOWN_STEP_RPM`, taken
/// when the demand is below the target, stays within `i32`.
pub open spec fn tick_in_range(s: LoopState, desired_rpm: i32) -> bool {
    desired_rpm >= s.current_target_rpm || s.current_target_rpm - RAMP_DOWN_STEP_RPM >= i32::MIN
}

impl LoopState {
    /// The state of the loop before its first tick: fans at the silent
    /// baseline, no level reported yet, the boost clock started at `now_ns`.
    pub fn new(now_ns: u64) -> (s: LoopState)
        ensures
            s.current_target_rpm == RPM_MIN_BASELINE,
            s.last_level == -1,
            s.last_boost_ns == now_ns,
    {
        LoopState { current_target_rpm: RPM_MIN_BASELINE, last_level: -1, last_boost_ns: now_ns }
    }

    /// One control tick: takes the level and fan speed decided by the rules
    /// at monotonic time `now_ns`, applies the boost hold and the acoustic
    /// ramp-down, and says whether an alarm is due.
    pub fn tick(&mut self, decided_level: i32, desired_rpm: i32, now_ns: u64) -> (out: TickOutcome)
        requires
            tick_in_range(*old(self), desired_rpm),
        ensures
            out == spec_tick_outcome(*old(self), decided_level, desired_rpm, now_ns),
            *final(self) == spec_next_state(*old(self), decided_level, desired_rpm, now_ns),
            decided_level >= BOOST_LEVEL ==> final(self).last_boost_ns == now_ns,
            decided_level < BOOST_LEVEL ==> final(self).last_boost_ns == old(self).last_boost_ns,
            final(self).last_level == out.reported_level,
            final(self).current_target_rpm == out.target_rpm,
    {
        let mut current_level = decided_level;
        if current_level >= BOOST_LEVEL {
            self.last_boost_ns = now_ns;
        } else if self.last_level >= BOOST_LEVEL {
            let elapsed: u64 = if now_ns >= self.last_boost_ns {
                now_ns - self.last_boost_ns
            } else {
                0
            };
            if elapsed < BOOST_HOLD_NS {
                current_level = self.last_level;
            }
        }
        if desired_rpm < self.current_target_rpm {
            let stepped = self.current_target_rpm - RAMP_DOWN_STEP_RPM;
            self.current_target_rpm = if stepped > desired_rpm {
                stepped
            } else {
                desired_rpm
            };
        } else {
            self.current_target_rpm = desired_rpm;
        }
        let raise_alarm = current_level != self.last_level && current_level >= BOOST_LEVEL;
        self.last_level = current_level;
        TickOutcome { reported_level: current_level, target_rpm: self.current_target_rpm, raise_alarm }
    }
}

/// One input of the control loop: the rules' level and fan speed at a time.
#[derive(Clone, Copy, Debug, PartialEq, Eq, Structural)]
pub struct ControlTick {
    pub decided_level: i32,
    pub desired_rpm: i32,
    pub now_ns: u64,
}

/// The state after feeding `ticks` to the loop in order.
pub open spec fn spec_run(s: LoopState, ticks: Seq<ControlTick>) -> LoopState
    decreases ticks.len(),
{
    if ticks.len() == 0 {
        s
    } else {
        spec_run(
            spec_next_state(s, ticks[0].decided_level, ticks[0].desired_rpm, ticks[0].now_ns),
            ticks.drop_first(),
        )
    }
}

/// The acoustic ramp: in one tick the fan target never drops by more than
/// `RAMP_DOWN_STEP_RPM`, never goes below the demand, follows a higher
/// demand at once, and never rises above the larger of the old target and
/// the demand.
pub proof fn lemma_ramp_step_bounds(s: LoopState, decided_level: i32, desired_rpm: i32, now_ns: u64)
    ensures
        ({
            let t = spec_next_state(s, decided_level, desired_rpm, now_ns).current_target_rpm;
            &&& t >= s.current_target_rpm - RAMP_DOWN_STEP_RPM
            &&& t >= desired_rpm
            &&& desired_rpm >= s.current_target_rpm ==> t == desired_rpm
            &&& t <= s.current_target_rpm || t == desired_rpm
            &&& desired_rpm < s.current_target_rpm ==> t == (if s.current_target_rpm - 150
                > desired_rpm {
                s.current_target_rpm - 150
            } else {
                desired_rpm as int
            })
            &&& t == spec_tick_outcome(s, decided_level, desired_rpm, now_ns).target_rpm
        }),
{
}

/// Under a constant demand `d`, after `k >= 1` ticks the fan target is
/// `max(t0 - 150 * k, d)`: it steps down by `RAMP_DOWN_STEP_RPM` per tick
/// until it reaches the demand, and stays there.
pub proof fn lemma_ramp_converges(s: LoopState, ticks: Seq<ControlTick>, d: i32)
    requires
        ticks.len() >= 1,
        forall|i: int| 0 <= i < ticks.len() ==> #[trigger] ticks[i].desired_rpm == d,
    ensures
        spec_run(s, ticks).current_target_rpm == (if s.current_target_rpm - RAMP_DOWN_STEP_RPM
            * ticks.len() > d {
            s.current_target_rpm - RAMP_DOWN_STEP_RPM * ticks.len()
        } else {
            d as int
        }),
    decreases ticks.len(),
{
    let s1 = spec_next_state(s, ticks[0].decided_level, ticks[0].desired_rpm, ticks[0].now_ns);
    let rest = ticks.drop_first();
    let k = ticks.len() as int;
    assert(ticks[0].desired_rpm == d);
    assert(spec_run(s, ticks) == spec_run(s1, rest));
    let t0 = s.current_target_rpm as int;
    assert(s1.current_target_rpm == (if t0 - 150 > d { t0 - 150 } else { d as int }));
    if ticks.len() > 1 {
        assert forall|i: int| 0 <= i < rest.len() implies #[trigger] rest[i].desired_rpm == d by {
            assert(rest[i] == ticks[i + 1]);
        }
        lemma_ramp_converges(s1, rest, d);
        assert(RAMP_DOWN_STEP_RPM * rest.len() == 150 * (k - 1));
        assert(RAMP_DOWN_STEP_RPM * ticks.len() == 150 * k);
    } else {
        assert(rest.len() == 0);
        assert(spec_run(s1, rest) == s1);
    }
}

/// The boost hold: once a tick has reported WARNING or above, every tick
/// within `BOOST_HOLD_NS` of the last boost, with its clock reading in
/// order, reports WARNING or above too.
pub proof fn lemma_boost_hold(s: LoopState, ticks: Seq<ControlTick>)
    requires
        s.last_level >= BOOST_LEVEL,
        forall|i: int|
            0 <= i < ticks.len() ==> s.last_boost_ns <= #[trigger] ticks[i].now_ns
                < s.last_boost_ns + BOOST_HOLD_NS,
        forall|i: int, j: int| 0 <= i < j < ticks.len() ==> ticks[i].now_ns <= ticks[j].now_ns,
    ensures
        forall|k: int|
            0 <= k < ticks.len() ==> spec_tick_outcome(
                #[trigger] spec_run(s, ticks.take(k)),
                ticks[k].decided_level,
                ticks[k].desired_rpm,
                ticks[k].now_ns,
            ).reported_level >= BOOST_LEVEL,
        spec_run(s, ticks).last_level >= BOOST_LEVEL,
    decreases ticks.len(),
{
    if ticks.len() > 0 {
        let t0 = ticks[0];
        let s1 = spec_next_state(s, t0.decided_level, t0.desired_rpm, t0.now_ns);
        let rest = ticks.drop_first();
        assert(s1.last_level >= BOOST_LEVEL);
        assert(s.last_boost_ns <= s1.last_boost_ns <= t0.now_ns);
        assert forall|i: int|
            0 <= i < rest.len() implies s1.last_boost_ns <= #[trigger] rest[i].now_ns
                < s1.last_boost_ns + BOOST_HOLD_NS by {
            assert(rest[i] == ticks[i + 1]);
        }
        assert forall|i: int, j: int| 0 <= i < j < rest.len() implies rest[i].now_ns
            <= rest[j].now_ns by {
            assert(rest[i] == ticks[i + 1]);
            assert(rest[j] == ticks[j + 1]);
        }
        lemma_boost_hold(s1, rest);
        assert forall|k: int| 0 <= k < ticks.len() implies spec_tick_outcome(
            #[trigger] spec_run(s, ticks.take(k)),
            ticks[k].decided_level,
            ticks[k].desired_rpm,
            ticks[k].now_ns,
        ).reported_level >= BOOST_LEVEL by {
            if k == 0 {
                assert(ticks.take(0).len() == 0);
                assert(spec_run(s, ticks.take(0)) == s);
            } else {
                assert(ticks.take(k).drop_first() =~= rest.take(k - 1));
                assert(ticks.take(k)[0] == t0);
                assert(spec_run(s, ticks.take(k)) == spec_run(s1, rest.take(k - 1)));
                assert(rest[k - 1] == ticks[k]);
            }
        }
        assert(spec_run(s, ticks) == spec_run(s1, rest));
    }
}

/// The boost clock and the reported level: a tick at WARNING or above
/// restarts the boost clock at its own time and is reported as decided; a
/// lower tick leaves the clock alone and reports the previous boost level
/// while fewer than `BOOST_HOLD_NS` have passed since the last boost (a
/// clock reading before it counts as no time), otherwise its own level.
pub proof fn lemma_boost_clock(s: LoopState, decided_level: i32, desired_rpm: i32, now_ns: u64)
    ensures
        ({
            let next = spec_next_state(s, decided_level, desired_rpm, now_ns);
            let out = spec_tick_outcome(s, decided_level, desired_rpm, now_ns);
            &&& decided_level >= 2 ==> next.last_boost_ns == now_ns && out.reported_level
                == decided_level
            &&& decided_level < 2 ==> next.last_boost_ns == s.last_boost_ns
            &&& next.last_level == out.reported_level
            &&& decided_level < 2 && s.last_level >= 2 && now_ns < s.last_boost_ns + 10_000_000_000
                ==> out.reported_level == s.last_level
            &&& decided_level < 2 && (s.last_level < 2 || now_ns >= s.last_boost_ns
                + 10_000_000_000) ==> out.reported_level == decided_level
        }),
{
}

/// The hold is timed from the latest boost: after any tick decided at
/// WARNING or above, every tick less than 10 s after it (in clock order)
/// reports WARNING or above, whatever boosts came before.
pub proof fn lemma_hold_timed_from_latest_boost(s: LoopState, first: ControlTick, second: ControlTick)
    requires
        first.decided_level >= 2,
        first.now_ns <= second.now_ns < first.now_ns + 10_000_000_000,
    ensures
        spec_tick_outcome(
            spec_next_state(s, first.decided_level, first.desired_rpm, first.now_ns),
            second.decided_level,
            second.desired_rpm,
            second.now_ns,
        ).reported_level >= 2,
{
}

/// Alarms are raised exactly on a change of the reported level to WARNING
/// or above.
pub proof fn lemma_alarm_exactly_on_boost_change(s: LoopState, decided_level: i32, desired_rpm: i32, now_ns: u64)
    ensures
        ({
            let out = spec_tick_outcome(s, decided_level, desired_rpm, now_ns);
            out.raise_alarm <==> (out.reported_level != s.last_level && out.reported_level >= 2)
        }),
{
}

/// Alarms fire on rising edges only: an alarm is raised only for a level of
/// WARNING or above that differs from the previous one, so a tick that
/// reports the same level as the tick before never raises a second alarm.
pub proof fn lemma_alarm_on_rising_edge_only(s: LoopState, first: ControlTick, second: ControlTick)
    ensures
        ({
            let out1 = spec_tick_outcome(s, first.decided_level, first.desired_rpm, first.now_ns);
            let s1 = spec_next_state(s, first.decided_level, first.desired_rpm, first.now_ns);
            let out2 = spec_tick_outcome(s1, second.decided_level, second.desired_rpm, second.now_ns);
            &&& out1.raise_alarm ==> out1.reported_level >= BOOST_LEVEL && out1.reported_level
                != s.last_level
            &&& out2.reported_level == out1.reported_level ==> !out2.raise_alarm
        }),
{
}

} // verus!
