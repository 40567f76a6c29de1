use vstd::prelude::*;

verus! {

/// While the alert level stays the same, the status file is rewritten at
/// most once per this many seconds.
pub const STATUS_REFRESH_SECS: u64 = 5;

/// What the status writer remembers of its last write.
#[derive(Clone, Copy, Debug, PartialEq, Eq, Structural)]
pub struct StatusWriterState {
    /// Alert level of the last status written.
    pub last_alert: i32,
    /// Timestamp (UNIX seconds) of the last status written.
    pub last_write_ts: u64,
}

/// Whether a status with alert level `alert` and timestamp `ts` is written:
/// at once when the alert level changed, otherwise once the refresh period
/// has passed since the last write.
pub open spec fn spec_should_write(s: StatusWriterState, alert: i32, ts: u64) -> bool {
    alert != s.last_alert || ts - s.last_write_ts >= STATUS_REFRESH_SECS
}

/// The timestamp difference is only taken when the alert level is
/// unchanged, and then it must not run backwards.
pub open spec fn status_ts_in_order(s: StatusWriterState, alert: i32, ts: u64) -> bool {
    alert != s.last_alert || ts >= s.last_write_ts
}

impl StatusWriterState {
    /// The writer's state right after it wrote the initial status.
    pub fn after_write(alert: i32, ts: u64) -> (s: StatusWriterState)
        ensures
            s.last_alert == alert,
            s.last_write_ts == ts,
    {
        StatusWriterState { last_alert: alert, last_write_ts: ts }
    }

    /// Debounced write decision for a new status; records the status as
    /// written when the answer is `true`.
    pub fn should_write(&mut self, alert: i32, ts: u64) -> (write: bool)
        requires
            status_ts_in_order(*old(self), alert, ts),
        ensures
            write == spec_should_write(*old(self), alert, ts),
            write ==> *final(self) == (StatusWriterState { last_alert: alert, last_write_ts: ts }),
            !write ==> *final(self) == *old(self),
    {
        if alert != self.last_alert || ts - self.last_write_ts >= STATUS_REFRESH_SECS {
            self.last_alert = alert;
            self.last_write_ts = ts;
            true
        } else {
            false
        }
    }
}

/// Debounce: a change of alert level is always written, and after a write
/// the same alert level is written again exactly once 5 seconds have
/// passed.
pub proof fn lemma_status_debounce(s: StatusWriterState, alert: i32, ts1: u64, ts2: u64)
    requires
        ts1 <= ts2,
    ensures
        alert != s.last_alert ==> spec_should_write(s, alert, ts1),
        spec_should_write(s, alert, ts1) ==> {
            let s1 = StatusWriterState { last_alert: alert, last_write_ts: ts1 };
            spec_should_write(s1, alert, ts2) <==> ts2 - ts1 >= 5
        },
{
}

} // verus!
