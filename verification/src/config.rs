use vstd::prelude::*;

verus! {

/// The acoustic night window `[night_start, night_end)` on the hour dial.
/// An empty window (`night_start == night_end`) contains no hour; a window
/// whose start lies after its end wraps around midnight.
pub open spec fn in_night_window(hour: u32, night_start: u32, night_end: u32) -> bool {
    if night_start == night_end {
        false
    } else if night_start < night_end {
        night_start <= hour && hour < night_end
    } else {
        hour >= night_start || hour < night_end
    }
}

/// Evaluates if a given hour falls inside a configurable acoustic night window.
/// Handles cross-midnight spans (e.g. 23:00 -> 11:00) as well as same-day spans (e.g. 01:00 -> 07:00).
pub fn is_night_window_custom(current_hour: u32, night_start: u32, night_end: u32) -> (night: bool)
    ensures
        night == in_night_window(current_hour, night_start, night_end),
{
    if night_start == night_end {
        return false;
    }
    if night_start < night_end {
        current_hour >= night_start && current_hour < night_end
    } else {
        current_hour >= night_start || current_hour < night_end
    }
}

/// Latest hour that a command-line night-window setting can name.
pub const LAST_HOUR: u32 = 23;

/// A night-window hour after a command-line setting: the setting, capped at
/// 23, replaces the configured hour when it is given.
pub fn night_hour_override(configured: u32, cli_hour: Option<u32>) -> (hour: u32)
    ensures
        cli_hour is None ==> hour == configured,
        cli_hour matches Some(h) ==> hour == (if h < LAST_HOUR {
            h
        } else {
            LAST_HOUR
        }),
        cli_hour is Some ==> hour <= 23,
        cli_hour matches Some(h) ==> (h <= 23 ==> hour == h),
{
    match cli_hour {
        Some(h) => if h < LAST_HOUR {
            h
        } else {
            LAST_HOUR
        },
        None => configured,
    }
}

/// On the 24-hour dial the night window is the circular interval from
/// `night_start` (included) to `night_end` (excluded): an hour is inside
/// exactly when it lies fewer hours after the start than the end does.
pub proof fn lemma_night_window_is_circular_interval(hour: u32, night_start: u32, night_end: u32)
    requires
        hour < 24,
        night_start < 24,
        night_end < 24,
    ensures
        in_night_window(hour, night_start, night_end) <==> (hour - night_start) % 24 < (night_end
            - night_start) % 24,
{
}

/// The window's membership, hour by hour: an empty window holds no hour; a
/// same-day window holds exactly the hours from its start up to, but not
/// including, its end; a window across midnight holds exactly the hours from
/// its start on and the hours before its end.
pub proof fn lemma_night_window_membership(hour: u32, night_start: u32, night_end: u32)
    ensures
        night_start == night_end ==> !in_night_window(hour, night_start, night_end),
        night_start < night_end ==> (in_night_window(hour, night_start, night_end) <==> (
        night_start <= hour && hour < night_end)),
        night_start > night_end ==> (in_night_window(hour, night_start, night_end) <==> (hour
            >= night_start || hour < night_end)),
{
}

/// Swapping the start and the end of a non-empty night window gives its
/// complement: every hour is in exactly one of the two windows.
pub proof fn lemma_swapped_window_is_complement(hour: u32, night_start: u32, night_end: u32)
    requires
        night_start != night_end,
    ensures
        in_night_window(hour, night_start, night_end) <==> !in_night_window(hour, night_end, night_start),
{
}

/// `chrono::Local::now`, read through `Timelike::hour`: the hour of the
/// local wall clock.  chrono documents `hour` as returning the hour number
/// from 0 to 23, which is all that is stated; which hour it is depends on
/// the time and the machine's time zone.
#[verifier::external_body]
fn local_hour() -> (hour: u32)
    ensures
        hour < 24,
{
    chrono::Timelike::hour(&chrono::Local::now())
}

/// The local hour that was read, and whether the night window contains it.
#[derive(Clone, Copy, Debug, PartialEq, Eq, Structural)]
pub struct NightReading {
    /// The hour of the local wall clock, 0 to 23.
    pub hour: u32,
    /// Whether the night window contains that hour.
    pub night: bool,
}

/// Reads the local hour once and tells whether the acoustic night window
/// `[night_start, night_end)` contains exactly that hour.
pub fn read_night_window(night_start: u32, night_end: u32) -> (r: NightReading)
    ensures
        r.hour < 24,
        r.night == in_night_window(r.hour, night_start, night_end),
{
    let hour = local_hour();
    NightReading { hour, night: is_night_window_custom(hour, night_start, night_end) }
}

/// Whether the acoustic night window `[night_start, night_end)` contains the
/// current local hour, as read by `read_night_window`.
pub fn night_window_active(night_start: u32, night_end: u32) -> (night: bool)
    ensures
        exists|hour: u32| hour < 24 && night == in_night_window(hour, night_start, night_end),
{
    read_night_window(night_start, night_end).night
}

} // verus!
