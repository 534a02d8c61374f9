//! The day scheduler's decisions: which timeline entry is active for a given
//! wall-clock instant, when the day rolls over, and how the per-day state is
//! rebuilt. The surrounding process runs the poll loop and performs the
//! wallpaper and clock calls; every decision it acts on is taken here.

use crate::anchors::{get_day_sun_and_moon_position_times, AnchorSet, TransitError, TransitTimes};
use crate::config::WallpaperPackConfig;
use crate::timeline::{
    anchor_spans_fit, map_images_and_timestamps, pack_counts_fit, timeline_images,
    timeline_timestamps,
};
use vstd::prelude::*;

verus! {

/// The scheduler's per-day state: the current anchor set and the timeline
/// built from it. Replaced wholesale on day rollover, never patched, so no
/// partially stale anchor/timeline pair can exist.
#[derive(Debug)]
pub struct SchedulerState {
    pub sun_and_moon: AnchorSet,
    pub images_seq: Vec<String>,
    pub timestamp_seq: Vec<i64>,
}

impl SchedulerState {
    /// The two timeline columns are exactly those built from this state's own
    /// anchor set and the given pack.
    pub open spec fn consistent_with(self, p: WallpaperPackConfig) -> bool {
        &&& self.images_seq@ == timeline_images(p)
        &&& self.timestamp_seq@.map_values(|t: i64| t as int) == timeline_timestamps(
            self.sun_and_moon,
            p,
        )
        &&& self.images_seq@.len() == self.timestamp_seq@.len()
    }

    /// Builds the state for one day from its anchor set and the configured
    /// pack.
    pub fn new(sun_and_moon: AnchorSet, pack: &WallpaperPackConfig) -> (r: Self)
        requires
            anchor_spans_fit(sun_and_moon),
            pack_counts_fit(*pack),
        ensures
            r.sun_and_moon == sun_and_moon,
            r.consistent_with(*pack),
    {
        let (images_seq, timestamp_seq) = map_images_and_timestamps(&sun_and_moon, pack);
        SchedulerState { sun_and_moon, images_seq, timestamp_seq }
    }
}

/// Scans the timeline in order and returns the index of the first entry whose
/// timestamp is strictly greater than `now`. `None` means the clock has
/// passed every scheduled point: no wallpaper change happens this tick.
pub fn select_wallpaper_index(timestamp_seq: &Vec<i64>, now: i64) -> (r: Option<usize>)
    ensures
        match r {
            Some(i) => i < timestamp_seq@.len() && now < timestamp_seq@[i as int] && (forall|
                j: int,
            |
                0 <= j < i ==> timestamp_seq@[j] <= now),
            None => forall|j: int| 0 <= j < timestamp_seq@.len() ==> timestamp_seq@[j] <= now,
        },
{
    let mut index: usize = 0;
    while index < timestamp_seq.len()
        invariant
            index <= timestamp_seq@.len(),
            forall|j: int| 0 <= j < index ==> timestamp_seq@[j] <= now,
        decreases timestamp_seq@.len() - index,
    {
        if now < timestamp_seq[index] {
            return Some(index);
        }
        index = index + 1;
    }
    None
}

/// What one poll tick of the control loop decides to do.
#[derive(Debug, Clone, Copy, PartialEq, Eq)]
pub enum TickAction {
    /// Shutdown was requested: leave the loop; the process exits successfully.
    Terminate,
    /// The clock passed the anchor set's next-day midnight: discard the state
    /// and rebuild it for the new day before selecting anything.
    Recompute,
    /// Apply the image standing at this index of the timeline.
    Apply(usize),
    /// Every scheduled point lies in the past: change nothing this tick.
    Wait,
}

/// One decision of the running loop: a shutdown request wins, then day
/// rollover, then the first-future-entry selection rule.
pub fn next_action(state: &SchedulerState, now: i64, shutdown: bool) -> (r: TickAction)
    ensures
        shutdown ==> r == TickAction::Terminate,
        !shutdown && now > state.sun_and_moon.next_day_midnight ==> r == TickAction::Recompute,
        !shutdown && now <= state.sun_and_moon.next_day_midnight ==> match r {
            TickAction::Apply(i) => i < state.timestamp_seq@.len() && now
                < state.timestamp_seq@[i as int] && (forall|j: int|
                0 <= j < i ==> state.timestamp_seq@[j] <= now),
            TickAction::Wait => forall|j: int|
                0 <= j < state.timestamp_seq@.len() ==> state.timestamp_seq@[j] <= now,
            _ => false,
        },
{
    if shutdown {
        return TickAction::Terminate;
    }
    if now > state.sun_and_moon.next_day_midnight {
        return TickAction::Recompute;
    }
    match select_wallpaper_index(&state.timestamp_seq, now) {
        Some(i) => TickAction::Apply(i),
        None => TickAction::Wait,
    }
}

/// When the transit provider answered in full and the next-day midnight fits,
/// the anchor set a rebuild would produce has fitting segment spans.
pub open spec fn rollover_spans_fit(t: TransitTimes, today: int) -> bool {
    (t.sunrise is Some && t.sunset is Some && t.moonrise is Some && t.moonset is Some && today
        + 86400 <= i64::MAX) ==> anchor_spans_fit(
        AnchorSet {
            midnight: t.midnight,
            sunrise: t.sunrise->0,
            noon: t.noon,
            sunset: t.sunset->0,
            moonrise: t.moonrise->0,
            moonset: t.moonset->0,
            next_day_midnight: (today + 86400) as i64,
        },
    )
}

/// Builds the scheduler's state for the day that starts at `today_posix`,
/// both at startup and on day rollover. The previous state, if any, does not
/// enter the result: the anchor set is fetched anew and the timeline is
/// rebuilt wholesale from it. Fails exactly as the anchor fetch fails, and no
/// partial state is built on failure.
pub fn rollover(today_posix: i64, transits: &TransitTimes, pack: &WallpaperPackConfig) -> (r:
    Result<SchedulerState, TransitError>)
    requires
        pack_counts_fit(*pack),
        rollover_spans_fit(*transits, today_posix as int),
    ensures
        r == Err::<SchedulerState, TransitError>(TransitError::Sunrise) <==> transits.sunrise
            is None,
        r == Err::<SchedulerState, TransitError>(TransitError::Sunset) <==> transits.sunrise
            is Some && transits.sunset is None,
        r == Err::<SchedulerState, TransitError>(TransitError::Moonrise) <==> transits.sunrise
            is Some && transits.sunset is Some && transits.moonrise is None,
        r == Err::<SchedulerState, TransitError>(TransitError::Moonset) <==> transits.sunrise
            is Some && transits.sunset is Some && transits.moonrise is Some && transits.moonset
            is None,
        r == Err::<SchedulerState, TransitError>(TransitError::NextDayMidnight) ==> transits.sunrise
            is Some && transits.sunset is Some && transits.moonrise is Some && transits.moonset
            is Some,
        r matches Ok(s) ==> s.consistent_with(*pack) && s.sun_and_moon.midnight
            == transits.midnight && s.sun_and_moon.sunrise == transits.sunrise->0
            && s.sun_and_moon.noon == transits.noon && s.sun_and_moon.sunset == transits.sunset->0
            && s.sun_and_moon.moonrise == transits.moonrise->0 && s.sun_and_moon.moonset
            == transits.moonset->0 && s.sun_and_moon.next_day_midnight == today_posix + 86400,
{
    match get_day_sun_and_moon_position_times(today_posix, transits) {
        Ok(sun_and_moon) => {
            assert(sun_and_moon == AnchorSet {
                midnight: transits.midnight,
                sunrise: transits.sunrise->0,
                noon: transits.noon,
                sunset: transits.sunset->0,
                moonrise: transits.moonrise->0,
                moonset: transits.moonset->0,
                next_day_midnight: (today_posix as int + 86400) as i64,
            });
            Ok(SchedulerState::new(sun_and_moon, pack))
        },
        Err(e) => Err(e),
    }
}

} // verus!
