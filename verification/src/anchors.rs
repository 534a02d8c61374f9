//! The seven anchor instants of one calendar day and how they are obtained
//! from the transit provider's answers.

use vstd::prelude::*;

verus! {

/// The named instants that bound the six day segments.
#[derive(Debug, Clone, Copy, PartialEq, Eq)]
pub enum SunAndMoonKeys {
    Midnight,
    Sunrise,
    Noon,
    Sunset,
    Moonrise,
    Moonset,
    NextDayMidnight,
}

/// POSIX timestamps (seconds, UTC epoch) for the seven named instants of one
/// calendar day. Immutable once built; discarded wholesale on day rollover.
#[derive(Debug, Clone, Copy, PartialEq, Eq)]
pub struct AnchorSet {
    pub midnight: i64,
    pub sunrise: i64,
    pub noon: i64,
    pub sunset: i64,
    pub moonrise: i64,
    pub moonset: i64,
    pub next_day_midnight: i64,
}

impl AnchorSet {
    /// The timestamp stored under a named instant.
    pub open spec fn spec_get(self, key: SunAndMoonKeys) -> i64 {
        match key {
            SunAndMoonKeys::Midnight => self.midnight,
            SunAndMoonKeys::Sunrise => self.sunrise,
            SunAndMoonKeys::Noon => self.noon,
            SunAndMoonKeys::Sunset => self.sunset,
            SunAndMoonKeys::Moonrise => self.moonrise,
            SunAndMoonKeys::Moonset => self.moonset,
            SunAndMoonKeys::NextDayMidnight => self.next_day_midnight,
        }
    }

    /// Looks up the timestamp of a named instant.
    pub fn get(&self, key: SunAndMoonKeys) -> (r: i64)
        ensures
            r == self.spec_get(key),
    {
        match key {
            SunAndMoonKeys::Midnight => self.midnight,
            SunAndMoonKeys::Sunrise => self.sunrise,
            SunAndMoonKeys::Noon => self.noon,
            SunAndMoonKeys::Sunset => self.sunset,
            SunAndMoonKeys::Moonrise => self.moonrise,
            SunAndMoonKeys::Moonset => self.moonset,
            SunAndMoonKeys::NextDayMidnight => self.next_day_midnight,
        }
    }

    /// The anchors stand in strictly increasing cyclic order. The transit
    /// provider is trusted to deliver anchors in this order; the timeline
    /// builder's ordering guarantee is conditional on it.
    pub open spec fn strictly_increasing(self) -> bool {
        self.midnight < self.moonset < self.sunrise < self.noon < self.sunset
            < self.moonrise < self.next_day_midnight
    }
}

/// The transit provider's raw answers for one day: the instants that can be
/// unavailable (polar conditions) come as `Option`, the two that never fail
/// come plain.
#[derive(Debug, Clone, Copy, PartialEq, Eq)]
pub struct TransitTimes {
    pub sunrise: Option<i64>,
    pub sunset: Option<i64>,
    pub noon: i64,
    pub midnight: i64,
    pub moonrise: Option<i64>,
    pub moonset: Option<i64>,
}

/// Which step of building the anchor set failed. Any such failure is fatal:
/// no partial schedule is ever built.
#[derive(Debug, Clone, Copy, PartialEq, Eq)]
pub enum TransitError {
    Sunrise,
    Sunset,
    Moonrise,
    Moonset,
    NextDayMidnight,
}

impl TransitError {
    /// The user-facing message that identifies the failed step.
    pub open spec fn spec_message(self) -> Seq<char> {
        match self {
            TransitError::Sunrise => "Can't get sunrise."@,
            TransitError::Sunset => "Can't get sunset."@,
            TransitError::Moonrise => "Can't get moonrise."@,
            TransitError::Moonset => "Can't get moonset."@,
            TransitError::NextDayMidnight => "Can't get next day midnight."@,
        }
    }

    /// Renders the user-facing message for this failure.
    pub fn message(&self) -> (r: String)
        ensures
            r@ == self.spec_message(),
    {
        match self {
            TransitError::Sunrise => "Can't get sunrise.".to_owned(),
            TransitError::Sunset => "Can't get sunset.".to_owned(),
            TransitError::Moonrise => "Can't get moonrise.".to_owned(),
            TransitError::Moonset => "Can't get moonset.".to_owned(),
            TransitError::NextDayMidnight => "Can't get next day midnight.".to_owned(),
        }
    }
}

/// Relies on chrono: `TimeZone::timestamp_opt` maps a POSIX timestamp to the
/// local `DateTime` of the same instant, and `checked_add_signed` with
/// `TimeDelta::days(1)` advances that instant by exactly 86400 seconds, so
/// every successful answer equals `day_start + 86400`. `None` comes only of a
/// timestamp outside chrono's representable range.
#[verifier::external_body]
fn local_next_day_midnight(day_start: i64) -> (r: Option<i64>)
    ensures
        r matches Some(t) ==> t == day_start + 86400,
{
    match chrono::TimeZone::timestamp_opt(&chrono::Local, day_start, 0) {
        chrono::LocalResult::Single(dt) => {
            match dt.checked_add_signed(chrono::TimeDelta::days(1)) {
                Some(next) => Some(next.timestamp()),
                None => None,
            }
        }
        _ => None,
    }
}

/// Builds the anchor set from the transit provider's answers and an already
/// computed next-day midnight. Fails on the first unavailable transit, in the
/// fixed order sunrise, sunset, moonrise, moonset; succeeds exactly when all
/// four are available.
pub fn assemble_anchors(transits: &TransitTimes, next_day_midnight: i64) -> (r: Result<
    AnchorSet,
    TransitError,
>)
    ensures
        r is Ok <==> transits.sunrise is Some && transits.sunset is Some
            && transits.moonrise is Some && transits.moonset is Some,
        r == Err::<AnchorSet, TransitError>(TransitError::Sunrise) <==> transits.sunrise is None,
        r == Err::<AnchorSet, TransitError>(TransitError::Sunset) <==> transits.sunrise is Some
            && transits.sunset is None,
        r == Err::<AnchorSet, TransitError>(TransitError::Moonrise) <==> transits.sunrise is Some
            && transits.sunset is Some && transits.moonrise is None,
        r == Err::<AnchorSet, TransitError>(TransitError::Moonset) <==> transits.sunrise is Some
            && transits.sunset is Some && transits.moonrise is Some && transits.moonset is None,
        r matches Ok(a) ==> a == (AnchorSet {
            midnight: transits.midnight,
            sunrise: transits.sunrise->0,
            noon: transits.noon,
            sunset: transits.sunset->0,
            moonrise: transits.moonrise->0,
            moonset: transits.moonset->0,
            next_day_midnight,
        }),
{
    let sunrise = match transits.sunrise {
        Some(t) => t,
        None => { return Err(TransitError::Sunrise); },
    };
    let sunset = match transits.sunset {
        Some(t) => t,
        None => { return Err(TransitError::Sunset); },
    };
    let moonrise = match transits.moonrise {
        Some(t) => t,
        None => { return Err(TransitError::Moonrise); },
    };
    let moonset = match transits.moonset {
        Some(t) => t,
        None => { return Err(TransitError::Moonset); },
    };
    Ok(AnchorSet {
        midnight: transits.midnight,
        sunrise,
        noon: transits.noon,
        sunset,
        moonrise,
        moonset,
        next_day_midnight,
    })
}

/// Builds the full anchor set for the day that starts at `today_posix`: the
/// six transit answers plus a next-day midnight obtained from chrono. The
/// transit failures surface first, in the fixed order; a next-day-midnight
/// failure can only be reported when all four fallible transits succeeded,
/// and every successful anchor set carries the transit values unchanged with
/// `next_day_midnight == today_posix + 86400`.
pub fn get_day_sun_and_moon_position_times(today_posix: i64, transits: &TransitTimes) -> (r: Result<
    AnchorSet,
    TransitError,
>)
    ensures
        r == Err::<AnchorSet, TransitError>(TransitError::Sunrise) <==> transits.sunrise is None,
        r == Err::<AnchorSet, TransitError>(TransitError::Sunset) <==> transits.sunrise is Some
            && transits.sunset is None,
        r == Err::<AnchorSet, TransitError>(TransitError::Moonrise) <==> transits.sunrise is Some
            && transits.sunset is Some && transits.moonrise is None,
        r == Err::<AnchorSet, TransitError>(TransitError::Moonset) <==> transits.sunrise is Some
            && transits.sunset is Some && transits.moonrise is Some && transits.moonset is None,
        r == Err::<AnchorSet, TransitError>(TransitError::NextDayMidnight) ==> transits.sunrise
            is Some && transits.sunset is Some && transits.moonrise is Some && transits.moonset
            is Some,
        r matches Ok(a) ==> transits.sunrise is Some && transits.sunset is Some
            && transits.moonrise is Some && transits.moonset is Some && a.midnight
            == transits.midnight && a.sunrise == transits.sunrise->0 && a.noon == transits.noon
            && a.sunset == transits.sunset->0 && a.moonrise == transits.moonrise->0 && a.moonset
            == transits.moonset->0 && a.next_day_midnight == today_posix + 86400,
{
    if transits.sunrise.is_none() {
        return Err(TransitError::Sunrise);
    }
    if transits.sunset.is_none() {
        return Err(TransitError::Sunset);
    }
    if transits.moonrise.is_none() {
        return Err(TransitError::Moonrise);
    }
    if transits.moonset.is_none() {
        return Err(TransitError::Moonset);
    }
    match local_next_day_midnight(today_posix) {
        Some(next_day_midnight) => assemble_anchors(transits, next_day_midnight),
        None => Err(TransitError::NextDayMidnight),
    }
}

} // verus!
