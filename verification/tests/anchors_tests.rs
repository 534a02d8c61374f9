use wallpaper_changer::anchors::{
    get_day_sun_and_moon_position_times, AnchorSet, SunAndMoonKeys, TransitError, TransitTimes,
};
use wallpaper_changer::config::wallpaper_pack_selected;

fn full_transits() -> TransitTimes {
    TransitTimes {
        sunrise: Some(7200),
        sunset: Some(21600),
        noon: 14400,
        midnight: 0,
        moonrise: Some(25200),
        moonset: Some(3600),
    }
}

#[test]
fn all_transits_give_a_full_anchor_set() {
    let anchors = get_day_sun_and_moon_position_times(0, &full_transits()).unwrap();
    assert_eq!(anchors.midnight, 0);
    assert_eq!(anchors.moonset, 3600);
    assert_eq!(anchors.sunrise, 7200);
    assert_eq!(anchors.noon, 14400);
    assert_eq!(anchors.sunset, 21600);
    assert_eq!(anchors.moonrise, 25200);
    assert_eq!(anchors.next_day_midnight, 86400);
}

#[test]
fn next_day_midnight_is_one_day_later() {
    let today = 1_700_000_000;
    let anchors = get_day_sun_and_moon_position_times(today, &full_transits()).unwrap();
    assert_eq!(anchors.next_day_midnight, today + 86400);
}

#[test]
fn missing_sunrise_is_fatal_before_anything_else() {
    let transits = TransitTimes { sunrise: None, sunset: None, ..full_transits() };
    let err = get_day_sun_and_moon_position_times(0, &transits).unwrap_err();
    assert_eq!(err, TransitError::Sunrise);
    assert_eq!(err.message(), "Can't get sunrise.");
}

#[test]
fn missing_sunset_is_reported_after_sunrise() {
    let transits = TransitTimes { sunset: None, ..full_transits() };
    let err = get_day_sun_and_moon_position_times(0, &transits).unwrap_err();
    assert_eq!(err, TransitError::Sunset);
    assert_eq!(err.message(), "Can't get sunset.");
}

#[test]
fn missing_moonrise_is_reported() {
    let transits = TransitTimes { moonrise: None, ..full_transits() };
    let err = get_day_sun_and_moon_position_times(0, &transits).unwrap_err();
    assert_eq!(err, TransitError::Moonrise);
    assert_eq!(err.message(), "Can't get moonrise.");
}

#[test]
fn missing_moonset_is_reported() {
    let transits = TransitTimes { moonset: None, ..full_transits() };
    let err = get_day_sun_and_moon_position_times(0, &transits).unwrap_err();
    assert_eq!(err, TransitError::Moonset);
    assert_eq!(err.message(), "Can't get moonset.");
}

#[test]
fn every_failure_has_its_own_message() {
    assert_eq!(TransitError::Sunrise.message(), "Can't get sunrise.");
    assert_eq!(TransitError::Sunset.message(), "Can't get sunset.");
    assert_eq!(TransitError::Moonrise.message(), "Can't get moonrise.");
    assert_eq!(TransitError::Moonset.message(), "Can't get moonset.");
    assert_eq!(TransitError::NextDayMidnight.message(), "Can't get next day midnight.");
}

#[test]
fn anchor_lookup_by_key() {
    let anchors = AnchorSet {
        midnight: 0,
        sunrise: 7200,
        noon: 14400,
        sunset: 21600,
        moonrise: 25200,
        moonset: 3600,
        next_day_midnight: 86400,
    };
    assert_eq!(anchors.get(SunAndMoonKeys::Midnight), 0);
    assert_eq!(anchors.get(SunAndMoonKeys::Moonset), 3600);
    assert_eq!(anchors.get(SunAndMoonKeys::Sunrise), 7200);
    assert_eq!(anchors.get(SunAndMoonKeys::Noon), 14400);
    assert_eq!(anchors.get(SunAndMoonKeys::Sunset), 21600);
    assert_eq!(anchors.get(SunAndMoonKeys::Moonrise), 25200);
    assert_eq!(anchors.get(SunAndMoonKeys::NextDayMidnight), 86400);
}

#[test]
fn empty_pack_name_means_not_configured() {
    assert!(!wallpaper_pack_selected(&String::new()));
    assert!(wallpaper_pack_selected(&"nordic".to_string()));
}
