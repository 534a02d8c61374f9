use wallpaper_changer::anchors::AnchorSet;
use wallpaper_changer::config::WallpaperPackConfig;
use wallpaper_changer::timeline::map_images_and_timestamps;

fn eight_hour_anchors() -> AnchorSet {
    AnchorSet {
        midnight: 0,
        moonset: 3600,
        sunrise: 7200,
        noon: 14400,
        sunset: 21600,
        moonrise: 25200,
        next_day_midnight: 28800,
    }
}

fn names(prefix: &str, n: usize) -> Vec<String> {
    (0..n).map(|i| format!("{prefix}{i}.png")).collect()
}

#[test]
fn timeline_length_is_the_sum_of_the_lists() {
    let anchors = eight_hour_anchors();
    let pack = WallpaperPackConfig {
        midnight: names("midnight", 2),
        sunrise: names("sunrise", 3),
        noon: names("noon", 1),
        sunset: names("sunset", 4),
        moonrise: names("moonrise", 2),
        moonset: names("moonset", 0),
    };
    let (images, timestamps) = map_images_and_timestamps(&anchors, &pack);
    assert_eq!(images.len(), 12);
    assert_eq!(timestamps.len(), 12);
}

#[test]
fn segments_concatenate_in_cyclic_order() {
    let anchors = eight_hour_anchors();
    let pack = WallpaperPackConfig {
        midnight: names("midnight", 2),
        moonset: names("moonset", 1),
        sunrise: names("sunrise", 1),
        noon: names("noon", 2),
        sunset: names("sunset", 1),
        moonrise: names("moonrise", 1),
    };
    let (images, timestamps) = map_images_and_timestamps(&anchors, &pack);
    let expected: Vec<String> = vec![
        "midnight0.png",
        "midnight1.png",
        "moonset0.png",
        "sunrise0.png",
        "noon0.png",
        "noon1.png",
        "sunset0.png",
        "moonrise0.png",
    ]
    .into_iter()
    .map(String::from)
    .collect();
    assert_eq!(images, expected);
    // Midnight->Moonset split in two, Moonset->Sunrise whole, Sunrise->Noon
    // whole, Noon->Sunset split in two, Sunset->Moonrise whole,
    // Moonrise->NextDayMidnight whole.
    assert_eq!(timestamps, vec![1800, 3600, 7200, 14400, 18000, 21600, 25200, 28800]);
}

#[test]
fn timestamps_never_decrease_with_increasing_anchors() {
    let anchors = eight_hour_anchors();
    let pack = WallpaperPackConfig {
        midnight: names("midnight", 5),
        moonset: names("moonset", 3),
        sunrise: names("sunrise", 7),
        noon: names("noon", 2),
        sunset: names("sunset", 6),
        moonrise: names("moonrise", 4),
    };
    let (_, timestamps) = map_images_and_timestamps(&anchors, &pack);
    for w in timestamps.windows(2) {
        assert!(w[0] <= w[1]);
    }
}

#[test]
fn empty_lists_contribute_nothing() {
    let anchors = eight_hour_anchors();
    let pack = WallpaperPackConfig {
        midnight: Vec::new(),
        moonset: Vec::new(),
        sunrise: Vec::new(),
        noon: Vec::new(),
        sunset: Vec::new(),
        moonrise: Vec::new(),
    };
    let (images, timestamps) = map_images_and_timestamps(&anchors, &pack);
    assert!(images.is_empty());
    assert!(timestamps.is_empty());
}

#[test]
fn partition_of_first_segment_matches_the_example() {
    let anchors = eight_hour_anchors();
    let pack = WallpaperPackConfig {
        midnight: names("midnight", 2),
        moonset: Vec::new(),
        sunrise: Vec::new(),
        noon: Vec::new(),
        sunset: Vec::new(),
        moonrise: Vec::new(),
    };
    let (images, timestamps) = map_images_and_timestamps(&anchors, &pack);
    assert_eq!(timestamps, vec![1800, 3600]);
    assert_eq!(images, names("midnight", 2));
}
