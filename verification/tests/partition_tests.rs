use wallpaper_changer::partition::timestamp_splitter;

#[test]
fn zero_chunks_give_empty_sequence() {
    let r = timestamp_splitter(0, 3600, 0);
    assert_eq!(r, Vec::<i64>::new());
}

#[test]
fn two_chunks_over_an_hour() {
    let r = timestamp_splitter(0, 3600, 2);
    assert_eq!(r, vec![1800, 3600]);
}

#[test]
fn count_matches_request() {
    for chunks in 0..7 {
        let r = timestamp_splitter(100, 1000, chunks);
        assert_eq!(r.len() as i64, chunks);
    }
}

#[test]
fn start_is_never_emitted() {
    let r = timestamp_splitter(500, 900, 4);
    assert_eq!(r, vec![600, 700, 800, 900]);
    assert!(!r.contains(&500));
}

#[test]
fn truncating_division_lengthens_the_last_interval() {
    let r = timestamp_splitter(0, 10, 3);
    assert_eq!(r, vec![3, 6, 9]);
}

#[test]
fn forward_interval_is_non_decreasing() {
    let r = timestamp_splitter(7, 1000, 13);
    for w in r.windows(2) {
        assert!(w[0] <= w[1]);
    }
}

#[test]
fn identical_inputs_give_identical_sequences() {
    let a = timestamp_splitter(-250, 4321, 9);
    let b = timestamp_splitter(-250, 4321, 9);
    assert_eq!(a, b);
}

#[test]
fn step_smaller_than_count_repeats_points() {
    let r = timestamp_splitter(0, 2, 4);
    assert_eq!(r, vec![0, 0, 0, 0]);
}

#[test]
fn reversed_interval_decreases() {
    let r = timestamp_splitter(10, 0, 2);
    assert_eq!(r, vec![5, 0]);
}

#[test]
fn negative_timestamps_are_partitioned() {
    let r = timestamp_splitter(-3600, 0, 2);
    assert_eq!(r, vec![-1800, 0]);
}
