//! Assembling the full-day timeline: for each of the six day segments, the
//! segment's image list is zipped with evenly spaced activation timestamps,
//! and the six results are concatenated in the fixed cyclic order.

use crate::anchors::AnchorSet;
use crate::config::WallpaperPackConfig;
use crate::partition::{
    lemma_partition_monotonic, lemma_partition_point_in_span, non_decreasing, partition_spec,
    timestamp_splitter,
};
use vstd::prelude::*;

verus! {

/// The difference of the two ends of a segment fits in the timestamp type,
/// so the partitioner may subtract them.
pub open spec fn span_fits(start: i64, end: i64) -> bool {
    i64::MIN <= end - start <= i64::MAX
}

/// Every segment's span fits in the timestamp type.
pub open spec fn anchor_spans_fit(a: AnchorSet) -> bool {
    &&& span_fits(a.midnight, a.moonset)
    &&& span_fits(a.moonset, a.sunrise)
    &&& span_fits(a.sunrise, a.noon)
    &&& span_fits(a.noon, a.sunset)
    &&& span_fits(a.sunset, a.moonrise)
    &&& span_fits(a.moonrise, a.next_day_midnight)
}

/// Every segment's image count fits in the partitioner's count type.
pub open spec fn pack_counts_fit(p: WallpaperPackConfig) -> bool {
    &&& p.midnight@.len() <= i64::MAX
    &&& p.moonset@.len() <= i64::MAX
    &&& p.sunrise@.len() <= i64::MAX
    &&& p.noon@.len() <= i64::MAX
    &&& p.sunset@.len() <= i64::MAX
    &&& p.moonrise@.len() <= i64::MAX
}

/// The timeline's image column: the six segment lists concatenated in the
/// fixed cyclic order Midnight, Moonset, Sunrise, Noon, Sunset, Moonrise.
pub open spec fn timeline_images(p: WallpaperPackConfig) -> Seq<String> {
    p.midnight@ + p.moonset@ + p.sunrise@ + p.noon@ + p.sunset@ + p.moonrise@
}

/// The timeline's timestamp column: each segment's span partitioned into as
/// many activation points as that segment has images, concatenated in the
/// same fixed cyclic order as the images.
pub open spec fn timeline_timestamps(a: AnchorSet, p: WallpaperPackConfig) -> Seq<int> {
    partition_spec(a.midnight as int, a.moonset as int, p.midnight@.len() as int)
        + partition_spec(a.moonset as int, a.sunrise as int, p.moonset@.len() as int)
        + partition_spec(a.sunrise as int, a.noon as int, p.sunrise@.len() as int)
        + partition_spec(a.noon as int, a.sunset as int, p.noon@.len() as int)
        + partition_spec(a.sunset as int, a.moonrise as int, p.sunset@.len() as int)
        + partition_spec(a.moonrise as int, a.next_day_midnight as int, p.moonrise@.len() as int)
}

/// Appends clones of all of `src` to `dst`, in order.
fn push_all(dst: &mut Vec<String>, src: &Vec<String>)
    ensures
        final(dst)@ == old(dst)@ + src@,
{
    let mut i: usize = 0;
    while i < src.len()
        invariant
            i <= src@.len(),
            dst@ == old(dst)@ + src@.subrange(0, i as int),
        decreases src@.len() - i,
    {
        proof {
            assert(old(dst)@ + src@.subrange(0, i as int + 1) =~= (old(dst)@ + src@.subrange(
                0,
                i as int,
            )).push(src@[i as int]));
        }
        dst.push(src[i].clone());
        i = i + 1;
    }
    proof {
        assert(src@.subrange(0, src@.len() as int) =~= src@);
    }
}

/// Builds the full-day timeline from the day's anchors and the configured
/// pack: one (timestamp, image) pair per image over all six segments, in the
/// fixed cyclic segment order. An empty list contributes nothing for its
/// segment. The images column keeps every list unchanged and in order; the
/// timestamps column is the concatenation of the six partitions, so the two
/// columns always have the same length, the sum of the six list lengths.
pub fn map_images_and_timestamps(
    sun_and_moon: &AnchorSet,
    wallpaper_pack_config: &WallpaperPackConfig,
) -> (r: (Vec<String>, Vec<i64>))
    requires
        anchor_spans_fit(*sun_and_moon),
        pack_counts_fit(*wallpaper_pack_config),
    ensures
        r.0@ == timeline_images(*wallpaper_pack_config),
        r.1@.map_values(|t: i64| t as int) == timeline_timestamps(
            *sun_and_moon,
            *wallpaper_pack_config,
        ),
        r.0@.len() == r.1@.len(),
        r.1@.len() == wallpaper_pack_config.midnight@.len() + wallpaper_pack_config.moonset@.len()
            + wallpaper_pack_config.sunrise@.len() + wallpaper_pack_config.noon@.len()
            + wallpaper_pack_config.sunset@.len() + wallpaper_pack_config.moonrise@.len(),
{
    let a = sun_and_moon;
    let p = wallpaper_pack_config;
    let mut to_return_images: Vec<String> = Vec::new();
    let mut to_return_timestamps: Vec<i64> = Vec::new();
    let ghost f = |t: i64| t as int;
    let ghost s1 = partition_spec(a.midnight as int, a.moonset as int, p.midnight@.len() as int);
    let ghost s2 = partition_spec(a.moonset as int, a.sunrise as int, p.moonset@.len() as int);
    let ghost s3 = partition_spec(a.sunrise as int, a.noon as int, p.sunrise@.len() as int);
    let ghost s4 = partition_spec(a.noon as int, a.sunset as int, p.noon@.len() as int);
    let ghost s5 = partition_spec(a.sunset as int, a.moonrise as int, p.sunset@.len() as int);
    let ghost s6 = partition_spec(
        a.moonrise as int,
        a.next_day_midnight as int,
        p.moonrise@.len() as int,
    );

    push_all(&mut to_return_images, &p.midnight);
    let mut part = timestamp_splitter(a.midnight, a.moonset, p.midnight.len() as i64);
    to_return_timestamps.append(&mut part);
    proof {
        assert(to_return_timestamps@.map_values(f) =~= s1);
    }

    push_all(&mut to_return_images, &p.moonset);
    let mut part = timestamp_splitter(a.moonset, a.sunrise, p.moonset.len() as i64);
    to_return_timestamps.append(&mut part);
    proof {
        assert(to_return_timestamps@.map_values(f) =~= s1 + s2);
    }

    push_all(&mut to_return_images, &p.sunrise);
    let mut part = timestamp_splitter(a.sunrise, a.noon, p.sunrise.len() as i64);
    to_return_timestamps.append(&mut part);
    proof {
        assert(to_return_timestamps@.map_values(f) =~= s1 + s2 + s3);
    }

    push_all(&mut to_return_images, &p.noon);
    let mut part = timestamp_splitter(a.noon, a.sunset, p.noon.len() as i64);
    to_return_timestamps.append(&mut part);
    proof {
        assert(to_return_timestamps@.map_values(f) =~= s1 + s2 + s3 + s4);
    }

    push_all(&mut to_return_images, &p.sunset);
    let mut part = timestamp_splitter(a.sunset, a.moonrise, p.sunset.len() as i64);
    to_return_timestamps.append(&mut part);
    proof {
        assert(to_return_timestamps@.map_values(f) =~= s1 + s2 + s3 + s4 + s5);
    }

    push_all(&mut to_return_images, &p.moonrise);
    let mut part = timestamp_splitter(a.moonrise, a.next_day_midnight, p.moonrise.len() as i64);
    to_return_timestamps.append(&mut part);
    proof {
        assert(to_return_timestamps@.map_values(f) =~= timeline_timestamps(*a, *p));
        assert(to_return_images@ =~= timeline_images(*p));
    }

    (to_return_images, to_return_timestamps)
}

/// The timeline is exactly as long as the six segment image lists together.
pub proof fn lemma_timeline_length(a: AnchorSet, p: WallpaperPackConfig)
    ensures
        timeline_timestamps(a, p).len() == p.midnight@.len() + p.moonset@.len() + p.sunrise@.len()
            + p.noon@.len() + p.sunset@.len() + p.moonrise@.len(),
{
}

spec fn all_at_most(s: Seq<int>, b: int) -> bool {
    forall|i: int| 0 <= i < s.len() ==> s[i] <= b
}

spec fn all_at_least(s: Seq<int>, b: int) -> bool {
    forall|i: int| 0 <= i < s.len() ==> b <= s[i]
}

/// A forward segment's partition never decreases and stays within the
/// segment's two ends.
proof fn lemma_segment_bounds(start: int, end: int, count: int)
    requires
        start < end,
        count >= 0,
    ensures
        non_decreasing(partition_spec(start, end, count)),
        all_at_least(partition_spec(start, end, count), start),
        all_at_most(partition_spec(start, end, count), end),
{
    let s = partition_spec(start, end, count);
    if count > 0 {
        lemma_partition_monotonic(start, end, count);
        assert forall|i: int| 0 <= i < s.len() implies start <= #[trigger] s[i] <= end by {
            lemma_partition_point_in_span(start, end, count, i);
        }
    }
}

/// Two non-decreasing sequences joined at a bound that closes the first and
/// opens the second give a non-decreasing concatenation.
proof fn lemma_concat_non_decreasing(s1: Seq<int>, s2: Seq<int>, b: int)
    requires
        non_decreasing(s1),
        non_decreasing(s2),
        all_at_most(s1, b),
        all_at_least(s2, b),
    ensures
        non_decreasing(s1 + s2),
{
    assert forall|i: int, j: int| 0 <= i <= j < (s1 + s2).len() implies (s1 + s2)[i] <= (s1
        + s2)[j] by {
        if j < s1.len() {
            assert((s1 + s2)[i] == s1[i] && (s1 + s2)[j] == s1[j]);
        } else if i >= s1.len() {
            assert((s1 + s2)[i] == s2[i - s1.len()] && (s1 + s2)[j] == s2[j - s1.len()]);
        } else {
            assert((s1 + s2)[i] == s1[i] && (s1 + s2)[j] == s2[j - s1.len()]);
        }
    }
}

proof fn lemma_concat_at_most(s1: Seq<int>, s2: Seq<int>, b: int)
    requires
        all_at_most(s1, b),
        all_at_most(s2, b),
    ensures
        all_at_most(s1 + s2, b),
{
    assert forall|i: int| 0 <= i < (s1 + s2).len() implies (s1 + s2)[i] <= b by {
        if i < s1.len() {
            assert((s1 + s2)[i] == s1[i]);
        } else {
            assert((s1 + s2)[i] == s2[i - s1.len()]);
        }
    }
}

proof fn lemma_at_most_weaken(s: Seq<int>, b1: int, b2: int)
    requires
        all_at_most(s, b1),
        b1 <= b2,
    ensures
        all_at_most(s, b2),
{
}

/// With anchors strictly increasing in the fixed cyclic order, the timeline's
/// timestamps are non-decreasing across the whole concatenation.
pub proof fn lemma_timeline_ordering(a: AnchorSet, p: WallpaperPackConfig)
    requires
        a.strictly_increasing(),
    ensures
        non_decreasing(timeline_timestamps(a, p)),
{
    let s1 = partition_spec(a.midnight as int, a.moonset as int, p.midnight@.len() as int);
    let s2 = partition_spec(a.moonset as int, a.sunrise as int, p.moonset@.len() as int);
    let s3 = partition_spec(a.sunrise as int, a.noon as int, p.sunrise@.len() as int);
    let s4 = partition_spec(a.noon as int, a.sunset as int, p.noon@.len() as int);
    let s5 = partition_spec(a.sunset as int, a.moonrise as int, p.sunset@.len() as int);
    let s6 = partition_spec(
        a.moonrise as int,
        a.next_day_midnight as int,
        p.moonrise@.len() as int,
    );
    lemma_segment_bounds(a.midnight as int, a.moonset as int, p.midnight@.len() as int);
    lemma_segment_bounds(a.moonset as int, a.sunrise as int, p.moonset@.len() as int);
    lemma_segment_bounds(a.sunrise as int, a.noon as int, p.sunrise@.len() as int);
    lemma_segment_bounds(a.noon as int, a.sunset as int, p.noon@.len() as int);
    lemma_segment_bounds(a.sunset as int, a.moonrise as int, p.sunset@.len() as int);
    lemma_segment_bounds(a.moonrise as int, a.next_day_midnight as int, p.moonrise@.len() as int);

    lemma_concat_non_decreasing(s1, s2, a.moonset as int);
    lemma_at_most_weaken(s1, a.moonset as int, a.sunrise as int);
    lemma_concat_at_most(s1, s2, a.sunrise as int);

    lemma_concat_non_decreasing(s1 + s2, s3, a.sunrise as int);
    lemma_at_most_weaken(s1 + s2, a.sunrise as int, a.noon as int);
    lemma_concat_at_most(s1 + s2, s3, a.noon as int);

    lemma_concat_non_decreasing(s1 + s2 + s3, s4, a.noon as int);
    lemma_at_most_weaken(s1 + s2 + s3, a.noon as int, a.sunset as int);
    lemma_concat_at_most(s1 + s2 + s3, s4, a.sunset as int);

    lemma_concat_non_decreasing(s1 + s2 + s3 + s4, s5, a.sunset as int);
    lemma_at_most_weaken(s1 + s2 + s3 + s4, a.sunset as int, a.moonrise as int);
    lemma_concat_at_most(s1 + s2 + s3 + s4, s5, a.moonrise as int);

    lemma_concat_non_decreasing(s1 + s2 + s3 + s4 + s5, s6, a.moonrise as int);
}

} // verus!
