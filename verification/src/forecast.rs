//! Windowed space-weather forecast aggregation.
//!
//! Kp-index forecast tables are keyed by calendar date and 3-hour bucket; the
//! aggregator extracts a near-term value plus one-day and three-day running
//! maxima. Storm-probability tables are classified per point into a level
//! 0 to 5, and the levels over today and the following points are converted
//! to flux-equivalent scalars through a fixed sparse table.
//!
//! Scalar magnitudes (Kp values and flux values) are carried as plain
//! integers in whatever fixed-point scale the caller chose; the aggregation
//! only compares and selects, so any order- and zero-preserving scale works.
use vstd::prelude::*;

verus! {

/// One entry of a Kp forecast table: a calendar date rendered as a string,
/// an hour of day (0 is treated as end-of-day 24), and the forecast value.
#[derive(PartialEq, Eq, Debug)]
pub struct KpForecastPoint {
    pub date: String,
    pub hour: u32,
    pub value: i32,
}

/// One entry of a storm forecast table: a calendar date and five
/// probability percentages in ascending severity order `s1` to `s5`.
#[derive(PartialEq, Eq, Debug)]
pub struct StormForecastPoint {
    pub date: String,
    pub s1: u8,
    pub s2: u8,
    pub s3: u8,
    pub s4: u8,
    pub s5: u8,
}

pub open spec fn i32_larger(a: i32, b: i32) -> i32 {
    if a > b {
        a
    } else {
        b
    }
}

/// Hour 0 names the end of the day, so it counts as 24.
pub open spec fn effective_hour(hour: int) -> int {
    if hour == 0 {
        24int
    } else {
        hour
    }
}

/// An hour of day stands for the 3-hour bucket that ends at it, clamped at 0.
pub open spec fn bucket_start(hour: int) -> int {
    let e = effective_hour(hour);
    if e < 3 {
        0int
    } else {
        e - 3
    }
}

/// A point is skipped entirely when it claims today's date but carries an
/// hour outside 0 to 23: it neither matches nor feeds the running windows.
pub open spec fn kp_point_skipped(p: KpForecastPoint, today: Seq<char>) -> bool {
    p.date@ == today && p.hour > 23
}

/// A point matches the reference instant when it is dated today and the
/// current hour lies in the point's 3-hour bucket, both ends inclusive.
pub open spec fn kp_point_matches(p: KpForecastPoint, today: Seq<char>, now_hour: int) -> bool {
    &&& p.date@ == today
    &&& p.hour <= 23
    &&& bucket_start(p.hour as int) <= now_hour <= effective_hour(p.hour as int)
}

/// Running state of the Kp window scan: the matched near-term value, the
/// one-day and three-day maxima, whether the windows have started, and how
/// many points the one-day window has consumed.
pub ghost struct KpWindows {
    pub kp_3h: i32,
    pub kp_1d: i32,
    pub kp_3d: i32,
    pub started: bool,
    pub count_1d: int,
}

pub open spec fn kp_windows_init() -> KpWindows {
    KpWindows { kp_3h: 0, kp_1d: 0, kp_3d: 0, started: false, count_1d: 0 }
}

/// Effect of one forecast point on the running windows: a matching point
/// sets the near-term value and starts both windows at itself; the one-day
/// window takes the maximum of the first 8 points from the start, a fixed
/// count encoding one day of 3-hour buckets; the three-day window takes the
/// maximum of every point from the start on.
pub open spec fn kp_step(
    st: KpWindows,
    p: KpForecastPoint,
    today: Seq<char>,
    now_hour: int,
) -> KpWindows {
    if kp_point_skipped(p, today) {
        st
    } else {
        let st1 = if kp_point_matches(p, today, now_hour) {
            KpWindows { kp_3h: p.value, started: true, ..st }
        } else {
            st
        };
        let st2 = if st1.started && st1.count_1d < 8 {
            KpWindows { count_1d: st1.count_1d + 1, kp_1d: i32_larger(p.value, st1.kp_1d), ..st1 }
        } else {
            st1
        };
        if st2.started {
            KpWindows { kp_3d: i32_larger(p.value, st2.kp_3d), ..st2 }
        } else {
            st2
        }
    }
}

pub open spec fn kp_fold(
    st: KpWindows,
    points: Seq<KpForecastPoint>,
    today: Seq<char>,
    now_hour: int,
) -> KpWindows
    decreases points.len(),
{
    if points.len() == 0 {
        st
    } else {
        kp_fold(kp_step(st, points[0], today, now_hour), points.drop_first(), today, now_hour)
    }
}

/// The three Kp windows over an ordered forecast table, given the reference
/// instant as today's rendered date and the current hour: near-term value of
/// the matching bucket, one-day maximum, three-day maximum, all zero when no
/// point matches.
pub fn extract_kp_forecast(points: &Vec<KpForecastPoint>, today: &String, now_hour: u32) -> (r: (
    i32,
    i32,
    i32,
))
    ensures
        ({
            let w = kp_fold(kp_windows_init(), points@, today@, now_hour as int);
            r == (w.kp_3h, w.kp_1d, w.kp_3d)
        }),
{
    let ghost target = kp_fold(kp_windows_init(), points@, today@, now_hour as int);
    let mut kp_3h: i32 = 0;
    let mut kp_1d: i32 = 0;
    let mut kp_3d: i32 = 0;
    let mut started: bool = false;
    let mut counter: u8 = 0;
    let mut i: usize = 0;
    proof {
        assert(points@.skip(0) =~= points@);
    }
    while i < points.len()
        invariant
            i <= points@.len(),
            counter <= 8,
            kp_fold(
                KpWindows { kp_3h, kp_1d, kp_3d, started, count_1d: counter as int },
                points@.skip(i as int),
                today@,
                now_hour as int,
            ) == target,
        decreases points@.len() - i,
    {
        proof {
            assert(points@.skip(i as int)[0] == points@[i as int]);
            assert(points@.skip(i as int).drop_first() =~= points@.skip(i as int + 1));
        }
        let p = &points[i];
        let skipped = p.date == *today && p.hour > 23;
        if !skipped {
            if p.date == *today {
                let hour = if p.hour == 0 {
                    24
                } else {
                    p.hour
                };
                let interval_start = if hour < 3 {
                    0
                } else {
                    hour - 3
                };
                if now_hour <= hour && now_hour >= interval_start {
                    kp_3h = p.value;
                    started = true;
                }
            }
            if started && counter < 8 {
                counter = counter + 1;
                if p.value > kp_1d {
                    kp_1d = p.value;
                }
            }
            if started {
                if p.value > kp_3d {
                    kp_3d = p.value;
                }
            }
        }
        i = i + 1;
    }
    (kp_3h, kp_1d, kp_3d)
}

/// A run in which no point matches the reference instant leaves all three
/// Kp windows at zero.
pub proof fn lemma_kp_no_match_zero(
    st: KpWindows,
    points: Seq<KpForecastPoint>,
    today: Seq<char>,
    now_hour: int,
)
    requires
        st == kp_windows_init(),
        forall|i: int| 0 <= i < points.len() ==> !kp_point_matches(points[i], today, now_hour),
    ensures
        kp_fold(st, points, today, now_hour) == st,
    decreases points.len(),
{
    if points.len() > 0 {
        assert(!kp_point_matches(points[0], today, now_hour));
        assert(kp_step(st, points[0], today, now_hour) == st);
        lemma_kp_no_match_zero(st, points.drop_first(), today, now_hour);
    }
}

/// Storm level of one point: scanning the probabilities from the most severe
/// level down, the first that strictly exceeds the threshold decides the
/// level; when none exceeds it, the level is 0.
pub open spec fn storm_level(p: StormForecastPoint, prob_thrh: u8) -> u8 {
    if p.s5 > prob_thrh {
        5u8
    } else if p.s4 > prob_thrh {
        4u8
    } else if p.s3 > prob_thrh {
        3u8
    } else if p.s2 > prob_thrh {
        2u8
    } else if p.s1 > prob_thrh {
        1u8
    } else {
        0u8
    }
}

/// The probability that decided the storm level, 0 when no level was chosen.
pub open spec fn storm_level_prob(p: StormForecastPoint, prob_thrh: u8) -> u8 {
    if p.s5 > prob_thrh {
        p.s5
    } else if p.s4 > prob_thrh {
        p.s4
    } else if p.s3 > prob_thrh {
        p.s3
    } else if p.s2 > prob_thrh {
        p.s2
    } else if p.s1 > prob_thrh {
        p.s1
    } else {
        0u8
    }
}

/// Classify one storm forecast point: the level decided by the first
/// probability, from the most severe down, strictly exceeding the threshold,
/// together with that probability; (0, 0) when none exceeds it.
pub fn get_max_storm(p: &StormForecastPoint, prob_thrh: u8) -> (r: (u8, u8))
    ensures
        r.0 == storm_level(*p, prob_thrh),
        r.1 == storm_level_prob(*p, prob_thrh),
        r.0 <= 5,
{
    if p.s5 > prob_thrh {
        (5, p.s5)
    } else if p.s4 > prob_thrh {
        (4, p.s4)
    } else if p.s3 > prob_thrh {
        (3, p.s3)
    } else if p.s2 > prob_thrh {
        (2, p.s2)
    } else if p.s1 > prob_thrh {
        (1, p.s1)
    } else {
        (0, 0)
    }
}

/// Fixed flux-equivalent of a storm level: a sparse order-of-magnitude
/// encoding, not a physical unit conversion.
pub open spec fn flux_of_level(level: u8) -> u32 {
    if level == 1 {
        11u32
    } else if level == 2 {
        101u32
    } else if level == 3 {
        1001u32
    } else if level == 4 {
        10001u32
    } else if level == 5 {
        100001u32
    } else {
        0u32
    }
}

pub fn convert_srs_level_to_flux(level: u8) -> (r: u32)
    ensures
        r == flux_of_level(level),
{
    if level == 1 {
        11
    } else if level == 2 {
        101
    } else if level == 3 {
        1001
    } else if level == 4 {
        10001
    } else if level == 5 {
        100001
    } else {
        0
    }
}

/// Running state of the storm window scan: the level of today's point, the
/// running maximum level from today on, and whether today has been seen.
pub ghost struct StormWindows {
    pub level_1d: u8,
    pub level_3d: u8,
    pub started: bool,
}

pub open spec fn storm_windows_init() -> StormWindows {
    StormWindows { level_1d: 0, level_3d: 0, started: false }
}

/// Effect of one storm point: the point dated today sets the one-day level
/// and starts the three-day window at itself; from the start on, the
/// three-day window keeps the maximum level seen.
pub open spec fn storm_step(st: StormWindows, p: StormForecastPoint, today: Seq<char>, prob_thrh: u8) -> StormWindows {
    let lvl = storm_level(p, prob_thrh);
    let st1 = if p.date@ == today {
        StormWindows { level_1d: lvl, started: true, ..st }
    } else {
        st
    };
    if st1.started && lvl > st1.level_3d {
        StormWindows { level_3d: lvl, ..st1 }
    } else {
        st1
    }
}

pub open spec fn storm_fold(
    st: StormWindows,
    points: Seq<StormForecastPoint>,
    today: Seq<char>,
    prob_thrh: u8,
) -> StormWindows
    decreases points.len(),
{
    if points.len() == 0 {
        st
    } else {
        storm_fold(storm_step(st, points[0], today, prob_thrh), points.drop_first(), today, prob_thrh)
    }
}

/// The two storm windows over an ordered forecast table: the flux-equivalent
/// of today's level and of the maximum level from today's point on, both zero
/// when no point is dated today.
pub fn extract_srs_rb_forecast(
    points: &Vec<StormForecastPoint>,
    today: &String,
    min_prob_thrh: u8,
) -> (r: (u32, u32))
    ensures
        ({
            let w = storm_fold(storm_windows_init(), points@, today@, min_prob_thrh);
            r == (flux_of_level(w.level_1d), flux_of_level(w.level_3d))
        }),
{
    let ghost target = storm_fold(storm_windows_init(), points@, today@, min_prob_thrh);
    let mut level_1d: u8 = 0;
    let mut level_3d: u8 = 0;
    let mut started: bool = false;
    let mut i: usize = 0;
    proof {
        assert(points@.skip(0) =~= points@);
    }
    while i < points.len()
        invariant
            i <= points@.len(),
            storm_fold(
                StormWindows { level_1d, level_3d, started },
                points@.skip(i as int),
                today@,
                min_prob_thrh,
            ) == target,
        decreases points@.len() - i,
    {
        proof {
            assert(points@.skip(i as int)[0] == points@[i as int]);
            assert(points@.skip(i as int).drop_first() =~= points@.skip(i as int + 1));
        }
        let p = &points[i];
        let (max_storm_level, _) = get_max_storm(p, min_prob_thrh);
        if p.date == *today {
            level_1d = max_storm_level;
            started = true;
        }
        if started && max_storm_level > level_3d {
            level_3d = max_storm_level;
        }
        i = i + 1;
    }
    (convert_srs_level_to_flux(level_1d), convert_srs_level_to_flux(level_3d))
}

/// The values of the points that feed the running windows: every point in
/// order, except those skipped for an invalid hour on today's date.
pub open spec fn window_values(points: Seq<KpForecastPoint>, today: Seq<char>) -> Seq<i32>
    decreases points.len(),
{
    if points.len() == 0 {
        Seq::empty()
    } else {
        let rest = window_values(points.drop_first(), today);
        if kp_point_skipped(points[0], today) {
            rest
        } else {
            seq![points[0].value] + rest
        }
    }
}

/// The largest of a sequence of values and a floor.
pub open spec fn largest_value(values: Seq<i32>, floor: i32) -> i32
    decreases values.len(),
{
    if values.len() == 0 {
        floor
    } else {
        largest_value(values.drop_first(), i32_larger(values[0], floor))
    }
}

/// Once the windows have started, the three-day window is exactly the
/// running maximum over every window-feeding value that follows, on top of
/// whatever it already held.
pub proof fn lemma_kp_three_day_window_is_max(
    st: KpWindows,
    points: Seq<KpForecastPoint>,
    today: Seq<char>,
    now_hour: int,
)
    requires
        st.started,
    ensures
        kp_fold(st, points, today, now_hour).kp_3d == largest_value(
            window_values(points, today),
            st.kp_3d,
        ),
    decreases points.len(),
{
    if points.len() > 0 {
        let st2 = kp_step(st, points[0], today, now_hour);
        lemma_kp_three_day_window_is_max(st2, points.drop_first(), today, now_hour);
        if !kp_point_skipped(points[0], today) {
            assert(st2.kp_3d == i32_larger(points[0].value, st.kp_3d));
            assert((seq![points[0].value] + window_values(points.drop_first(), today)).drop_first()
                =~= window_values(points.drop_first(), today));
        }
    }
}

/// Once the one-day window has consumed its 8 points, nothing changes it.
pub proof fn lemma_kp_one_day_window_closed(
    st: KpWindows,
    points: Seq<KpForecastPoint>,
    today: Seq<char>,
    now_hour: int,
)
    requires
        st.count_1d >= 8,
    ensures
        kp_fold(st, points, today, now_hour).kp_1d == st.kp_1d,
        kp_fold(st, points, today, now_hour).count_1d == st.count_1d,
    decreases points.len(),
{
    if points.len() > 0 {
        lemma_kp_one_day_window_closed(
            kp_step(st, points[0], today, now_hour),
            points.drop_first(),
            today,
            now_hour,
        );
    }
}

/// Once the windows have started with `c` of the 8 one-day points already
/// consumed, the one-day window is exactly the maximum over the next
/// `8 - c` window-feeding values, a fixed count and not a duration, on top
/// of whatever it already held.
pub proof fn lemma_kp_one_day_window_is_max_of_eight(
    st: KpWindows,
    points: Seq<KpForecastPoint>,
    today: Seq<char>,
    now_hour: int,
)
    requires
        st.started,
        0 <= st.count_1d <= 8,
    ensures
        kp_fold(st, points, today, now_hour).kp_1d == largest_value(
            window_values(points, today).take(
                if window_values(points, today).len() < 8 - st.count_1d {
                    window_values(points, today).len() as int
                } else {
                    8 - st.count_1d
                },
            ),
            st.kp_1d,
        ),
    decreases points.len(),
{
    let wv = window_values(points, today);
    let quota = if wv.len() < 8 - st.count_1d {
        wv.len() as int
    } else {
        8 - st.count_1d
    };
    if points.len() == 0 {
        assert(wv.take(quota) =~= Seq::<i32>::empty());
    } else {
        let st2 = kp_step(st, points[0], today, now_hour);
        let wv_rest = window_values(points.drop_first(), today);
        if kp_point_skipped(points[0], today) {
            lemma_kp_one_day_window_is_max_of_eight(st2, points.drop_first(), today, now_hour);
        } else {
            assert(wv == seq![points[0].value] + wv_rest);
            if st.count_1d < 8 {
                assert(st2.count_1d == st.count_1d + 1);
                assert(st2.kp_1d == i32_larger(points[0].value, st.kp_1d));
                lemma_kp_one_day_window_is_max_of_eight(st2, points.drop_first(), today, now_hour);
                let quota_rest = if wv_rest.len() < 8 - st2.count_1d {
                    wv_rest.len() as int
                } else {
                    8 - st2.count_1d
                };
                assert(wv.take(quota)[0] == points[0].value);
                assert(wv.take(quota).drop_first() =~= wv_rest.take(quota_rest));
            } else {
                assert(st2.kp_1d == st.kp_1d && st2.count_1d == st.count_1d);
                lemma_kp_one_day_window_closed(st2, points.drop_first(), today, now_hour);
                assert(wv.take(quota) =~= Seq::<i32>::empty());
            }
        }
    }
}

/// The value a point sequence leaves in the near-term field when it starts
/// from `default`: the value of the last matching point, or `default` when
/// none matches.
pub open spec fn near_term_value(
    points: Seq<KpForecastPoint>,
    today: Seq<char>,
    now_hour: int,
    default: i32,
) -> i32
    decreases points.len(),
{
    if points.len() == 0 {
        default
    } else {
        near_term_value(
            points.drop_first(),
            today,
            now_hour,
            if kp_point_matches(points[0], today, now_hour) {
                points[0].value
            } else {
                default
            },
        )
    }
}

/// The near-term window is exactly the value of the last point that matches
/// the reference instant; without a match it keeps what it held.
pub proof fn lemma_kp_near_term_is_last_match(
    st: KpWindows,
    points: Seq<KpForecastPoint>,
    today: Seq<char>,
    now_hour: int,
)
    ensures
        kp_fold(st, points, today, now_hour).kp_3h == near_term_value(
            points,
            today,
            now_hour,
            st.kp_3h,
        ),
    decreases points.len(),
{
    if points.len() > 0 {
        let st2 = kp_step(st, points[0], today, now_hour);
        lemma_kp_near_term_is_last_match(st2, points.drop_first(), today, now_hour);
    }
}

pub open spec fn u8_larger(a: u8, b: u8) -> u8 {
    if a > b {
        a
    } else {
        b
    }
}

/// The storm levels of a point sequence, in order.
pub open spec fn storm_levels(points: Seq<StormForecastPoint>, prob_thrh: u8) -> Seq<u8>
    decreases points.len(),
{
    if points.len() == 0 {
        Seq::empty()
    } else {
        seq![storm_level(points[0], prob_thrh)] + storm_levels(points.drop_first(), prob_thrh)
    }
}

/// The largest of a sequence of levels and a floor.
pub open spec fn largest_level(levels: Seq<u8>, floor: u8) -> u8
    decreases levels.len(),
{
    if levels.len() == 0 {
        floor
    } else {
        largest_level(levels.drop_first(), u8_larger(levels[0], floor))
    }
}

/// Once today's point has been seen, the three-day storm window is exactly
/// the running maximum level over every following point, on top of whatever
/// it already held.
pub proof fn lemma_storm_three_day_window_is_max(
    st: StormWindows,
    points: Seq<StormForecastPoint>,
    today: Seq<char>,
    prob_thrh: u8,
)
    requires
        st.started,
    ensures
        storm_fold(st, points, today, prob_thrh).level_3d == largest_level(
            storm_levels(points, prob_thrh),
            st.level_3d,
        ),
    decreases points.len(),
{
    if points.len() > 0 {
        let st2 = storm_step(st, points[0], today, prob_thrh);
        lemma_storm_three_day_window_is_max(st2, points.drop_first(), today, prob_thrh);
        assert((seq![storm_level(points[0], prob_thrh)] + storm_levels(
            points.drop_first(),
            prob_thrh,
        )).drop_first() =~= storm_levels(points.drop_first(), prob_thrh));
    }
}

/// A table in which no point is dated today leaves both storm windows at
/// zero flux.
pub proof fn lemma_storm_no_today_zero(
    st: StormWindows,
    points: Seq<StormForecastPoint>,
    today: Seq<char>,
    prob_thrh: u8,
)
    requires
        st == storm_windows_init(),
        forall|i: int| 0 <= i < points.len() ==> points[i].date@ != today,
    ensures
        storm_fold(st, points, today, prob_thrh) == st,
    decreases points.len(),
{
    if points.len() > 0 {
        assert(storm_step(st, points[0], today, prob_thrh) == st);
        lemma_storm_no_today_zero(st, points.drop_first(), today, prob_thrh);
    }
}

} // verus!
