use meteo_core::forecast::{
    convert_srs_level_to_flux, extract_kp_forecast, extract_srs_rb_forecast, get_max_storm,
    KpForecastPoint, StormForecastPoint,
};

fn kp_point(date: &str, hour: u32, value: i32) -> KpForecastPoint {
    KpForecastPoint { date: date.to_string(), hour, value }
}

fn storm_point(date: &str, s1: u8, s2: u8, s3: u8, s4: u8, s5: u8) -> StormForecastPoint {
    StormForecastPoint { date: date.to_string(), s1, s2, s3, s4, s5 }
}

#[test]
fn kp_windows_from_matching_bucket() {
    // Now is Jun 10 2024, 13:00. Hour 12's bucket [9, 12] does not contain
    // 13; hour 15's bucket [12, 15] does, so the second point matches.
    let points = vec![
        kp_point("Jun 10 2024", 12, 300),
        kp_point("Jun 10 2024", 15, 333),
        kp_point("Jun 10 2024", 18, 367),
        kp_point("Jun 10 2024", 21, 400),
        kp_point("Jun 11 2024", 0, 433),
        kp_point("Jun 11 2024", 3, 467),
        kp_point("Jun 11 2024", 6, 500),
        kp_point("Jun 11 2024", 9, 467),
        kp_point("Jun 11 2024", 12, 533),
        kp_point("Jun 11 2024", 15, 600),
    ];
    let today = "Jun 10 2024".to_string();
    let (kp_3h, kp_1d, kp_3d) = extract_kp_forecast(&points, &today, 13);
    // Near-term: the matching point's value.
    assert_eq!(kp_3h, 333);
    // One day: maximum over the 8 points starting at the match.
    assert_eq!(kp_1d, 533);
    // Three days: maximum over every point from the match on.
    assert_eq!(kp_3d, 600);
}

#[test]
fn kp_bucket_boundaries_are_inclusive() {
    let today = "Jun 10 2024".to_string();
    let points = vec![kp_point("Jun 10 2024", 15, 250)];
    // Both bucket ends of [12, 15] match.
    assert_eq!(extract_kp_forecast(&points, &today, 12).0, 250);
    assert_eq!(extract_kp_forecast(&points, &today, 15).0, 250);
    assert_eq!(extract_kp_forecast(&points, &today, 11).0, 0);
    assert_eq!(extract_kp_forecast(&points, &today, 16).0, 0);
}

#[test]
fn kp_hour_zero_counts_as_end_of_day() {
    let today = "Jun 10 2024".to_string();
    let points = vec![kp_point("Jun 10 2024", 0, 150)];
    // Hour 0 is treated as 24, bucket [21, 24].
    assert_eq!(extract_kp_forecast(&points, &today, 22).0, 150);
    assert_eq!(extract_kp_forecast(&points, &today, 20).0, 0);
}

#[test]
fn kp_invalid_hour_point_is_skipped_entirely() {
    let today = "Jun 10 2024".to_string();
    let points = vec![
        kp_point("Jun 10 2024", 12, 300),
        kp_point("Jun 10 2024", 99, 999),
        kp_point("Jun 10 2024", 18, 400),
    ];
    // Now 12:00 matches the first point; the invalid point feeds no window.
    let (kp_3h, kp_1d, kp_3d) = extract_kp_forecast(&points, &today, 12);
    assert_eq!((kp_3h, kp_1d, kp_3d), (300, 400, 400));
}

#[test]
fn kp_windows_all_zero_without_match() {
    let today = "Jun 10 2024".to_string();
    let points = vec![
        kp_point("Jun 10 2024", 12, 300),
        kp_point("Jun 11 2024", 15, 400),
    ];
    assert_eq!(extract_kp_forecast(&points, &today, 2), (0, 0, 0));
    assert_eq!(extract_kp_forecast(&points, &"Jun 12 2024".to_string(), 13), (0, 0, 0));
}

#[test]
fn storm_level_takes_first_probability_exceeding_threshold() {
    // Scanned from the most severe level down, the first probability over 50
    // is s3 = 60, so the level is 3.
    let p = storm_point("Jun 10 2024", 99, 90, 60, 20, 10);
    assert_eq!(get_max_storm(&p, 50), (3, 60));
    assert_eq!(convert_srs_level_to_flux(3), 1001);

    // Nothing exceeds the threshold: level 0, flux 0.
    let q = storm_point("Jun 10 2024", 50, 40, 30, 20, 10);
    assert_eq!(get_max_storm(&q, 50), (0, 0));
    assert_eq!(convert_srs_level_to_flux(0), 0);
}

#[test]
fn storm_threshold_equality_does_not_count() {
    let p = storm_point("Jun 10 2024", 60, 0, 50, 0, 0);
    // s3 equals the threshold exactly, so s1 = 60 decides: level 1.
    assert_eq!(get_max_storm(&p, 50), (1, 60));
}

#[test]
fn flux_table_is_preserved_literally() {
    assert_eq!(convert_srs_level_to_flux(1), 11);
    assert_eq!(convert_srs_level_to_flux(2), 101);
    assert_eq!(convert_srs_level_to_flux(3), 1001);
    assert_eq!(convert_srs_level_to_flux(4), 10001);
    assert_eq!(convert_srs_level_to_flux(5), 100001);
    assert_eq!(convert_srs_level_to_flux(6), 0);
}

#[test]
fn storm_windows_from_today_onward() {
    let today = "Jun 10 2024".to_string();
    let points = vec![
        // Yesterday's level-5 point must not feed the windows.
        storm_point("Jun 09 2024", 0, 0, 0, 0, 99),
        // Today: level 3.
        storm_point("Jun 10 2024", 99, 90, 60, 20, 10),
        // Tomorrow: level 5, picked up by the three-day window.
        storm_point("Jun 11 2024", 0, 0, 0, 0, 80),
    ];
    assert_eq!(extract_srs_rb_forecast(&points, &today, 50), (1001, 100001));
}

#[test]
fn storm_windows_zero_without_today() {
    let points = vec![storm_point("Jun 09 2024", 0, 0, 0, 0, 99)];
    assert_eq!(extract_srs_rb_forecast(&points, &"Jun 10 2024".to_string(), 50), (0, 0));
}
