use weather_dashboard::aqi::{
    estimate_pollutants_from_aqi, get_aqi_category, reading_for, AqiCategory,
};

fn category(aqi: i32) -> (String, String) {
    get_aqi_category(aqi)
}

fn pair(label: &str, color: &str) -> (String, String) {
    (label.to_string(), color.to_string())
}

#[test]
fn band_limits_map_to_adjacent_categories() {
    assert_eq!(category(50), pair("Good", "#00E400"));
    assert_eq!(category(51), pair("Moderate", "#FFFF00"));
    assert_eq!(category(100), pair("Moderate", "#FFFF00"));
    assert_eq!(category(101), pair("Unhealthy for Sensitive Groups", "#FF7E00"));
    assert_eq!(category(150), pair("Unhealthy for Sensitive Groups", "#FF7E00"));
    assert_eq!(category(151), pair("Unhealthy", "#FF0000"));
    assert_eq!(category(200), pair("Unhealthy", "#FF0000"));
    assert_eq!(category(201), pair("Very Unhealthy", "#8F3F97"));
    assert_eq!(category(300), pair("Very Unhealthy", "#8F3F97"));
    assert_eq!(category(301), pair("Hazardous", "#7E0023"));
}

#[test]
fn zero_is_good() {
    assert_eq!(category(0), pair("Good", "#00E400"));
}

#[test]
fn negative_index_falls_into_lowest_band() {
    assert_eq!(category(-1), pair("Good", "#00E400"));
    assert_eq!(category(i32::MIN), pair("Good", "#00E400"));
    assert_eq!(AqiCategory::from_aqi(-40), AqiCategory::Good);
}

#[test]
fn largest_index_is_hazardous() {
    assert_eq!(category(i32::MAX), pair("Hazardous", "#7E0023"));
}

#[test]
fn severity_never_drops_as_index_rises() {
    let mut previous = AqiCategory::from_aqi(-50).rank();
    for aqi in -49..=600 {
        let rank = AqiCategory::from_aqi(aqi).rank();
        assert!(previous <= rank, "severity dropped at {}", aqi);
        previous = rank;
    }
    assert_eq!(AqiCategory::from_aqi(-50).rank(), 0);
    assert_eq!(AqiCategory::from_aqi(600).rank(), 5);
}

#[test]
fn ranks_follow_band_order() {
    assert_eq!(AqiCategory::Good.rank(), 0);
    assert_eq!(AqiCategory::Moderate.rank(), 1);
    assert_eq!(AqiCategory::UnhealthyForSensitiveGroups.rank(), 2);
    assert_eq!(AqiCategory::Unhealthy.rank(), 3);
    assert_eq!(AqiCategory::VeryUnhealthy.rank(), 4);
    assert_eq!(AqiCategory::Hazardous.rank(), 5);
}

#[test]
fn names_and_colors_of_categories() {
    assert_eq!(AqiCategory::Moderate.name(), "Moderate");
    assert_eq!(AqiCategory::Moderate.hex_color(), "#FFFF00");
    assert_eq!(AqiCategory::VeryUnhealthy.name(), "Very Unhealthy");
    assert_eq!(AqiCategory::Hazardous.hex_color(), "#7E0023");
}

#[test]
fn estimate_in_each_band() {
    // PM2.5: 12.0, 31.0, 62.5, 87.5, 110.0, 160.0 and 250.0 micrograms.
    assert_eq!(estimate_pollutants_from_aqi(0).0, 120_000);
    assert_eq!(estimate_pollutants_from_aqi(25).0, 310_000);
    assert_eq!(estimate_pollutants_from_aqi(75).0, 625_000);
    assert_eq!(estimate_pollutants_from_aqi(125).0, 875_000);
    assert_eq!(estimate_pollutants_from_aqi(175).0, 1_100_000);
    assert_eq!(estimate_pollutants_from_aqi(250).0, 1_600_000);
    assert_eq!(estimate_pollutants_from_aqi(400).0, 2_500_000);
}

#[test]
fn estimate_lines_meet_at_band_limits() {
    assert_eq!(estimate_pollutants_from_aqi(50).0, 500_000);
    assert_eq!(estimate_pollutants_from_aqi(51).0, 505_000);
    assert_eq!(estimate_pollutants_from_aqi(100).0, 750_000);
    assert_eq!(estimate_pollutants_from_aqi(101).0, 755_000);
    assert_eq!(estimate_pollutants_from_aqi(150).0, 1_000_000);
    assert_eq!(estimate_pollutants_from_aqi(151).0, 1_004_000);
    assert_eq!(estimate_pollutants_from_aqi(200).0, 1_200_000);
    assert_eq!(estimate_pollutants_from_aqi(201).0, 1_208_000);
    assert_eq!(estimate_pollutants_from_aqi(300).0, 2_000_000);
    assert_eq!(estimate_pollutants_from_aqi(301).0, 2_005_000);
}

#[test]
fn other_pollutants_are_multiples_of_pm25() {
    // PM2.5 of 62.5 gives 93.75, 3.125, 1.25, 0.625 and 6.25.
    assert_eq!(
        estimate_pollutants_from_aqi(75),
        (625_000, 937_500, 31_250, 12_500, 6_250, 62_500)
    );
}

#[test]
fn estimate_of_negative_index_uses_lowest_band() {
    // 12.0 - 0.76 * 10 = 4.4
    assert_eq!(estimate_pollutants_from_aqi(-10).0, 44_000);
}

#[test]
fn estimate_at_the_ends_of_the_index_range() {
    let low = estimate_pollutants_from_aqi(i32::MIN);
    let high = estimate_pollutants_from_aqi(i32::MAX);
    assert_eq!(low.4, 1200 + 76 * (i32::MIN as i64));
    assert_eq!(low.1, 150 * low.4);
    assert_eq!(high.4, 20_000 + 50 * (i32::MAX as i64 - 300));
    assert_eq!(high.1, 150 * high.4);
}

#[test]
fn estimates_never_drop_as_index_rises() {
    let mut previous = estimate_pollutants_from_aqi(-200);
    for aqi in -199..=700 {
        let estimate = estimate_pollutants_from_aqi(aqi);
        assert!(previous.0 <= estimate.0, "PM2.5 dropped at {}", aqi);
        assert!(previous.1 <= estimate.1, "PM10 dropped at {}", aqi);
        assert!(previous.2 <= estimate.2, "O3 dropped at {}", aqi);
        assert!(previous.3 <= estimate.3, "NO2 dropped at {}", aqi);
        assert!(previous.4 <= estimate.4, "SO2 dropped at {}", aqi);
        assert!(previous.5 <= estimate.5, "CO dropped at {}", aqi);
        previous = estimate;
    }
}

#[test]
fn reading_carries_category_and_estimate() {
    let reading = reading_for(160);
    assert_eq!(reading.aqi, 160);
    assert_eq!(reading.category, "Unhealthy");
    assert_eq!(reading.color, "#FF0000");
    // PM2.5: 100.0 + 0.4 * 10 = 104.0
    assert_eq!(reading.pm25, 1_040_000);
    assert_eq!(reading.pm10, 1_560_000);
    assert_eq!(reading.o3, 52_000);
    assert_eq!(reading.no2, 20_800);
    assert_eq!(reading.so2, 10_400);
    assert_eq!(reading.co, 104_000);
}
