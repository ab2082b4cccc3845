use arduino_client::durations::round_duration;

#[test]
fn round_duration_keeps_whole_seconds_under_a_minute() {
    assert_eq!(round_duration(0), 0);
    assert_eq!(round_duration(999), 0);
    assert_eq!(round_duration(1_000), 1);
    assert_eq!(round_duration(59_999), 59);
    assert_eq!(round_duration(60_000), 60);
}

#[test]
fn round_duration_floors_to_minutes_past_a_minute() {
    assert_eq!(round_duration(61_000), 60);
    assert_eq!(round_duration(61_500), 60);
    assert_eq!(round_duration(119_000), 60);
    assert_eq!(round_duration(120_000), 120);
    assert_eq!(round_duration(3_599_000), 3_540);
}

#[test]
fn round_duration_floors_to_hours_past_an_hour() {
    assert_eq!(round_duration(3_600_000), 3_600);
    assert_eq!(round_duration(3_601_000), 3_600);
    assert_eq!(round_duration(7_325_000), 7_200);
}

#[test]
fn round_duration_floors_to_days_past_a_day() {
    assert_eq!(round_duration(86_400_000), 86_400);
    assert_eq!(round_duration(90_061_000), 86_400);
    assert_eq!(round_duration(200_000_000), 172_800);
}
