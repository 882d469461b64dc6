use ultra::utils::display_duration;

#[test]
fn test_display_duration() {
    assert_eq!(&display_duration(None), "Unknown");
    assert_eq!(&display_duration(Some(0)), "Unknown");
    assert_eq!(&display_duration(Some(1)), "00:01");
    assert_eq!(&display_duration(Some(61)), "01:01");
    assert_eq!(&display_duration(Some(3_599)), "59:59");
    assert_eq!(&display_duration(Some(3_601)), "01:00:01");
    assert_eq!(&display_duration(Some(3_661)), "01:01:01");
    assert_eq!(&display_duration(Some(86_401)), "24:00:01");
    assert_eq!(&display_duration(Some(446_399)), "123:59:59");
}

#[test]
fn duration_of_exactly_a_minute_and_an_hour() {
    assert_eq!(display_duration(Some(60)), "00:60");
    assert_eq!(display_duration(Some(3_600)), "60:00");
    assert_eq!(display_duration(Some(7_200)), "02:00:00");
    assert_eq!(display_duration(Some(59)), "00:59");
}

#[test]
fn duration_of_the_largest_number() {
    assert_eq!(display_duration(Some(u64::MAX)), "5124095576030431:00:15");
}
