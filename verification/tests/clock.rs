use chain_graph::clock::{format_time, try_format_time};

#[test]
fn format_time_writes_date_and_time_of_day() {
    assert_eq!(format_time(1700000000), "2023-11-14T22:13:20");
}

#[test]
fn format_time_of_the_epoch() {
    assert_eq!(format_time(0), "1970-01-01T00:00:00");
}

#[test]
fn format_time_before_the_epoch() {
    assert_eq!(format_time(-1), "1969-12-31T23:59:59");
}

#[test]
fn try_format_time_gives_none_beyond_the_calendar() {
    assert_eq!(try_format_time(i64::MAX), None);
    assert_eq!(try_format_time(i64::MIN), None);
    assert_eq!(try_format_time(1700000000), Some("2023-11-14T22:13:20".to_string()));
}
