use optee_core::date::{
    get_days_in_month, is_leap_year, seconds_to_datetime, Date, DateTime,
};

#[test]
fn test_datetime_from_timestamp() {
    // Test Unix epoch
    let dt = DateTime::from_timestamp(0);
    assert_eq!(dt.year, 1970);
    assert_eq!(dt.month, 1);
    assert_eq!(dt.day, 1);
    assert_eq!(dt.hour, 0);
    assert_eq!(dt.min, 0);
    assert_eq!(dt.sec, 0);

    // Test timestamp for January 1, 1971 00:00:00 UTC (365 days = 31536000 seconds)
    let dt = DateTime::from_timestamp(31536000);
    assert_eq!(dt.year, 1971);
    assert_eq!(dt.month, 1);
    assert_eq!(dt.day, 1);
    assert_eq!(dt.hour, 0);
    assert_eq!(dt.min, 0);
    assert_eq!(dt.sec, 0);

    // Test timestamp for January 2, 1970 12:30:45 UTC
    let dt = DateTime::from_timestamp(86400 + 12 * 3600 + 30 * 60 + 45); // 131445
    assert_eq!(dt.year, 1970);
    assert_eq!(dt.month, 1);
    assert_eq!(dt.day, 2);
    assert_eq!(dt.hour, 12);
    assert_eq!(dt.min, 30);
    assert_eq!(dt.sec, 45);
}

#[test]
fn test_leap_year() {
    assert!(is_leap_year(2000)); // Divisible by 400
    assert!(is_leap_year(2004)); // Divisible by 4
    assert!(!is_leap_year(1900)); // Divisible by 100 but not 400
    assert!(!is_leap_year(2001)); // Not divisible by 4
}

#[test]
fn test_days_in_month() {
    assert_eq!(get_days_in_month(2023, 1), 31); // January
    assert_eq!(get_days_in_month(2023, 2), 28); // February (non-leap)
    assert_eq!(get_days_in_month(2024, 2), 29); // February (leap)
    assert_eq!(get_days_in_month(2023, 4), 30); // April
}

#[test]
fn test_datetime_validation() {
    let valid_dt = DateTime::from_timestamp(1262391174);
    assert!(valid_dt.is_valid());

    let mut invalid_dt = DateTime::new();
    invalid_dt.sec = 70; // Invalid seconds
    assert!(!invalid_dt.is_valid());
}

#[test]
fn test_date_validation() {
    let valid_date = Date::from_ymd(2023, 6, 15);
    assert!(valid_date.is_valid());

    let invalid_date = Date::from_ymd(2023, 13, 15); // Invalid month
    assert!(!invalid_date.is_valid());
}

#[test]
fn leap_day_and_year_end_are_decoded() {
    // 2024-02-29 00:00:00 UTC
    let dt = DateTime::from_timestamp(1709164800);
    assert_eq!((dt.year, dt.month, dt.day), (2024, 2, 29));
    // 1999-12-31 23:59:59 UTC
    let dt = DateTime::from_timestamp(946684799);
    assert_eq!((dt.year, dt.month, dt.day), (1999, 12, 31));
    assert_eq!((dt.hour, dt.min, dt.sec), (23, 59, 59));
    // 2010-01-02 00:12:54 UTC
    let dt = DateTime::from_timestamp(1262391174);
    assert_eq!((dt.year, dt.month, dt.day), (2010, 1, 2));
    assert_eq!((dt.hour, dt.min, dt.sec), (0, 12, 54));
}

#[test]
fn timestamp_round_trip_through_fields() {
    for ts in [0i64, 59, 86399, 86400, 951782400, 1262391174, 4102444799] {
        let dt = DateTime::from_timestamp(ts);
        assert!(dt.is_valid());
        let mut days: i64 = 0;
        for y in 1970..dt.year as i64 {
            days += if is_leap_year(y) { 366 } else { 365 };
        }
        for m in 1..dt.month as i64 {
            days += get_days_in_month(dt.year as i64, m);
        }
        days += dt.day as i64 - 1;
        assert_eq!(days * 86400 + dt.seconds_since_midnight() as i64, ts);
    }
}

#[test]
fn seconds_to_datetime_fills_fields() {
    let mut dt = DateTime::new();
    seconds_to_datetime(131445, &mut dt);
    assert_eq!(dt, DateTime::from_timestamp(131445));
    assert_eq!(dt.date(), Date::from_ymd(1970, 1, 2));
}

#[test]
fn date_queries() {
    let d = Date::from_ymd(2024, 2, 10);
    assert!(d.is_leap_year());
    assert_eq!(d.days_in_month(), 29);
    // Only ranges are checked: February 30th passes.
    assert!(Date::from_ymd(2023, 2, 30).is_valid());
    assert!(!Date::from_ymd(1969, 2, 1).is_valid());
    assert_eq!(get_days_in_month(2023, 13), 0);
}
