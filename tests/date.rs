use rhxd::date::{encode_date, is_leap_year, month_to_seconds, DateParam, DateTimeParts};

#[test]
fn test_leap_year() {
    assert!(is_leap_year(2000));
    assert!(is_leap_year(2004));
    assert!(!is_leap_year(1900));
    assert!(!is_leap_year(2001));
}

#[test]
fn test_month_seconds() {
    assert_eq!(month_to_seconds(1, false), 0);
    assert_eq!(month_to_seconds(2, false), 31 * 86400);
    assert_eq!(month_to_seconds(3, false), 59 * 86400);
    assert_eq!(month_to_seconds(3, true), 60 * 86400);
}

#[test]
fn month_out_of_range_is_zero() {
    assert_eq!(month_to_seconds(0, true), 0);
    assert_eq!(month_to_seconds(13, false), 0);
    assert_eq!(month_to_seconds(12, true), 335 * 86400);
}

#[test]
fn date_of_a_point_in_time() {
    let dt = DateTimeParts { year: 2024, month: 3, day: 2, hour: 1, minute: 2, second: 3, millisecond: 1250 };
    let p = DateParam::from_datetime(&dt);
    assert_eq!(p.year, 2024);
    assert_eq!(p.milliseconds, 250);
    assert_eq!(p.seconds, 60 * 86400 + 86400 + 3600 + 120 + 3);
    let bytes = encode_date(&dt);
    assert_eq!(bytes.len(), 8);
    assert_eq!(DateParam::from_bytes(&bytes), Ok(p));
    assert!(DateParam::from_bytes(&bytes[..7]).is_err());
}
