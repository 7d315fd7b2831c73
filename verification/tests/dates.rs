use tdog::dates::{get_date_fmt_3ms, get_utc_dt, get_utc_dt_from_3ms, try_get_utc_dt, try_get_utc_dt_from_3ms, UtcDateTime};

#[test]
fn the_millisecond_format() {
    assert_eq!(get_date_fmt_3ms(), "%Y-%m-%d %H:%M:%S.%3f");
}

#[test]
fn reads_timestamps_with_milliseconds() {
    let d = get_utc_dt_from_3ms(&"2021-01-24 19:06:26.256".to_string());
    assert_eq!(d, UtcDateTime { secs: 1611515186, nanos: 256_000_000 });
    assert_eq!(try_get_utc_dt_from_3ms(&"2021-01-24 19:06:26.000".to_string()), Some(UtcDateTime { secs: 1611515186, nanos: 0 }));
    assert_eq!(try_get_utc_dt_from_3ms(&"2021-01-24 19:06:26".to_string()), None);
}

#[test]
fn reads_timestamps_in_seconds() {
    let d = get_utc_dt(&"2021-01-24 19:06:26".to_string());
    assert_eq!(d, UtcDateTime { secs: 1611515186, nanos: 0 });
    assert_eq!(try_get_utc_dt(&"1970-01-01 00:00:00".to_string()), Some(UtcDateTime { secs: 0, nanos: 0 }));
    assert_eq!(try_get_utc_dt(&"not a date".to_string()), None);
    assert_eq!(try_get_utc_dt(&"2021-13-01 00:00:00".to_string()), None);
}
