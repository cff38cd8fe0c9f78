use zerogallery::{decimal_i64, decimal_u64, parse_u64, DataInfo, EpochTime};

fn data_of_size(size: i64, created_timestamp: i64) -> DataInfo {
    DataInfo {
        id: 1,
        album_id: 1,
        size,
        created_timestamp,
        name: String::new(),
        extension: String::new(),
        description: String::new(),
        mime_type: String::new(),
        tags: String::new(),
    }
}

#[test]
fn test_format_size() {
    let test_cases = vec![
        (0, "0 B"),
        (100, "100 B"),
        (1024, "1.0 KB"),
        (1536, "1.5 KB"),
        (1048576, "1.0 MB"),
        (1073741824, "1.0 GB"),
    ];

    for (size, expected) in test_cases {
        let data = data_of_size(size, 0);
        assert_eq!(data.format_size(), expected);
    }
}

#[test]
fn test_created_time() {
    // 2022-01-01 00:00:00 UTC
    let data = data_of_size(0, 1640995200000);
    let time = data.created_time();
    assert_eq!(time.secs, 1640995200);
    assert_eq!(time.nanos, 0);
}

#[test]
fn format_size_below_one_kilobyte() {
    assert_eq!(data_of_size(1, 0).format_size(), "1 B");
    assert_eq!(data_of_size(1023, 0).format_size(), "1023 B");
    assert_eq!(data_of_size(-5, 0).format_size(), "-5 B");
}

#[test]
fn format_size_larger_units() {
    assert_eq!(data_of_size(1099511627776, 0).format_size(), "1.0 TB");
    assert_eq!(data_of_size(1125899906842624, 0).format_size(), "1.0 PB");
    assert_eq!(data_of_size(1152921504606846976, 0).format_size(), "1024.0 PB");
    assert_eq!(data_of_size(2621440, 0).format_size(), "2.5 MB");
    assert_eq!(data_of_size(1048575, 0).format_size(), "1024.0 KB");
    assert_eq!(data_of_size(1126, 0).format_size(), "1.1 KB");
}

#[test]
fn created_time_keeps_milliseconds() {
    let t = data_of_size(0, 1640995200123).created_time();
    assert_eq!(t, EpochTime { secs: 1640995200, nanos: 123_000_000 });
}

#[test]
fn created_time_before_epoch() {
    let t = data_of_size(0, -1).created_time();
    assert_eq!(t, EpochTime { secs: -1, nanos: 999_000_000 });
    let t = data_of_size(0, -2000).created_time();
    assert_eq!(t, EpochTime { secs: -2, nanos: 0 });
}

#[test]
fn decimal_rendering() {
    assert_eq!(decimal_u64(0), "0");
    assert_eq!(decimal_u64(18446744073709551615), "18446744073709551615");
    assert_eq!(decimal_i64(-42), "-42");
    assert_eq!(decimal_i64(i64::MIN), "-9223372036854775808");
}

#[test]
fn parse_unsigned_decimal() {
    assert_eq!(parse_u64("100"), Some(100));
    assert_eq!(parse_u64("+7"), Some(7));
    assert_eq!(parse_u64("007"), Some(7));
    assert_eq!(parse_u64("18446744073709551615"), Some(u64::MAX));
    assert_eq!(parse_u64("18446744073709551616"), None);
    assert_eq!(parse_u64(""), None);
    assert_eq!(parse_u64("+"), None);
    assert_eq!(parse_u64("-1"), None);
    assert_eq!(parse_u64("12a"), None);
    assert_eq!(parse_u64(" 12"), None);
}

