use sacana::timestamp::{parse_timestamp, timestamp_string, ts_before, Timestamp};

#[test]
fn wire_timestamps_parse_to_seconds_and_nanoseconds() {
    let t = parse_timestamp("1234567890.123456").unwrap();
    assert_eq!(t.secs, 1234567890);
    assert_eq!(t.nanos, 123456);
    let t = parse_timestamp("0.1").unwrap();
    assert_eq!(t.secs, 0);
    assert_eq!(t.nanos, 1);
    let t = parse_timestamp("7.000000001").unwrap();
    assert_eq!(t.nanos, 1);
}

#[test]
fn malformed_timestamps_parse_to_nothing() {
    assert!(parse_timestamp("123").is_none());
    assert!(parse_timestamp("").is_none());
    assert!(parse_timestamp(".5").is_none());
    assert!(parse_timestamp("1.").is_none());
    assert!(parse_timestamp("a.b").is_none());
    assert!(parse_timestamp("1.1234567890").is_none());
    assert!(parse_timestamp("-1.5").is_none());
    assert!(parse_timestamp("99999999999999999999999.5").is_none());
}

#[test]
fn rendering_pads_nanoseconds_to_nine_digits() {
    let t = Timestamp { secs: 1234567890, nanos: 123456 };
    assert_eq!(timestamp_string(&t), "1234567890.000123456");
    let t = Timestamp { secs: 0, nanos: 0 };
    assert_eq!(timestamp_string(&t), "0.000000000");
}

#[test]
fn rendering_then_parsing_gives_the_timestamp_back() {
    let samples = [
        Timestamp { secs: 0, nanos: 0 },
        Timestamp { secs: 1234567890, nanos: 123456 },
        Timestamp { secs: u64::MAX, nanos: 999_999_999 },
    ];
    for t in samples {
        assert_eq!(parse_timestamp(&timestamp_string(&t)), Some(t));
    }
}

#[test]
fn timestamps_order_chronologically() {
    let a = Timestamp { secs: 1, nanos: 999_999_999 };
    let b = Timestamp { secs: 2, nanos: 0 };
    let c = Timestamp { secs: 2, nanos: 1 };
    assert!(ts_before(&a, &b));
    assert!(ts_before(&b, &c));
    assert!(!ts_before(&c, &b));
    assert!(!ts_before(&b, &b));
}
