use ioracle::throttle::{check_the_pumps, increment, load_usage, usage_text, Usage};

#[test]
fn seven_uses_raise_one_alert() {
    let mut stored: Vec<u8> = Vec::new();
    let mut alerts = 0;
    for call in 1..=7 {
        let usage = check_the_pumps(&stored);
        if usage.alert {
            alerts += 1;
            assert_eq!(call, 7);
        }
        stored = usage_text(usage.value).into_bytes();
    }
    assert_eq!(alerts, 1);
    assert_eq!(stored, b"0".to_vec());
}

#[test]
fn increment_below_and_at_limit() {
    assert_eq!(increment(0), Usage { value: 1, alert: false });
    assert_eq!(increment(5), Usage { value: 6, alert: false });
    assert_eq!(increment(6), Usage { value: 0, alert: true });
    assert_eq!(increment(100), Usage { value: 0, alert: true });
    assert_eq!(increment(u32::MAX), Usage { value: 0, alert: true });
}

#[test]
fn stored_text_is_read_as_a_count() {
    assert_eq!(load_usage(b""), 0);
    assert_eq!(load_usage(b"3"), 3);
    assert_eq!(load_usage(b"+4"), 4);
    assert_eq!(load_usage(b"0006"), 6);
    assert_eq!(load_usage(b"42"), 42);
    assert_eq!(load_usage(b"2147483647"), 2147483647);
}

#[test]
fn malformed_stored_text_counts_as_zero() {
    assert_eq!(load_usage(b"abc"), 0);
    assert_eq!(load_usage(b"3\n"), 0);
    assert_eq!(load_usage(b" 3"), 0);
    assert_eq!(load_usage(b"-2"), 0);
    assert_eq!(load_usage(b"+"), 0);
    assert_eq!(load_usage(b"2147483648"), 0);
}

#[test]
fn usage_text_digits() {
    assert_eq!(usage_text(0), "0");
    assert_eq!(usage_text(4), "4");
    assert_eq!(usage_text(6), "6");
    assert_eq!(usage_text(10), "10");
    assert_eq!(usage_text(907), "907");
    assert_eq!(usage_text(u32::MAX), "4294967295");
}

#[test]
fn stored_text_reads_back() {
    for n in [0u32, 1, 6, 10, 12345, 2147483647] {
        assert_eq!(load_usage(usage_text(n).as_bytes()), n);
    }
}

#[test]
fn out_of_range_store_alerts() {
    assert_eq!(check_the_pumps(b"9"), Usage { value: 0, alert: true });
    assert_eq!(check_the_pumps(b"junk"), Usage { value: 1, alert: false });
}
