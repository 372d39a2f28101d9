use ioracle::sensor::{get_val, parse_i32_at};

#[test]
fn frame_value_is_read() {
    assert_eq!(get_val(b"PiPVal: 512\r\n"), 512);
    assert_eq!(get_val(b"noise PiPVal: 7\r"), 7);
    assert_eq!(get_val(b"PiPVal: -40\r\n"), -40);
}

#[test]
fn first_tag_and_first_return_are_used() {
    assert_eq!(get_val(b"PiPVal: 1\rPiPVal: 2\r"), 1);
    assert_eq!(get_val(b"\rPiPVal: 33\r\r"), 33);
}

#[test]
fn frames_without_a_value_read_zero() {
    assert_eq!(get_val(b""), 0);
    assert_eq!(get_val(b"PiPVal: 512"), 0);
    assert_eq!(get_val(b"pipval: 512\r"), 0);
    assert_eq!(get_val(b"PiPVal: abc\r"), 0);
    assert_eq!(get_val(b"PiPVal: \r"), 0);
    assert_eq!(get_val(b"PiPVal: 99999999999\r"), 0);
}

#[test]
fn frames_that_are_not_utf8_read_zero() {
    assert_eq!(get_val(b"PiPVal: 512\r\xff"), 0);
    assert_eq!(get_val(b"\xc3PiPVal: 5\r"), 0);
}

#[test]
fn parse_follows_i32_rules() {
    let cases: [(&[u8], Option<i32>); 10] = [
        (b"0", Some(0)),
        (b"-0", Some(0)),
        (b"+17", Some(17)),
        (b"-2147483648", Some(i32::MIN)),
        (b"2147483647", Some(i32::MAX)),
        (b"2147483648", None),
        (b"-2147483649", None),
        (b"-", None),
        (b"", None),
        (b"1 2", None),
    ];
    for (text, want) in cases {
        assert_eq!(parse_i32_at(text, 0, text.len()), want);
        let text_str = std::str::from_utf8(text).unwrap();
        assert_eq!(text_str.parse::<i32>().ok(), want);
    }
    assert_eq!(parse_i32_at(b"xx42yy", 2, 4), Some(42));
}
