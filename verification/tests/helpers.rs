use porsmo::helpers::format::{digit_of, parse_seconds, parse_time, ParseError};
use porsmo::time::Duration;

#[test]
fn format_test_parse_time() {
    let ok_cases = vec![
        ("", Duration::from_secs(0)),
        (":", Duration::from_secs(0)),
        ("::10", Duration::from_secs(10)),
        ("1020", Duration::from_secs(1020)),
        ("2:000092", Duration::from_secs(2 * 60 + 92)),
        ("2:", Duration::from_secs(2 * 60)),
        ("2:2:2", Duration::from_secs((2 * 60 + 2) * 60 + 2)),
        ("1:::", Duration::from_secs(1 * 24 * 60 * 60)),
        ("0.1", Duration::from_millis(100)),
        ("0.12", Duration::from_millis(120)),
        ("0.012", Duration::from_millis(12)),
    ];

    for (inp, out) in ok_cases.iter() {
        assert_eq!(parse_time(inp).unwrap(), *out);
    }

    let err_cases = vec![
        "1::::",
        "kjdf:kjfk",
        ":kjfk",
        "1:4k:5",
        "1:1:1.f",
        "1:1:1.1.1",
        "1:1.0:1.1",
    ];

    for inp in err_cases.iter() {
        assert!(parse_time(inp).is_err());
    }
}

#[test]
fn the_clock_notation_tells_its_errors_apart() {
    assert!(matches!(parse_time("1::::"), Err(ParseError::BadFormat(m)) if m == "Bad number of ':'"));
    assert!(matches!(parse_time("1:x"), Err(ParseError::ParseSubSecsError)));
    assert!(matches!(parse_time("x:1"), Err(ParseError::ParseIntError(_))));
    assert!(matches!(parse_time("x:y"), Err(ParseError::ParseSubSecsError)));
    assert!(matches!(parse_time("1.5:1"), Err(ParseError::ParseIntError(_))));
    assert!(matches!(parse_time("x::::1"), Err(ParseError::BadFormat(_))));
    assert_eq!(parse_time("::::").unwrap(), Duration::zero());
    assert_eq!(
        parse_time("1:2:3:4.5").unwrap(),
        Duration::from_millis(((24 + 2) * 3600 + 3 * 60 + 4) * 1000 + 500)
    );
}

#[test]
fn seconds_may_have_a_fraction() {
    assert_eq!(parse_seconds("0"), Some(0));
    assert_eq!(parse_seconds("7"), Some(7_000_000_000));
    assert_eq!(parse_seconds("+7"), Some(7_000_000_000));
    assert_eq!(parse_seconds("7."), Some(7_000_000_000));
    assert_eq!(parse_seconds(".5"), Some(500_000_000));
    assert_eq!(parse_seconds("+.5"), Some(500_000_000));
    assert_eq!(parse_seconds("1.000000001"), Some(1_000_000_001));
    assert_eq!(parse_seconds("1.0000000019"), Some(1_000_000_001));
    assert_eq!(parse_seconds("0.999999999999"), Some(999_999_999));
    assert_eq!(
        parse_seconds("18446744073709551615.999999999"),
        Some(u64::MAX as u128 * 1_000_000_000 + 999_999_999)
    );
    assert_eq!(parse_seconds("18446744073709551616"), None);
    assert_eq!(parse_seconds(""), None);
    assert_eq!(parse_seconds("."), None);
    assert_eq!(parse_seconds("+"), None);
    assert_eq!(parse_seconds("+."), None);
    assert_eq!(parse_seconds("++1"), None);
    assert_eq!(parse_seconds("-1"), None);
    assert_eq!(parse_seconds("1e3"), None);
    assert_eq!(parse_seconds("1.+5"), None);
    assert_eq!(parse_seconds(" 1"), None);
    assert_eq!(parse_seconds("1.5.5"), None);
}

#[test]
fn digits_have_their_values() {
    assert_eq!(digit_of('0'), Some(0));
    assert_eq!(digit_of('5'), Some(5));
    assert_eq!(digit_of('9'), Some(9));
    assert_eq!(digit_of('a'), None);
    assert_eq!(digit_of('+'), None);
    assert_eq!(digit_of('٣'), None);
}
