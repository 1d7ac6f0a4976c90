use wikidata_phonemes::text::{parse_u32, push_decimal, rsplit_once, IntErrorKind};

fn std_kind(e: &std::num::ParseIntError) -> IntErrorKind {
    match e.kind() {
        std::num::IntErrorKind::Empty => IntErrorKind::Empty,
        std::num::IntErrorKind::InvalidDigit => IntErrorKind::InvalidDigit,
        std::num::IntErrorKind::PosOverflow => IntErrorKind::PosOverflow,
        other => panic!("unexpected kind {:?}", other),
    }
}

#[test]
fn parse_u32_agrees_with_std() {
    let cases = [
        "", "0", "7", "+", "-", "+7", "-7", "++7", "007", "1860", "4294967295", "4294967296",
        "99999999999", "12a", "a12", "99999999999a", "1 2", " 1", "١٢", "+4294967295",
        "+4294967296", "é", "3.5",
    ];
    for s in cases {
        let ours = parse_u32(s);
        let std = s.parse::<u32>();
        match (&ours, &std) {
            (Ok(a), Ok(b)) => assert_eq!(a, b, "value of {:?}", s),
            (Err(a), Err(b)) => assert_eq!(*a, std_kind(b), "error of {:?}", s),
            _ => panic!("{:?}: ours {:?}, std {:?}", s, ours, std),
        }
    }
}

#[test]
fn parse_u32_error_kinds() {
    assert_eq!(parse_u32(""), Err(IntErrorKind::Empty));
    assert_eq!(parse_u32("+"), Err(IntErrorKind::InvalidDigit));
    assert_eq!(parse_u32("4294967296"), Err(IntErrorKind::PosOverflow));
    assert_eq!(parse_u32("+42"), Ok(42));
}

#[test]
fn int_error_messages_match_std() {
    for (s, kind) in [("", IntErrorKind::Empty), ("x", IntErrorKind::InvalidDigit), ("5000000000", IntErrorKind::PosOverflow)] {
        assert_eq!(kind.message(), s.parse::<u32>().unwrap_err().to_string());
    }
}

#[test]
fn decimal_agrees_with_format() {
    for n in [0u32, 1, 9, 10, 99, 100, 1860, 21117, 65535, 4294967295] {
        let mut out = String::from("x");
        push_decimal(&mut out, n);
        assert_eq!(out, format!("x{}", n));
    }
}

#[test]
fn decimal_parse_round_trip() {
    for n in [0u32, 5, 10, 123456, 4294967295] {
        let mut out = String::new();
        push_decimal(&mut out, n);
        assert_eq!(parse_u32(&out), Ok(n));
    }
}

#[test]
fn rsplit_once_agrees_with_std() {
    let cases = [
        ("a/b/c", "/"),
        ("abc", "/"),
        ("", "x"),
        ("http://www.wikidata.org/entity/Q5", "/entity/"),
        ("/entity//entity/x", "/entity/"),
        ("ééaéé", "a"),
        ("aaaa", "aa"),
        ("abc", ""),
    ];
    for (s, pat) in cases {
        let ours = rsplit_once(s, pat);
        let std = s.rsplit_once(pat).map(|(a, b)| (a.to_string(), b.to_string()));
        assert_eq!(ours, std, "{:?} around {:?}", s, pat);
    }
}
