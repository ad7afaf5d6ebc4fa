use grpc::num::{parse_u64, IntErrorKind};

fn kind(s: &[u8]) -> IntErrorKind {
    parse_u64(s).err().unwrap().kind
}

#[test]
fn digits_read_as_their_decimal_value() {
    assert_eq!(parse_u64(b"0042").unwrap(), 42);
    assert_eq!(parse_u64(b"+7").unwrap(), 7);
    assert_eq!(parse_u64(b"18446744073709551615").unwrap(), u64::MAX);
    assert_eq!(kind(b"18446744073709551616"), IntErrorKind::PosOverflow);
}

#[test]
fn parse_errors_match_the_standard_library() {
    for s in ["", "+", "-", "-1", "1 ", "++1", "99999999999999999999x", "x99999999999999999999", "12a"] {
        let std_kind = s.parse::<u64>().err().map(|e| format!("{}", e));
        let ours = parse_u64(s.as_bytes()).err().map(|e| e.description().to_string());
        assert_eq!(ours, std_kind, "for {:?}", s);
    }
    assert_eq!(kind(b""), IntErrorKind::Empty);
    assert_eq!(kind(b"+"), IntErrorKind::InvalidDigit);
    assert_eq!(kind(b"99999999999999999999x"), IntErrorKind::PosOverflow);
}
