use std::num::IntErrorKind;
use vedirect2mqtt::number::{as_int, float_literal, IntError};

fn std_kind(s: &str) -> Result<isize, IntError> {
    s.parse::<isize>().map_err(|e| match e.kind() {
        IntErrorKind::Empty => IntError::Empty,
        IntErrorKind::InvalidDigit => IntError::InvalidDigit,
        IntErrorKind::PosOverflow => IntError::PosOverflow,
        IntErrorKind::NegOverflow => IntError::NegOverflow,
        _ => panic!("unexpected error kind"),
    })
}

#[test]
fn integers_read_as_the_standard_library_reads_them() {
    let cases = [
        "0", "42", "-7", "+5", "", "-", "+", "abc", "12a", "a12", "007", "-0", " 1", "1 ",
        "9223372036854775807", "9223372036854775808", "-9223372036854775808", "-9223372036854775809",
        "99999999999999999999x", "x99999999999999999999", "--1", "+-1", "1.5",
    ];
    for s in cases {
        assert_eq!(as_int(s), std_kind(s), "reading {:?}", s);
    }
}

#[test]
fn integer_examples() {
    assert_eq!(as_int("12800"), Ok(12800));
    assert_eq!(as_int("-2150"), Ok(-2150));
    assert_eq!(as_int(""), Err(IntError::Empty));
    assert_eq!(as_int("-"), Err(IntError::InvalidDigit));
    assert_eq!(as_int("ON"), Err(IntError::InvalidDigit));
    assert_eq!(as_int("-9223372036854775808"), Ok(isize::MIN));
    assert_eq!(as_int("9223372036854775808"), Err(IntError::PosOverflow));
    assert_eq!(as_int("-9223372036854775809"), Err(IntError::NegOverflow));
}

#[test]
fn float_literals_are_those_the_standard_library_accepts() {
    let cases = [
        "0", "1", "1.", ".5", ".", "", "+", "-", "1.5", "-1.5", "+1.5", "1e3", "1E3", "1e", "1e+", "1e-3",
        "1.5e10", ".5e1", "e1", "1..2", "1.2.3", "inf", "INF", "Infinity", "-infinity", "+nan", "NaN",
        "nan1", "infin", "1x", "x1", " 1", "1 ", "0x10", "1e1.5", "1e1e1", "12345678901234567890", "1_000",
    ];
    for s in cases {
        assert_eq!(float_literal(s.as_bytes()), s.parse::<f32>().is_ok(), "literal {:?}", s);
    }
}
