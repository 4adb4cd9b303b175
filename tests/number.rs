use backend::number::{parse_integer, ParseProblem};

fn std_u16(s: &str) -> Result<i128, String> {
    s.parse::<u16>().map(|v| v as i128).map_err(|e| e.to_string())
}

fn std_i64(s: &str) -> Result<i128, String> {
    s.parse::<i64>().map(|v| v as i128).map_err(|e| e.to_string())
}

fn ours(s: &str, min: i128, max: i128) -> Result<i128, String> {
    parse_integer(s, min, max).map_err(|p| p.message())
}

#[test]
fn integers_read_as_std_reads_them() {
    let cases = [
        "", "+", "-", "0", "+7", "-7", "65535", "65536", "007", "1x", "x1", "99999x", " 1", "1 ",
        "9223372036854775807", "9223372036854775808", "-9223372036854775808", "-9223372036854775809",
        "--1", "+-1", "٣",
    ];
    for s in cases {
        assert_eq!(ours(s, 0, u16::MAX as i128), std_u16(s), "u16 {:?}", s);
        assert_eq!(ours(s, i64::MIN as i128, i64::MAX as i128), std_i64(s), "i64 {:?}", s);
    }
}

#[test]
fn parse_problems() {
    assert_eq!(parse_integer("", 0, 10), Err(ParseProblem::Empty));
    assert_eq!(parse_integer("11", 0, 10), Err(ParseProblem::PosOverflow));
    assert_eq!(parse_integer("-11", -10, 10), Err(ParseProblem::NegOverflow));
    assert_eq!(parse_integer("-1", 0, 10), Err(ParseProblem::InvalidDigit));
    assert_eq!(parse_integer("+10", 0, 10), Ok(10));
    assert_eq!(parse_integer("-10", -10, 10), Ok(-10));
}
