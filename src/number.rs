//! Reading decimal integers from text, as `str::parse` does for the
//! primitive integer types.
//!
//! The text is an optional sign followed by ASCII digits; `-` is accepted
//! only where negative values exist. Digits are read from the left, and the
//! first problem met is the error.

use crate::text::chars_of;
use vstd::prelude::*;
use vstd::string::StringExecFns;

verus! {

/// Why a text is not an integer of the asked range.
#[derive(Debug, Clone, Copy, PartialEq, Eq, Structural)]
pub enum ParseProblem {
    /// The text is empty.
    Empty,
    /// The text holds something other than a sign and digits.
    InvalidDigit,
    /// The value is above the range.
    PosOverflow,
    /// The value is below the range.
    NegOverflow,
}

/// The value of a decimal digit character.
pub open spec fn digit_value(c: char) -> Option<int> {
    if '0' <= c && c <= '9' {
        Some(c as int - '0' as int)
    } else {
        None
    }
}

/// Reads `digits` onto `acc`, adding each digit or, for a negative number,
/// subtracting it.
pub open spec fn scan_digits(digits: Seq<char>, acc: int, negative: bool, min: int, max: int) -> Result<int, ParseProblem>
    decreases digits.len(),
{
    if digits.len() == 0 {
        Ok(acc)
    } else {
        match digit_value(digits[0]) {
            None => Err(ParseProblem::InvalidDigit),
            Some(d) => {
                let next = if negative {
                    acc * 10 - d
                } else {
                    acc * 10 + d
                };
                if next > max {
                    Err(ParseProblem::PosOverflow)
                } else if next < min {
                    Err(ParseProblem::NegOverflow)
                } else {
                    scan_digits(digits.skip(1), next, negative, min, max)
                }
            },
        }
    }
}

/// The integer that `s` writes, in the range `min..=max`; a leading `-` is
/// a sign only when `min` is negative.
pub open spec fn parse_in_range(s: Seq<char>, min: int, max: int) -> Result<int, ParseProblem> {
    if s.len() == 0 {
        Err(ParseProblem::Empty)
    } else if s.len() == 1 && (s[0] == '+' || s[0] == '-') {
        Err(ParseProblem::InvalidDigit)
    } else if s[0] == '+' {
        scan_digits(s.skip(1), 0, false, min, max)
    } else if s[0] == '-' && min < 0 {
        scan_digits(s.skip(1), 0, true, min, max)
    } else {
        scan_digits(s, 0, false, min, max)
    }
}

/// The message that `std` gives for each problem.
pub open spec fn problem_text(p: ParseProblem) -> Seq<char> {
    match p {
        ParseProblem::Empty => "cannot parse integer from empty string"@,
        ParseProblem::InvalidDigit => "invalid digit found in string"@,
        ParseProblem::PosOverflow => "number too large to fit in target type"@,
        ParseProblem::NegOverflow => "number too small to fit in target type"@,
    }
}

impl ParseProblem {
    /// The problem's message.
    pub fn message(&self) -> (r: String)
        ensures
            r@ == problem_text(*self),
    {
        match self {
            ParseProblem::Empty => String::from_str("cannot parse integer from empty string"),
            ParseProblem::InvalidDigit => String::from_str("invalid digit found in string"),
            ParseProblem::PosOverflow => String::from_str("number too large to fit in target type"),
            ParseProblem::NegOverflow => String::from_str("number too small to fit in target type"),
        }
    }
}

fn digit_of(c: char) -> (r: Option<i128>)
    ensures
        match digit_value(c) {
            Some(d) => r == Some(d as i128),
            None => r is None,
        },
{
    if '0' <= c && c <= '9' {
        Some((c as u32 - '0' as u32) as i128)
    } else {
        None
    }
}

/// The integer that `s` writes, in the range `min..=max`.
pub fn parse_integer(s: &str, min: i128, max: i128) -> (r: Result<i128, ParseProblem>)
    requires
        min <= 0 <= max,
        -0x8000_0000_0000_0000 <= min,
        max <= 0xffff_ffff_ffff_ffff,
    ensures
        match r {
            Ok(v) => min <= v <= max && parse_in_range(s@, min as int, max as int) == Ok::<int, ParseProblem>(v as int),
            Err(p) => parse_in_range(s@, min as int, max as int) == Err::<int, ParseProblem>(p),
        },
{
    let cs = chars_of(s);
    if cs.len() == 0 {
        return Err(ParseProblem::Empty);
    }
    if cs.len() == 1 && (cs[0] == '+' || cs[0] == '-') {
        return Err(ParseProblem::InvalidDigit);
    }
    let mut negative = false;
    let mut start: usize = 0;
    if cs[0] == '+' {
        start = 1;
    } else if cs[0] == '-' && min < 0 {
        negative = true;
        start = 1;
    }
    let ghost whole = cs@.skip(start as int);
    assert(whole =~= (if start == 1 { s@.skip(1) } else { s@ }));
    assert(parse_in_range(s@, min as int, max as int) == scan_digits(whole, 0, negative, min as int, max as int));
    let mut acc: i128 = 0;
    let mut i: usize = start;
    while i < cs.len()
        invariant
            cs@ == s@,
            start <= i <= cs@.len(),
            whole == cs@.skip(start as int),
            parse_in_range(s@, min as int, max as int) == scan_digits(whole, 0, negative, min as int, max as int),
            min <= acc <= max,
            -0x8000_0000_0000_0000 <= min <= 0 <= max <= 0xffff_ffff_ffff_ffff,
            scan_digits(whole, 0, negative, min as int, max as int) == scan_digits(
                cs@.skip(i as int),
                acc as int,
                negative,
                min as int,
                max as int,
            ),
        decreases cs@.len() - i,
    {
        let ghost rest = cs@.skip(i as int);
        assert(rest.skip(1) =~= cs@.skip(i + 1));
        assert(rest.len() > 0 && rest[0] == cs@[i as int]);
        match digit_of(cs[i]) {
            None => {
                return Err(ParseProblem::InvalidDigit);
            },
            Some(d) => {
                let next = if negative {
                    acc * 10 - d
                } else {
                    acc * 10 + d
                };
                if next > max {
                    return Err(ParseProblem::PosOverflow);
                }
                if next < min {
                    return Err(ParseProblem::NegOverflow);
                }
                acc = next;
            },
        }
        i = i + 1;
    }
    assert(cs@.skip(i as int).len() == 0);
    Ok(acc)
}

} // verus!
