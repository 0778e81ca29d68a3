use vstd::prelude::*;
use vstd::string::*;

use crate::outcome::{ParseFail, SpecParse};
use crate::scan::is_digit;

verus! {

/// A calendar date as written in the ledger: `YYYY-MM-DD`, exact widths.
/// The parser is purely lexical; it does not validate month or day ranges.
#[derive(Debug, Clone, Copy, PartialEq, Eq, Structural, Hash)]
pub struct Date {
    pub year: u16,
    pub month: u8,
    pub day: u8,
}

/// The numeric value of a decimal digit character.
pub open spec fn digit_val(c: char) -> int {
    c as u32 - 48
}

/// A date token matches at `i` when ten characters `dddd-dd-dd` stand there.
pub open spec fn date_matches(s: Seq<char>, i: int) -> bool {
    &&& i + 10 <= s.len()
    &&& is_digit(s[i])
    &&& is_digit(s[i + 1])
    &&& is_digit(s[i + 2])
    &&& is_digit(s[i + 3])
    &&& s[i + 4] == '-'
    &&& is_digit(s[i + 5])
    &&& is_digit(s[i + 6])
    &&& s[i + 7] == '-'
    &&& is_digit(s[i + 8])
    &&& is_digit(s[i + 9])
}

pub open spec fn date_at(s: Seq<char>, i: int) -> Date {
    Date {
        year: (digit_val(s[i]) * 1000 + digit_val(s[i + 1]) * 100 + digit_val(s[i + 2]) * 10
            + digit_val(s[i + 3])) as u16,
        month: (digit_val(s[i + 5]) * 10 + digit_val(s[i + 6])) as u8,
        day: (digit_val(s[i + 8]) * 10 + digit_val(s[i + 9])) as u8,
    }
}

/// The date rule: a fixed-width `YYYY-MM-DD` token, or a recoverable miss at
/// the starting position.
pub open spec fn spec_date(s: Seq<char>, i: int) -> SpecParse<Date> {
    if date_matches(s, i) {
        SpecParse::Found { next: i + 10, val: date_at(s, i) }
    } else {
        SpecParse::Miss { at: i, hard: false }
    }
}

/// Reads one digit character known to be a digit.
fn digit_of(c: char) -> (r: u32)
    requires
        is_digit(c),
    ensures
        r == digit_val(c),
        r <= 9,
{
    c as u32 - 48
}

pub fn parse_date(input: &str, pos: usize) -> (r: Result<(usize, Date), ParseFail>)
    requires
        pos <= input@.len(),
    ensures
        match r {
            Ok((next, d)) => {
                &&& spec_date(input@, pos as int) == (SpecParse::<Date>::Found {
                    next: next as int,
                    val: d,
                })
                &&& pos < next <= input@.len()
            },
            Err(f) => spec_date(input@, pos as int) == (SpecParse::<Date>::Miss {
                at: f.at as int,
                hard: f.hard,
            }),
        },
{
    let n = input.unicode_len();
    if n - pos < 10 {
        return Err(ParseFail { at: pos, hard: false });
    }
    let c0 = input.get_char(pos);
    let c1 = input.get_char(pos + 1);
    let c2 = input.get_char(pos + 2);
    let c3 = input.get_char(pos + 3);
    let c4 = input.get_char(pos + 4);
    let c5 = input.get_char(pos + 5);
    let c6 = input.get_char(pos + 6);
    let c7 = input.get_char(pos + 7);
    let c8 = input.get_char(pos + 8);
    let c9 = input.get_char(pos + 9);
    let ok = crate::scan::is_digit_char(c0) && crate::scan::is_digit_char(c1)
        && crate::scan::is_digit_char(c2) && crate::scan::is_digit_char(c3) && c4 == '-'
        && crate::scan::is_digit_char(c5) && crate::scan::is_digit_char(c6) && c7 == '-'
        && crate::scan::is_digit_char(c8) && crate::scan::is_digit_char(c9);
    if !ok {
        return Err(ParseFail { at: pos, hard: false });
    }
    let year = digit_of(c0) * 1000 + digit_of(c1) * 100 + digit_of(c2) * 10 + digit_of(c3);
    let month = digit_of(c5) * 10 + digit_of(c6);
    let day = digit_of(c8) * 10 + digit_of(c9);
    let d = Date { year: year as u16, month: month as u8, day: day as u8 };
    Ok((pos + 10, d))
}

} // verus!
