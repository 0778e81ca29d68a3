use vstd::prelude::*;
use vstd::string::*;

use crate::outcome::{ParseFail, SpecParse};
use crate::scan::{
    class_pred, is_ascii_lower_char, is_ascii_upper_char, is_ascii_upper, is_digit, is_digit_char,
    scan_class, scan_while, CharClass,
};

verus! {

// ---------------------------------------------------------------------------
// Quoted string.
// ---------------------------------------------------------------------------

/// A quoted string: `"` then any characters other than `"` then `"`.
/// Without a closing quote the rule misses (recoverably) at the opening
/// quote.
pub open spec fn spec_string(s: Seq<char>, i: int) -> SpecParse<Seq<char>>
    recommends
        0 <= i <= s.len(),
{
    if i < s.len() && s[i] == '"' {
        let j = scan_while(s, i + 1, class_pred(CharClass::NotQuote));
        if j < s.len() {
            SpecParse::Found { next: j + 1, val: s.subrange(i + 1, j) }
        } else {
            SpecParse::Miss { at: i, hard: false }
        }
    } else {
        SpecParse::Miss { at: i, hard: false }
    }
}

/// A matched string token ends after its starting position and within the
/// input.
pub proof fn lemma_string_bounds(s: Seq<char>, i: int)
    requires
        0 <= i <= s.len(),
    ensures
        match spec_string(s, i) {
            SpecParse::Found { next, .. } => i < next <= s.len(),
            SpecParse::Miss { .. } => true,
        },
{
    if i < s.len() && s[i] == '"' {
        crate::scan::lemma_scan_while(s, i + 1, class_pred(CharClass::NotQuote));
    }
}

pub fn parse_string(input: &str, pos: usize) -> (r: Result<(usize, String), ParseFail>)
    requires
        pos <= input@.len(),
    ensures
        match r {
            Ok((next, v)) => {
                &&& spec_string(input@, pos as int) == (SpecParse::<Seq<char>>::Found {
                    next: next as int,
                    val: v@,
                })
                &&& pos < next <= input@.len()
            },
            Err(f) => spec_string(input@, pos as int) == (SpecParse::<Seq<char>>::Miss {
                at: f.at as int,
                hard: f.hard,
            }),
        },
{
    let n = input.unicode_len();
    if pos < n && input.get_char(pos) == '"' {
        let j = scan_class(input, pos + 1, CharClass::NotQuote);
        if j < n {
            let v = input.substring_char(pos + 1, j).to_owned();
            Ok((j + 1, v))
        } else {
            Err(ParseFail { at: pos, hard: false })
        }
    } else {
        Err(ParseFail { at: pos, hard: false })
    }
}

// ---------------------------------------------------------------------------
// Account token.
// ---------------------------------------------------------------------------

/// An account path: an upper-case ASCII letter, then letters, digits, `:`,
/// `-` or `_` (for example `Assets:Cash`).
pub open spec fn spec_account(s: Seq<char>, i: int) -> SpecParse<Seq<char>>
    recommends
        0 <= i <= s.len(),
{
    if i < s.len() && is_ascii_upper(s[i]) {
        let j = scan_while(s, i + 1, class_pred(CharClass::AccountChar));
        SpecParse::Found { next: j, val: s.subrange(i, j) }
    } else {
        SpecParse::Miss { at: i, hard: false }
    }
}

pub fn parse_account(input: &str, pos: usize) -> (r: Result<(usize, String), ParseFail>)
    requires
        pos <= input@.len(),
    ensures
        match r {
            Ok((next, v)) => {
                &&& spec_account(input@, pos as int) == (SpecParse::<Seq<char>>::Found {
                    next: next as int,
                    val: v@,
                })
                &&& pos < next <= input@.len()
            },
            Err(f) => {
                &&& spec_account(input@, pos as int) == (SpecParse::<Seq<char>>::Miss {
                    at: f.at as int,
                    hard: f.hard,
                })
                &&& f.at <= input@.len()
            },
        },
{
    let n = input.unicode_len();
    if pos < n && is_ascii_upper_char(input.get_char(pos)) {
        let j = scan_class(input, pos + 1, CharClass::AccountChar);
        let v = input.substring_char(pos, j).to_owned();
        Ok((j, v))
    } else {
        Err(ParseFail { at: pos, hard: false })
    }
}

// ---------------------------------------------------------------------------
// Currency token.
// ---------------------------------------------------------------------------

/// A currency code: an upper-case ASCII letter, then upper-case letters or
/// digits (for example `CHF`).
pub open spec fn spec_currency(s: Seq<char>, i: int) -> SpecParse<Seq<char>>
    recommends
        0 <= i <= s.len(),
{
    if i < s.len() && is_ascii_upper(s[i]) {
        let j = scan_while(s, i + 1, class_pred(CharClass::CurrencyChar));
        SpecParse::Found { next: j, val: s.subrange(i, j) }
    } else {
        SpecParse::Miss { at: i, hard: false }
    }
}

pub fn parse_currency(input: &str, pos: usize) -> (r: Result<(usize, String), ParseFail>)
    requires
        pos <= input@.len(),
    ensures
        match r {
            Ok((next, v)) => {
                &&& spec_currency(input@, pos as int) == (SpecParse::<Seq<char>>::Found {
                    next: next as int,
                    val: v@,
                })
                &&& pos < next <= input@.len()
            },
            Err(f) => spec_currency(input@, pos as int) == (SpecParse::<Seq<char>>::Miss {
                at: f.at as int,
                hard: f.hard,
            }),
        },
{
    let n = input.unicode_len();
    if pos < n && is_ascii_upper_char(input.get_char(pos)) {
        let j = scan_class(input, pos + 1, CharClass::CurrencyChar);
        let v = input.substring_char(pos, j).to_owned();
        Ok((j, v))
    } else {
        Err(ParseFail { at: pos, hard: false })
    }
}

// ---------------------------------------------------------------------------
// Numeric literal.
// ---------------------------------------------------------------------------

/// A numeric literal: an optional sign, one or more digits, and an optional
/// fractional part `.` followed by one or more digits. The token text is the
/// parsed value; choosing a numeric representation for it is the caller's
/// concern.
pub open spec fn spec_number(s: Seq<char>, i: int) -> SpecParse<Seq<char>>
    recommends
        0 <= i <= s.len(),
{
    let j = if i < s.len() && (s[i] == '-' || s[i] == '+') {
        i + 1
    } else {
        i
    };
    let k = scan_while(s, j, class_pred(CharClass::Digit));
    if k == j {
        SpecParse::Miss { at: i, hard: false }
    } else if k + 1 < s.len() && s[k] == '.' && is_digit(s[k + 1]) {
        let m = scan_while(s, k + 1, class_pred(CharClass::Digit));
        SpecParse::Found { next: m, val: s.subrange(i, m) }
    } else {
        SpecParse::Found { next: k, val: s.subrange(i, k) }
    }
}

pub fn parse_number(input: &str, pos: usize) -> (r: Result<(usize, String), ParseFail>)
    requires
        pos <= input@.len(),
    ensures
        match r {
            Ok((next, v)) => {
                &&& spec_number(input@, pos as int) == (SpecParse::<Seq<char>>::Found {
                    next: next as int,
                    val: v@,
                })
                &&& pos < next <= input@.len()
            },
            Err(f) => spec_number(input@, pos as int) == (SpecParse::<Seq<char>>::Miss {
                at: f.at as int,
                hard: f.hard,
            }),
        },
{
    let n = input.unicode_len();
    let j = if pos < n && (input.get_char(pos) == '-' || input.get_char(pos) == '+') {
        pos + 1
    } else {
        pos
    };
    let k = scan_class(input, j, CharClass::Digit);
    if k == j {
        Err(ParseFail { at: pos, hard: false })
    } else if n - k > 1 && input.get_char(k) == '.' && is_digit_char(input.get_char(k + 1)) {
        let m = scan_class(input, k + 1, CharClass::Digit);
        let v = input.substring_char(pos, m).to_owned();
        Ok((m, v))
    } else {
        let v = input.substring_char(pos, k).to_owned();
        Ok((k, v))
    }
}

// ---------------------------------------------------------------------------
// Metadata key token.
// ---------------------------------------------------------------------------

/// A metadata key: a lower-case ASCII letter, then lower-case letters,
/// digits, `-` or `_`.
pub open spec fn spec_key(s: Seq<char>, i: int) -> SpecParse<Seq<char>>
    recommends
        0 <= i <= s.len(),
{
    if i < s.len() && crate::scan::is_ascii_lower(s[i]) {
        let j = scan_while(s, i + 1, class_pred(CharClass::KeyChar));
        SpecParse::Found { next: j, val: s.subrange(i, j) }
    } else {
        SpecParse::Miss { at: i, hard: false }
    }
}

pub fn parse_key(input: &str, pos: usize) -> (r: Result<(usize, String), ParseFail>)
    requires
        pos <= input@.len(),
    ensures
        match r {
            Ok((next, v)) => {
                &&& spec_key(input@, pos as int) == (SpecParse::<Seq<char>>::Found {
                    next: next as int,
                    val: v@,
                })
                &&& pos < next <= input@.len()
            },
            Err(f) => spec_key(input@, pos as int) == (SpecParse::<Seq<char>>::Miss {
                at: f.at as int,
                hard: f.hard,
            }),
        },
{
    let n = input.unicode_len();
    if pos < n && is_ascii_lower_char(input.get_char(pos)) {
        let j = scan_class(input, pos + 1, CharClass::KeyChar);
        let v = input.substring_char(pos, j).to_owned();
        Ok((j, v))
    } else {
        Err(ParseFail { at: pos, hard: false })
    }
}

} // verus!
