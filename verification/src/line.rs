use vstd::prelude::*;
use vstd::string::*;

use crate::outcome::{ParseFail, SpecParse};
use crate::scan::{
    break_end, class_pred, is_break, is_break_char, scan_class, scan_while, take_break, CharClass,
};

verus! {

// ---------------------------------------------------------------------------
// End of a structural line: optional spaces, optional `;`-comment, then a
// line break or the end of the input.
// ---------------------------------------------------------------------------

pub open spec fn spec_end_of_line(s: Seq<char>, i: int) -> SpecParse<()>
    recommends
        0 <= i <= s.len(),
{
    let j = scan_while(s, i, class_pred(CharClass::Space));
    if j == s.len() {
        SpecParse::Found { next: j, val: () }
    } else if s[j] == ';' {
        let k = scan_while(s, j, class_pred(CharClass::NotBreak));
        if k == s.len() {
            SpecParse::Found { next: k, val: () }
        } else {
            SpecParse::Found { next: break_end(s, k), val: () }
        }
    } else if is_break(s[j]) {
        SpecParse::Found { next: break_end(s, j), val: () }
    } else {
        SpecParse::Miss { at: j, hard: false }
    }
}

pub fn parse_end_of_line(input: &str, pos: usize) -> (r: Result<usize, ParseFail>)
    requires
        pos <= input@.len(),
    ensures
        match r {
            Ok(next) => {
                &&& spec_end_of_line(input@, pos as int) == (SpecParse::<()>::Found {
                    next: next as int,
                    val: (),
                })
                &&& pos <= next <= input@.len()
            },
            Err(f) => {
                &&& spec_end_of_line(input@, pos as int) == (SpecParse::<()>::Miss {
                    at: f.at as int,
                    hard: f.hard,
                })
                &&& f.at <= input@.len()
            },
        },
{
    let n = input.unicode_len();
    let j = scan_class(input, pos, CharClass::Space);
    if j == n {
        Ok(j)
    } else if input.get_char(j) == ';' {
        let k = scan_class(input, j, CharClass::NotBreak);
        if k == n {
            Ok(k)
        } else {
            Ok(take_break(input, k))
        }
    } else if is_break_char(input.get_char(j)) {
        Ok(take_break(input, j))
    } else {
        Err(ParseFail { at: j, hard: false })
    }
}

// ---------------------------------------------------------------------------
// A blank or comment-only line between postings: optional spaces, optional
// `;`-comment, then a line break. Unlike `spec_end_of_line`, the end of the
// input does not match, so a run of these always consumes at least the
// break.
// ---------------------------------------------------------------------------

pub open spec fn spec_empty_line(s: Seq<char>, i: int) -> SpecParse<()>
    recommends
        0 <= i <= s.len(),
{
    let j = scan_while(s, i, class_pred(CharClass::Space));
    let k = if j < s.len() && s[j] == ';' {
        scan_while(s, j, class_pred(CharClass::NotBreak))
    } else {
        j
    };
    if k < s.len() && is_break(s[k]) {
        SpecParse::Found { next: break_end(s, k), val: () }
    } else {
        SpecParse::Miss { at: k, hard: false }
    }
}

pub fn parse_empty_line(input: &str, pos: usize) -> (r: Result<usize, ParseFail>)
    requires
        pos <= input@.len(),
    ensures
        match r {
            Ok(next) => {
                &&& spec_empty_line(input@, pos as int) == (SpecParse::<()>::Found {
                    next: next as int,
                    val: (),
                })
                &&& pos < next <= input@.len()
            },
            Err(f) => spec_empty_line(input@, pos as int) == (SpecParse::<()>::Miss {
                at: f.at as int,
                hard: f.hard,
            }),
        },
{
    let n = input.unicode_len();
    let j = scan_class(input, pos, CharClass::Space);
    let k = if j < n && input.get_char(j) == ';' {
        scan_class(input, j, CharClass::NotBreak)
    } else {
        j
    };
    if k < n && is_break_char(input.get_char(k)) {
        Ok(take_break(input, k))
    } else {
        Err(ParseFail { at: k, hard: false })
    }
}

} // verus!
