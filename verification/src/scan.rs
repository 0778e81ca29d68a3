use vstd::prelude::*;
use vstd::string::*;

use crate::outcome::{ParseFail, SpecParse};

verus! {

// ---------------------------------------------------------------------------
// Character classes of the ledger grammar.
// ---------------------------------------------------------------------------

/// Horizontal whitespace: space or tab.
pub open spec fn is_space(c: char) -> bool {
    c == ' ' || c == '\t'
}

/// A character that starts a line break.
pub open spec fn is_break(c: char) -> bool {
    c == '\n' || c == '\r'
}

pub open spec fn is_digit(c: char) -> bool {
    48 <= c as u32 && c as u32 <= 57
}

pub open spec fn is_ascii_lower(c: char) -> bool {
    97 <= c as u32 && c as u32 <= 122
}

pub open spec fn is_ascii_upper(c: char) -> bool {
    65 <= c as u32 && c as u32 <= 90
}

pub open spec fn is_ascii_letter(c: char) -> bool {
    is_ascii_lower(c) || is_ascii_upper(c)
}

/// A character of a `#tag` or `^link` token: letter, digit, `-` or `_`.
pub open spec fn is_tag_char(c: char) -> bool {
    is_ascii_letter(c) || is_digit(c) || c == '-' || c == '_'
}

/// A character of an account path after its first: letter, digit, `:`, `-`
/// or `_`.
pub open spec fn is_account_char(c: char) -> bool {
    is_ascii_letter(c) || is_digit(c) || c == ':' || c == '-' || c == '_'
}

/// A character of a currency code after its first: upper-case letter or
/// digit.
pub open spec fn is_currency_char(c: char) -> bool {
    is_ascii_upper(c) || is_digit(c)
}

/// A character of a metadata key after its first: lower-case letter, digit,
/// `-` or `_`.
pub open spec fn is_key_char(c: char) -> bool {
    is_ascii_lower(c) || is_digit(c) || c == '-' || c == '_'
}

/// The classes a scanner can run over, so that one verified loop serves
/// every repeated-character token of the grammar.
pub enum CharClass {
    Space,
    NotBreak,
    Digit,
    TagChar,
    AccountChar,
    CurrencyChar,
    KeyChar,
    NotQuote,
}

pub open spec fn class_holds(cl: CharClass, c: char) -> bool {
    match cl {
        CharClass::Space => is_space(c),
        CharClass::NotBreak => !is_break(c),
        CharClass::Digit => is_digit(c),
        CharClass::TagChar => is_tag_char(c),
        CharClass::AccountChar => is_account_char(c),
        CharClass::CurrencyChar => is_currency_char(c),
        CharClass::KeyChar => is_key_char(c),
        CharClass::NotQuote => c != '"',
    }
}

/// The membership test of a class as a predicate, so that every use of the
/// scanner names the same specification function.
pub open spec fn class_pred(cl: CharClass) -> spec_fn(char) -> bool {
    |c: char| class_holds(cl, c)
}

pub fn class_check(cl: &CharClass, c: char) -> (r: bool)
    ensures
        r == class_holds(*cl, c),
{
    let u = c as u32;
    match cl {
        CharClass::Space => c == ' ' || c == '\t',
        CharClass::NotBreak => !(c == '\n' || c == '\r'),
        CharClass::Digit => 48 <= u && u <= 57,
        CharClass::TagChar => (97 <= u && u <= 122) || (65 <= u && u <= 90) || (48 <= u && u <= 57)
            || c == '-' || c == '_',
        CharClass::AccountChar => (97 <= u && u <= 122) || (65 <= u && u <= 90) || (48 <= u && u
            <= 57) || c == ':' || c == '-' || c == '_',
        CharClass::CurrencyChar => (65 <= u && u <= 90) || (48 <= u && u <= 57),
        CharClass::KeyChar => (97 <= u && u <= 122) || (48 <= u && u <= 57) || c == '-' || c == '_',
        CharClass::NotQuote => c != '"',
    }
}

pub fn is_digit_char(c: char) -> (r: bool)
    ensures
        r == is_digit(c),
{
    let u = c as u32;
    48 <= u && u <= 57
}

pub fn is_space_char(c: char) -> (r: bool)
    ensures
        r == is_space(c),
{
    c == ' ' || c == '\t'
}

pub fn is_break_char(c: char) -> (r: bool)
    ensures
        r == is_break(c),
{
    c == '\n' || c == '\r'
}

pub fn is_ascii_lower_char(c: char) -> (r: bool)
    ensures
        r == is_ascii_lower(c),
{
    let u = c as u32;
    97 <= u && u <= 122
}

pub fn is_ascii_upper_char(c: char) -> (r: bool)
    ensures
        r == is_ascii_upper(c),
{
    let u = c as u32;
    65 <= u && u <= 90
}

// ---------------------------------------------------------------------------
// Scanning: the longest prefix of a class from a position.
// ---------------------------------------------------------------------------

/// The first position at or after `i` whose character falls outside the
/// predicate, or the end of the input.
pub open spec fn scan_while(s: Seq<char>, i: int, p: spec_fn(char) -> bool) -> int
    decreases s.len() - i
        when 0 <= i <= s.len()
{
    if i < s.len() && p(s[i]) {
        scan_while(s, i + 1, p)
    } else {
        i
    }
}

/// What `scan_while` yields: a position within bounds, every character
/// before it in the class, and the character at it (if any) outside it.
pub proof fn lemma_scan_while(s: Seq<char>, i: int, p: spec_fn(char) -> bool)
    requires
        0 <= i <= s.len(),
    ensures
        i <= scan_while(s, i, p) <= s.len(),
        forall|k: int| i <= k < scan_while(s, i, p) ==> p(s[k]),
        scan_while(s, i, p) == s.len() || !p(s[scan_while(s, i, p)]),
    decreases s.len() - i,
{
    if i < s.len() && p(s[i]) {
        lemma_scan_while(s, i + 1, p);
    }
}

/// The characterization is exact: any position with those three properties
/// is the one `scan_while` yields.
pub proof fn lemma_scan_while_is(s: Seq<char>, i: int, j: int, p: spec_fn(char) -> bool)
    requires
        0 <= i <= j <= s.len(),
        forall|k: int| i <= k < j ==> p(s[k]),
        j == s.len() || !p(s[j]),
    ensures
        scan_while(s, i, p) == j,
    decreases j - i,
{
    if i < j {
        lemma_scan_while_is(s, i + 1, j, p);
    }
}

/// Advances over the longest run of characters of `cl` starting at `pos`.
pub fn scan_class(input: &str, pos: usize, cl: CharClass) -> (r: usize)
    requires
        pos <= input@.len(),
    ensures
        pos <= r <= input@.len(),
        r == scan_while(input@, pos as int, class_pred(cl)),
        forall|k: int| pos <= k < r ==> class_holds(cl, input@[k]),
        r == input@.len() || !class_holds(cl, input@[r as int]),
{
    let n = input.unicode_len();
    let mut j = pos;
    while j < n && class_check(&cl, input.get_char(j))
        invariant
            pos <= j <= n,
            n == input@.len(),
            forall|k: int| pos <= k < j ==> class_holds(cl, input@[k]),
        decreases n - j,
    {
        j = j + 1;
    }
    proof {
        lemma_scan_while_is(input@, pos as int, j as int, class_pred(cl));
    }
    j
}

// ---------------------------------------------------------------------------
// Line breaks.
// ---------------------------------------------------------------------------

/// The position just after the line break that starts at `i`: two characters
/// for `\r\n`, one otherwise.
pub open spec fn break_end(s: Seq<char>, i: int) -> int
    recommends
        0 <= i < s.len(),
        is_break(s[i]),
{
    if s[i] == '\r' && i + 1 < s.len() && s[i + 1] == '\n' {
        i + 2
    } else {
        i + 1
    }
}

/// Consumes the line break starting at `pos`.
pub fn take_break(input: &str, pos: usize) -> (r: usize)
    requires
        pos < input@.len(),
        is_break(input@[pos as int]),
    ensures
        r == break_end(input@, pos as int),
        pos < r <= input@.len(),
{
    let n = input.unicode_len();
    if input.get_char(pos) == '\r' && pos + 1 < n && input.get_char(pos + 1) == '\n' {
        pos + 2
    } else {
        pos + 1
    }
}

/// The start of the next line: everything up to and including the next line
/// break is consumed; without one, the rest of the input is.
pub open spec fn skip_line(s: Seq<char>, i: int) -> int
    recommends
        0 <= i <= s.len(),
{
    let k = scan_while(s, i, class_pred(CharClass::NotBreak));
    if k == s.len() {
        k
    } else {
        break_end(s, k)
    }
}

/// Skipping a line always makes progress and stays within the input.
pub proof fn lemma_skip_line_bounds(s: Seq<char>, i: int)
    requires
        0 <= i < s.len(),
    ensures
        i < skip_line(s, i) <= s.len(),
{
    lemma_scan_while(s, i, class_pred(CharClass::NotBreak));
}

pub fn skip_line_exec(input: &str, pos: usize) -> (r: usize)
    requires
        pos <= input@.len(),
    ensures
        r == skip_line(input@, pos as int),
        pos <= r <= input@.len(),
        pos < input@.len() ==> pos < r,
{
    let n = input.unicode_len();
    let k = scan_class(input, pos, CharClass::NotBreak);
    if k == n {
        k
    } else {
        take_break(input, k)
    }
}

// ---------------------------------------------------------------------------
// Mandatory whitespace: at least one space or tab, consumed to its end.
// ---------------------------------------------------------------------------

pub open spec fn spec_space1(s: Seq<char>, i: int) -> SpecParse<()>
    recommends
        0 <= i <= s.len(),
{
    if i < s.len() && is_space(s[i]) {
        SpecParse::Found { next: scan_while(s, i, class_pred(CharClass::Space)), val: () }
    } else {
        SpecParse::Miss { at: i, hard: false }
    }
}

pub fn parse_space1(input: &str, pos: usize) -> (r: Result<usize, ParseFail>)
    requires
        pos <= input@.len(),
    ensures
        match r {
            Ok(next) => {
                &&& spec_space1(input@, pos as int) == (SpecParse::<()>::Found {
                    next: next as int,
                    val: (),
                })
                &&& pos < next <= input@.len()
            },
            Err(f) => {
                &&& spec_space1(input@, pos as int) == (SpecParse::<()>::Miss {
                    at: f.at as int,
                    hard: f.hard,
                })
                &&& f.at <= input@.len()
            },
        },
{
    let n = input.unicode_len();
    if pos < n && is_space_char(input.get_char(pos)) {
        Ok(scan_class(input, pos, CharClass::Space))
    } else {
        Err(ParseFail { at: pos, hard: false })
    }
}

} // verus!
