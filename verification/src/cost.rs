use vstd::prelude::*;
use vstd::string::*;

use crate::amount::{Amount, AmountV, spec_amount, parse_amount};
use crate::date::{Date, spec_date, parse_date};
use crate::outcome::{ParseFail, SpecParse};
use crate::scan::{class_pred, scan_class, scan_while, CharClass};

verus! {

/// The cost basis attached to a posting: the content between `{` and `}`.
/// Both fields are independently optional; the empty form `{}` is legal.
#[derive(Debug, Clone)]
pub struct Cost {
    /// Cost basis amount, if one is written.
    pub amount: Option<Amount>,
    /// Cost basis date, if one is written.
    pub date: Option<Date>,
}

/// The mathematical content of a [`Cost`].
pub struct CostV {
    pub amount: Option<AmountV>,
    pub date: Option<Date>,
}

pub open spec fn opt_amount_view(o: Option<Amount>) -> Option<AmountV> {
    match o {
        Some(a) => Some(a@),
        None => None,
    }
}

impl View for Cost {
    type V = CostV;

    open spec fn view(&self) -> CostV {
        CostV { amount: opt_amount_view(self.amount), date: self.date }
    }
}

// The five alternatives of the cost body, tried in this exact order, first
// match wins: amount `,` date; date `,` amount; amount; date; nothing. Each
// is attempted from the same starting position; a branch that matches only
// part of its shape is abandoned whole.

/// Branch one: amount, comma (spaces around it allowed), date.
pub open spec fn spec_cost_amount_date(s: Seq<char>, i: int) -> SpecParse<
    (Option<AmountV>, Option<Date>),
>
    recommends
        0 <= i <= s.len(),
{
    match spec_amount(s, i) {
        SpecParse::Found { next: j, val: a } => {
            let k = scan_while(s, j, class_pred(CharClass::Space));
            if k < s.len() && s[k] == ',' {
                let m = scan_while(s, k + 1, class_pred(CharClass::Space));
                match spec_date(s, m) {
                    SpecParse::Found { next: e, val: d } => SpecParse::Found {
                        next: e,
                        val: (Some(a), Some(d)),
                    },
                    SpecParse::Miss { .. } => SpecParse::Miss { at: i, hard: false },
                }
            } else {
                SpecParse::Miss { at: i, hard: false }
            }
        },
        SpecParse::Miss { .. } => SpecParse::Miss { at: i, hard: false },
    }
}

/// Branch two: date, comma (spaces around it allowed), amount.
pub open spec fn spec_cost_date_amount(s: Seq<char>, i: int) -> SpecParse<
    (Option<AmountV>, Option<Date>),
>
    recommends
        0 <= i <= s.len(),
{
    match spec_date(s, i) {
        SpecParse::Found { next: j, val: d } => {
            let k = scan_while(s, j, class_pred(CharClass::Space));
            if k < s.len() && s[k] == ',' {
                let m = scan_while(s, k + 1, class_pred(CharClass::Space));
                match spec_amount(s, m) {
                    SpecParse::Found { next: e, val: a } => SpecParse::Found {
                        next: e,
                        val: (Some(a), Some(d)),
                    },
                    SpecParse::Miss { .. } => SpecParse::Miss { at: i, hard: false },
                }
            } else {
                SpecParse::Miss { at: i, hard: false }
            }
        },
        SpecParse::Miss { .. } => SpecParse::Miss { at: i, hard: false },
    }
}

/// The cost body: the ordered alternation. The final alternative matches
/// nothing and always succeeds, so the body as a whole never fails.
pub open spec fn spec_cost_body(s: Seq<char>, i: int) -> (int, (Option<AmountV>, Option<Date>))
    recommends
        0 <= i <= s.len(),
{
    match spec_cost_amount_date(s, i) {
        SpecParse::Found { next, val } => (next, val),
        SpecParse::Miss { .. } => match spec_cost_date_amount(s, i) {
            SpecParse::Found { next, val } => (next, val),
            SpecParse::Miss { .. } => match spec_amount(s, i) {
                SpecParse::Found { next, val: a } => (next, (Some(a), None)),
                SpecParse::Miss { .. } => match spec_date(s, i) {
                    SpecParse::Found { next, val: d } => (next, (None, Some(d))),
                    SpecParse::Miss { .. } => (i, (None, None)),
                },
            },
        },
    }
}

/// The cost rule: `{`, optional spaces, the body, optional spaces, `}`.
pub open spec fn spec_cost(s: Seq<char>, i: int) -> SpecParse<CostV>
    recommends
        0 <= i <= s.len(),
{
    if i < s.len() && s[i] == '{' {
        let j = scan_while(s, i + 1, class_pred(CharClass::Space));
        let (p, body) = spec_cost_body(s, j);
        let q = scan_while(s, p, class_pred(CharClass::Space));
        if q < s.len() && s[q] == '}' {
            SpecParse::Found { next: q + 1, val: CostV { amount: body.0, date: body.1 } }
        } else {
            SpecParse::Miss { at: q, hard: false }
        }
    } else {
        SpecParse::Miss { at: i, hard: false }
    }
}

/// An empty cost — `{`, spaces only, `}` — always parses, to a cost with
/// neither amount nor date, and never fails: the final alternative of the
/// body matches nothing and succeeds.
pub proof fn lemma_empty_cost(s: Seq<char>, i: int, j: int)
    requires
        0 <= i < s.len(),
        s[i] == '{',
        i + 1 <= j < s.len(),
        forall|m: int| i + 1 <= m < j ==> crate::scan::is_space(s[m]),
        s[j] == '}',
    ensures
        spec_cost(s, i) == (SpecParse::<CostV>::Found {
            next: j + 1,
            val: CostV { amount: None, date: None },
        }),
{
    crate::scan::lemma_scan_while_is(s, i + 1, j, class_pred(CharClass::Space));
    crate::scan::lemma_scan_while_is(s, j, j, class_pred(CharClass::Digit));
    crate::scan::lemma_scan_while_is(s, j, j, class_pred(CharClass::Space));
    assert(spec_amount(s, j) == (SpecParse::<AmountV>::Miss { at: j, hard: false }));
    assert(spec_date(s, j) == (SpecParse::<Date>::Miss { at: j, hard: false }));
    assert(spec_cost_body(s, j) == (j, (None::<AmountV>, None::<Date>)));
}

fn parse_cost_amount_date(input: &str, pos: usize) -> (r: Result<
    (usize, (Option<Amount>, Option<Date>)),
    ParseFail,
>)
    requires
        pos <= input@.len(),
    ensures
        match r {
            Ok((next, v)) => {
                &&& spec_cost_amount_date(input@, pos as int) == (SpecParse::<
                    (Option<AmountV>, Option<Date>),
                >::Found { next: next as int, val: (opt_amount_view(v.0), v.1) })
                &&& pos <= next <= input@.len()
            },
            Err(f) => spec_cost_amount_date(input@, pos as int) == (SpecParse::<
                (Option<AmountV>, Option<Date>),
            >::Miss { at: f.at as int, hard: f.hard }),
        },
{
    let n = input.unicode_len();
    let (j, a) = match parse_amount(input, pos) {
        Ok(x) => x,
        Err(_) => {
            return Err(ParseFail { at: pos, hard: false });
        },
    };
    let k = scan_class(input, j, CharClass::Space);
    if k < n && input.get_char(k) == ',' {
        let m = scan_class(input, k + 1, CharClass::Space);
        match parse_date(input, m) {
            Ok((e, d)) => Ok((e, (Some(a), Some(d)))),
            Err(_) => Err(ParseFail { at: pos, hard: false }),
        }
    } else {
        Err(ParseFail { at: pos, hard: false })
    }
}

fn parse_cost_date_amount(input: &str, pos: usize) -> (r: Result<
    (usize, (Option<Amount>, Option<Date>)),
    ParseFail,
>)
    requires
        pos <= input@.len(),
    ensures
        match r {
            Ok((next, v)) => {
                &&& spec_cost_date_amount(input@, pos as int) == (SpecParse::<
                    (Option<AmountV>, Option<Date>),
                >::Found { next: next as int, val: (opt_amount_view(v.0), v.1) })
                &&& pos <= next <= input@.len()
            },
            Err(f) => spec_cost_date_amount(input@, pos as int) == (SpecParse::<
                (Option<AmountV>, Option<Date>),
            >::Miss { at: f.at as int, hard: f.hard }),
        },
{
    let n = input.unicode_len();
    let (j, d) = match parse_date(input, pos) {
        Ok(x) => x,
        Err(_) => {
            return Err(ParseFail { at: pos, hard: false });
        },
    };
    let k = scan_class(input, j, CharClass::Space);
    if k < n && input.get_char(k) == ',' {
        let m = scan_class(input, k + 1, CharClass::Space);
        match parse_amount(input, m) {
            Ok((e, a)) => Ok((e, (Some(a), Some(d)))),
            Err(_) => Err(ParseFail { at: pos, hard: false }),
        }
    } else {
        Err(ParseFail { at: pos, hard: false })
    }
}

fn parse_cost_body(input: &str, pos: usize) -> (r: (usize, (Option<Amount>, Option<Date>)))
    requires
        pos <= input@.len(),
    ensures
        ({
            let (next, v) = spec_cost_body(input@, pos as int);
            &&& next == r.0 as int
            &&& v == (opt_amount_view(r.1.0), r.1.1)
        }),
        pos <= r.0 <= input@.len(),
{
    match parse_cost_amount_date(input, pos) {
        Ok((next, v)) => (next, v),
        Err(_) => match parse_cost_date_amount(input, pos) {
            Ok((next, v)) => (next, v),
            Err(_) => match parse_amount(input, pos) {
                Ok((next, a)) => (next, (Some(a), None)),
                Err(_) => match parse_date(input, pos) {
                    Ok((next, d)) => (next, (None, Some(d))),
                    Err(_) => (pos, (None, None)),
                },
            },
        },
    }
}

pub fn parse_cost(input: &str, pos: usize) -> (r: Result<(usize, Cost), ParseFail>)
    requires
        pos <= input@.len(),
    ensures
        match r {
            Ok((next, v)) => {
                &&& spec_cost(input@, pos as int) == (SpecParse::<CostV>::Found {
                    next: next as int,
                    val: v@,
                })
                &&& pos < next <= input@.len()
            },
            Err(f) => spec_cost(input@, pos as int) == (SpecParse::<CostV>::Miss {
                at: f.at as int,
                hard: f.hard,
            }),
        },
{
    let n = input.unicode_len();
    if pos < n && input.get_char(pos) == '{' {
        let j = scan_class(input, pos + 1, CharClass::Space);
        let (p, body) = parse_cost_body(input, j);
        let q = scan_class(input, p, CharClass::Space);
        if q < n && input.get_char(q) == '}' {
            Ok((q + 1, Cost { amount: body.0, date: body.1 }))
        } else {
            Err(ParseFail { at: q, hard: false })
        }
    } else {
        Err(ParseFail { at: pos, hard: false })
    }
}

} // verus!
