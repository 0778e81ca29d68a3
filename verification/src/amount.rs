use vstd::prelude::*;
use vstd::string::*;

use crate::outcome::{ParseFail, SpecParse};
use crate::scan::{spec_space1, parse_space1};
use crate::token::{spec_currency, spec_number, parse_currency, parse_number};

verus! {

/// A quantity of some currency, as written in the ledger: the numeric
/// literal (kept as its exact token text, so that callers may choose any
/// decimal representation for it) and the currency code.
#[derive(Debug, Clone)]
pub struct Amount {
    /// The numeric literal: optional sign, digits, optional fraction.
    pub value: String,
    /// The currency code, such as `CHF`.
    pub currency: String,
}

/// The mathematical content of an [`Amount`].
pub struct AmountV {
    pub value: Seq<char>,
    pub currency: Seq<char>,
}

impl View for Amount {
    type V = AmountV;

    open spec fn view(&self) -> AmountV {
        AmountV { value: self.value@, currency: self.currency@ }
    }
}

impl Amount {
    /// The numeric literal of this amount.
    pub fn value_str(&self) -> (r: &str)
        ensures
            r@ == self@.value,
    {
        self.value.as_str()
    }

    /// The currency code of this amount.
    pub fn currency_str(&self) -> (r: &str)
        ensures
            r@ == self@.currency,
    {
        self.currency.as_str()
    }
}

/// An amount: a numeric literal, mandatory whitespace, then a currency
/// code. A miss anywhere leaves the rule missing (recoverably) at its
/// starting position.
pub open spec fn spec_amount(s: Seq<char>, i: int) -> SpecParse<AmountV>
    recommends
        0 <= i <= s.len(),
{
    match spec_number(s, i) {
        SpecParse::Found { next: j, val: num } => match spec_space1(s, j) {
            SpecParse::Found { next: k, .. } => match spec_currency(s, k) {
                SpecParse::Found { next: m, val: cur } => SpecParse::Found {
                    next: m,
                    val: AmountV { value: num, currency: cur },
                },
                SpecParse::Miss { .. } => SpecParse::Miss { at: i, hard: false },
            },
            SpecParse::Miss { .. } => SpecParse::Miss { at: i, hard: false },
        },
        SpecParse::Miss { .. } => SpecParse::Miss { at: i, hard: false },
    }
}

pub fn parse_amount(input: &str, pos: usize) -> (r: Result<(usize, Amount), ParseFail>)
    requires
        pos <= input@.len(),
    ensures
        match r {
            Ok((next, v)) => {
                &&& spec_amount(input@, pos as int) == (SpecParse::<AmountV>::Found {
                    next: next as int,
                    val: v@,
                })
                &&& pos < next <= input@.len()
            },
            Err(f) => spec_amount(input@, pos as int) == (SpecParse::<AmountV>::Miss {
                at: f.at as int,
                hard: f.hard,
            }),
        },
{
    let (j, num) = match parse_number(input, pos) {
        Ok(x) => x,
        Err(_) => {
            return Err(ParseFail { at: pos, hard: false });
        },
    };
    let k = match parse_space1(input, j) {
        Ok(x) => x,
        Err(_) => {
            return Err(ParseFail { at: pos, hard: false });
        },
    };
    let (m, cur) = match parse_currency(input, k) {
        Ok(x) => x,
        Err(_) => {
            return Err(ParseFail { at: pos, hard: false });
        },
    };
    Ok((m, Amount { value: num, currency: cur }))
}

} // verus!
