use vstd::prelude::*;
use vstd::string::*;

use crate::outcome::{ParseFail, SpecParse};
use crate::scan::{class_pred, scan_class, scan_while, spec_space1, parse_space1, CharClass};
use crate::token::{spec_account, spec_currency, parse_account, parse_currency};
use crate::transaction::Account;

verus! {

/// An open-account directive: the account, and the currencies (possibly
/// none) it is constrained to.
#[derive(Debug, Clone)]
pub struct Open {
    /// The account being opened.
    pub account: Account,
    /// The currency constraints, in source order.
    pub currencies: Vec<String>,
}

/// The mathematical content of an [`Open`].
pub struct OpenV {
    pub account: Seq<char>,
    pub currencies: Seq<Seq<char>>,
}

pub open spec fn currency_views(cs: Seq<String>) -> Seq<Seq<char>> {
    cs.map_values(|c: String| c@)
}

impl View for Open {
    type V = OpenV;

    open spec fn view(&self) -> OpenV {
        OpenV { account: self.account@, currencies: currency_views(self.currencies@) }
    }
}

/// The run of currency codes after the account, separated by whitespace or
/// by a comma (spaces around it allowed). It stops without failing at the
/// first position where no further code follows.
pub open spec fn spec_currencies(s: Seq<char>, i: int, acc: Seq<Seq<char>>) -> (
    int,
    Seq<Seq<char>>,
)
    decreases s.len() - i
        when 0 <= i <= s.len()
{
    let q = scan_while(s, i, class_pred(CharClass::Space));
    if q < s.len() && s[q] == ',' {
        let q2 = scan_while(s, q + 1, class_pred(CharClass::Space));
        match spec_currency(s, q2) {
            SpecParse::Found { next: e, val: c } => if i < e <= s.len() {
                spec_currencies(s, e, acc.push(c))
            } else {
                (i, acc)
            },
            SpecParse::Miss { .. } => (i, acc),
        }
    } else if q > i {
        match spec_currency(s, q) {
            SpecParse::Found { next: e, val: c } => if i < e <= s.len() {
                spec_currencies(s, e, acc.push(c))
            } else {
                (i, acc)
            },
            SpecParse::Miss { .. } => (i, acc),
        }
    } else {
        (i, acc)
    }
}

/// The body of an `open` directive, entered just after the keyword. The
/// keyword has been recognized, so every failure here is committed.
pub open spec fn spec_open(s: Seq<char>, i: int) -> SpecParse<OpenV>
    recommends
        0 <= i <= s.len(),
{
    match spec_space1(s, i) {
        SpecParse::Miss { at, .. } => SpecParse::Miss { at, hard: true },
        SpecParse::Found { next: j, .. } => match spec_account(s, j) {
            SpecParse::Miss { at, .. } => SpecParse::Miss { at, hard: true },
            SpecParse::Found { next: p, val: acct } => {
                let (p2, curs) = spec_currencies(s, p, Seq::<Seq<char>>::empty());
                match crate::line::spec_end_of_line(s, p2) {
                    SpecParse::Miss { at, .. } => SpecParse::Miss { at, hard: true },
                    SpecParse::Found { next: e, .. } => SpecParse::Found {
                        next: e,
                        val: OpenV { account: acct, currencies: curs },
                    },
                }
            },
        },
    }
}

fn parse_currencies(input: &str, pos: usize) -> (r: (usize, Vec<String>))
    requires
        pos <= input@.len(),
    ensures
        (r.0 as int, currency_views(r.1@)) == spec_currencies(
            input@,
            pos as int,
            Seq::<Seq<char>>::empty(),
        ),
        pos <= r.0 <= input@.len(),
{
    let n = input.unicode_len();
    let mut cur = pos;
    let mut out: Vec<String> = Vec::new();
    proof {
        assert(currency_views(out@) =~= Seq::<Seq<char>>::empty());
    }
    loop
        invariant
            pos <= cur <= input@.len(),
            n == input@.len(),
            spec_currencies(input@, pos as int, Seq::<Seq<char>>::empty()) == spec_currencies(
                input@,
                cur as int,
                currency_views(out@),
            ),
        decreases input@.len() - cur,
    {
        let q = scan_class(input, cur, CharClass::Space);
        if q < n && input.get_char(q) == ',' {
            let q2 = scan_class(input, q + 1, CharClass::Space);
            match parse_currency(input, q2) {
                Ok((e, c)) => {
                    proof {
                        assert(currency_views(out@.push(c)) =~= currency_views(out@).push(c@));
                    }
                    out.push(c);
                    cur = e;
                },
                Err(_) => {
                    return (cur, out);
                },
            }
        } else if q > cur {
            match parse_currency(input, q) {
                Ok((e, c)) => {
                    proof {
                        assert(currency_views(out@.push(c)) =~= currency_views(out@).push(c@));
                    }
                    out.push(c);
                    cur = e;
                },
                Err(_) => {
                    return (cur, out);
                },
            }
        } else {
            return (cur, out);
        }
    }
}

pub fn parse_open(input: &str, pos: usize) -> (r: Result<(usize, Open), ParseFail>)
    requires
        pos <= input@.len(),
    ensures
        match r {
            Ok((next, v)) => {
                &&& spec_open(input@, pos as int) == (SpecParse::<OpenV>::Found {
                    next: next as int,
                    val: v@,
                })
                &&& pos <= next <= input@.len()
            },
            Err(f) => {
                &&& spec_open(input@, pos as int) == (SpecParse::<OpenV>::Miss {
                    at: f.at as int,
                    hard: f.hard,
                })
                &&& f.hard
                &&& f.at <= input@.len()
            },
        },
{
    let j = match parse_space1(input, pos) {
        Ok(x) => x,
        Err(f) => {
            return Err(f.committed());
        },
    };
    let (p, acct) = match parse_account(input, j) {
        Ok(x) => x,
        Err(f) => {
            return Err(f.committed());
        },
    };
    let (p2, curs) = parse_currencies(input, p);
    let e = match crate::line::parse_end_of_line(input, p2) {
        Ok(x) => x,
        Err(f) => {
            return Err(f.committed());
        },
    };
    Ok((e, Open { account: Account::from_name(acct), currencies: curs }))
}

} // verus!
