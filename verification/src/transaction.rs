use vstd::prelude::*;
use vstd::string::*;

use crate::amount::{Amount, AmountV, spec_amount, parse_amount};
use crate::cost::{Cost, CostV, spec_cost, parse_cost};
use crate::line::{spec_empty_line, spec_end_of_line, parse_empty_line, parse_end_of_line};
use crate::metadata::{kv_views, spec_metadata, parse_metadata};
use crate::outcome::{ParseFail, SpecParse};
use crate::scan::{
    class_pred, is_ascii_lower, is_ascii_lower_char, scan_class, scan_while, spec_space1,
    parse_space1, CharClass,
};
use crate::token::{spec_account, parse_account};

verus! {

// ---------------------------------------------------------------------------
// Accounts, tags and links.
// ---------------------------------------------------------------------------

/// An account path, such as `Assets:Cash`.
#[derive(Debug, Clone)]
pub struct Account {
    name: String,
}

impl View for Account {
    type V = Seq<char>;

    closed spec fn view(&self) -> Seq<char> {
        self.name@
    }
}

impl Account {
    /// The underlying string representation.
    pub fn as_str(&self) -> (r: &str)
        ensures
            r@ == self@,
    {
        self.name.as_str()
    }

    pub(crate) fn from_name(name: String) -> (r: Account)
        ensures
            r@ == name@,
    {
        Account { name }
    }
}

/// A transaction tag, written `#name` in the header.
#[derive(Debug, Clone)]
pub struct Tag {
    name: String,
}

impl View for Tag {
    type V = Seq<char>;

    closed spec fn view(&self) -> Seq<char> {
        self.name@
    }
}

impl Tag {
    /// The underlying string representation.
    pub fn as_str(&self) -> (r: &str)
        ensures
            r@ == self@,
    {
        self.name.as_str()
    }
}

/// A transaction link, written `^name` in the header.
#[derive(Debug, Clone)]
pub struct Link {
    name: String,
}

impl View for Link {
    type V = Seq<char>;

    closed spec fn view(&self) -> Seq<char> {
        self.name@
    }
}

impl Link {
    /// The underlying string representation.
    pub fn as_str(&self) -> (r: &str)
        ensures
            r@ == self@,
    {
        self.name.as_str()
    }
}

pub open spec fn tag_views(ts: Seq<Tag>) -> Seq<Seq<char>> {
    ts.map_values(|t: Tag| t@)
}

pub open spec fn link_views(ls: Seq<Link>) -> Seq<Seq<char>> {
    ls.map_values(|l: Link| l@)
}

pub open spec fn opt_string_view(o: Option<String>) -> Option<Seq<char>> {
    match o {
        Some(x) => Some(x@),
        None => None,
    }
}

// ---------------------------------------------------------------------------
// Prices.
// ---------------------------------------------------------------------------

/// The price annotation of a posting: per unit (`@`) or in total (`@@`),
/// mutually exclusive.
#[derive(Debug, Clone)]
pub enum PostingPrice {
    /// Price of one unit, written `@`.
    Unit(Amount),
    /// Price of the whole position, written `@@`.
    Total(Amount),
}

/// The mathematical content of a [`PostingPrice`].
pub enum PostingPriceV {
    Unit(AmountV),
    Total(AmountV),
}

impl View for PostingPrice {
    type V = PostingPriceV;

    open spec fn view(&self) -> PostingPriceV {
        match self {
            PostingPrice::Unit(a) => PostingPriceV::Unit(a@),
            PostingPrice::Total(a) => PostingPriceV::Total(a@),
        }
    }
}

/// The price rule. The two-character `@@` is recognized before the
/// single-character `@`, so a total price is never misread as a unit price
/// followed by a stray `@`. In either form mandatory whitespace separates
/// the sigil from the amount.
pub open spec fn spec_price(s: Seq<char>, i: int) -> SpecParse<PostingPriceV>
    recommends
        0 <= i <= s.len(),
{
    if i + 1 < s.len() && s[i] == '@' && s[i + 1] == '@' {
        match spec_space1(s, i + 2) {
            SpecParse::Found { next: k, .. } => match spec_amount(s, k) {
                SpecParse::Found { next: e, val: a } => SpecParse::Found {
                    next: e,
                    val: PostingPriceV::Total(a),
                },
                SpecParse::Miss { .. } => SpecParse::Miss { at: i, hard: false },
            },
            SpecParse::Miss { .. } => SpecParse::Miss { at: i, hard: false },
        }
    } else if i < s.len() && s[i] == '@' {
        match spec_space1(s, i + 1) {
            SpecParse::Found { next: k, .. } => match spec_amount(s, k) {
                SpecParse::Found { next: e, val: a } => SpecParse::Found {
                    next: e,
                    val: PostingPriceV::Unit(a),
                },
                SpecParse::Miss { .. } => SpecParse::Miss { at: i, hard: false },
            },
            SpecParse::Miss { .. } => SpecParse::Miss { at: i, hard: false },
        }
    } else {
        SpecParse::Miss { at: i, hard: false }
    }
}

pub fn parse_price(input: &str, pos: usize) -> (r: Result<(usize, PostingPrice), ParseFail>)
    requires
        pos <= input@.len(),
    ensures
        match r {
            Ok((next, v)) => {
                &&& spec_price(input@, pos as int) == (SpecParse::<PostingPriceV>::Found {
                    next: next as int,
                    val: v@,
                })
                &&& pos < next <= input@.len()
            },
            Err(f) => spec_price(input@, pos as int) == (SpecParse::<PostingPriceV>::Miss {
                at: f.at as int,
                hard: f.hard,
            }),
        },
{
    let n = input.unicode_len();
    if n - pos > 1 && input.get_char(pos) == '@' && input.get_char(pos + 1) == '@' {
        let k = match parse_space1(input, pos + 2) {
            Ok(x) => x,
            Err(_) => {
                return Err(ParseFail { at: pos, hard: false });
            },
        };
        match parse_amount(input, k) {
            Ok((e, a)) => Ok((e, PostingPrice::Total(a))),
            Err(_) => Err(ParseFail { at: pos, hard: false }),
        }
    } else if pos < n && input.get_char(pos) == '@' {
        let k = match parse_space1(input, pos + 1) {
            Ok(x) => x,
            Err(_) => {
                return Err(ParseFail { at: pos, hard: false });
            },
        };
        match parse_amount(input, k) {
            Ok((e, a)) => Ok((e, PostingPrice::Unit(a))),
            Err(_) => Err(ParseFail { at: pos, hard: false }),
        }
    } else {
        Err(ParseFail { at: pos, hard: false })
    }
}

// ---------------------------------------------------------------------------
// Postings.
// ---------------------------------------------------------------------------

/// One account movement inside a transaction: an indented line with an
/// optional flag, a mandatory account, and an optional amount with optional
/// cost and price, followed by optional metadata lines of its own.
#[derive(Debug, Clone)]
pub struct Posting {
    /// Posting flag (`*` or `!` or `None` when absent).
    pub flag: Option<char>,
    /// Account modified by the posting.
    pub account: Account,
    /// Amount being added to the account; a posting without one is valid.
    pub amount: Option<Amount>,
    /// Cost basis (content within `{` and `}`).
    pub cost: Option<Cost>,
    /// Price (`@` or `@@`) annotation.
    pub price: Option<PostingPrice>,
    /// The metadata attached to the posting.
    pub metadata: Vec<(String, String)>,
}

/// The mathematical content of a [`Posting`].
pub struct PostingV {
    pub flag: Option<char>,
    pub account: Seq<char>,
    pub amount: Option<AmountV>,
    pub cost: Option<CostV>,
    pub price: Option<PostingPriceV>,
    pub metadata: Seq<(Seq<char>, Seq<char>)>,
}

pub open spec fn opt_cost_view(o: Option<Cost>) -> Option<CostV> {
    match o {
        Some(c) => Some(c@),
        None => None,
    }
}

pub open spec fn opt_price_view(o: Option<PostingPrice>) -> Option<PostingPriceV> {
    match o {
        Some(p) => Some(p@),
        None => None,
    }
}

impl View for Posting {
    type V = PostingV;

    open spec fn view(&self) -> PostingV {
        PostingV {
            flag: self.flag,
            account: self.account@,
            amount: crate::cost::opt_amount_view(self.amount),
            cost: opt_cost_view(self.cost),
            price: opt_price_view(self.price),
            metadata: kv_views(self.metadata@),
        }
    }
}

pub open spec fn posting_views(ps: Seq<Posting>) -> Seq<PostingV> {
    ps.map_values(|p: Posting| p@)
}

/// The amount/cost/price tail of a posting line. It is optional as a unit:
/// without an amount, neither cost nor price is attempted. Cost and price
/// are then each independently optional, in that order.
pub open spec fn spec_posting_tail(s: Seq<char>, i: int) -> (
    int,
    Option<AmountV>,
    Option<CostV>,
    Option<PostingPriceV>,
)
    recommends
        0 <= i <= s.len(),
{
    match spec_space1(s, i) {
        SpecParse::Found { next: q, .. } => match spec_amount(s, q) {
            SpecParse::Found { next: a1, val: av } => {
                let (c_end, cv) = match spec_space1(s, a1) {
                    SpecParse::Found { next: q2, .. } => match spec_cost(s, q2) {
                        SpecParse::Found { next: c1, val: c } => (c1, Some(c)),
                        SpecParse::Miss { .. } => (a1, None::<CostV>),
                    },
                    SpecParse::Miss { .. } => (a1, None::<CostV>),
                };
                let (p_end, pv) = match spec_space1(s, c_end) {
                    SpecParse::Found { next: q3, .. } => match spec_price(s, q3) {
                        SpecParse::Found { next: e, val: p } => (e, Some(p)),
                        SpecParse::Miss { .. } => (c_end, None::<PostingPriceV>),
                    },
                    SpecParse::Miss { .. } => (c_end, None::<PostingPriceV>),
                };
                (p_end, Some(av), cv, pv)
            },
            SpecParse::Miss { .. } => (i, None, None, None),
        },
        SpecParse::Miss { .. } => (i, None, None, None),
    }
}

/// The posting rule: mandatory indentation, an optional flag (any character
/// that is not a lower-case ASCII letter, followed by whitespace), the
/// account, the optional amount/cost/price tail, the end of the line, then
/// the posting's own metadata block. Every failure is recoverable: the
/// enclosing run of postings simply stops before this line.
pub open spec fn spec_posting(s: Seq<char>, i: int) -> SpecParse<PostingV>
    recommends
        0 <= i <= s.len(),
{
    match spec_space1(s, i) {
        SpecParse::Miss { .. } => SpecParse::Miss { at: i, hard: false },
        SpecParse::Found { next: j, .. } => {
            let (j2, flag) = if j < s.len() && !is_ascii_lower(s[j]) {
                match spec_space1(s, j + 1) {
                    SpecParse::Found { next: k, .. } => (k, Some(s[j])),
                    SpecParse::Miss { .. } => (j, None::<char>),
                }
            } else {
                (j, None::<char>)
            };
            match spec_account(s, j2) {
                SpecParse::Miss { at, .. } => SpecParse::Miss { at, hard: false },
                SpecParse::Found { next: p, val: acct } => {
                    let (j3, amt, cst, prc) = spec_posting_tail(s, p);
                    match spec_end_of_line(s, j3) {
                        SpecParse::Miss { at, .. } => SpecParse::Miss { at, hard: false },
                        SpecParse::Found { next: e, .. } => {
                            let (e2, md) = spec_metadata(
                                s,
                                e,
                                Seq::<(Seq<char>, Seq<char>)>::empty(),
                            );
                            SpecParse::Found {
                                next: e2,
                                val: PostingV {
                                    flag,
                                    account: acct,
                                    amount: amt,
                                    cost: cst,
                                    price: prc,
                                    metadata: md,
                                },
                            }
                        },
                    }
                },
            }
        },
    }
}

pub fn parse_posting(input: &str, pos: usize) -> (r: Result<(usize, Posting), ParseFail>)
    requires
        pos <= input@.len(),
    ensures
        match r {
            Ok((next, v)) => {
                &&& spec_posting(input@, pos as int) == (SpecParse::<PostingV>::Found {
                    next: next as int,
                    val: v@,
                })
                &&& pos < next <= input@.len()
            },
            Err(f) => spec_posting(input@, pos as int) == (SpecParse::<PostingV>::Miss {
                at: f.at as int,
                hard: f.hard,
            }),
        },
{
    let n = input.unicode_len();
    let j = match parse_space1(input, pos) {
        Ok(x) => x,
        Err(_) => {
            return Err(ParseFail { at: pos, hard: false });
        },
    };
    let (j2, flag) = if j < n && !is_ascii_lower_char(input.get_char(j)) {
        match parse_space1(input, j + 1) {
            Ok(k) => (k, Some(input.get_char(j))),
            Err(_) => (j, None),
        }
    } else {
        (j, None)
    };
    let (p, acct) = match parse_account(input, j2) {
        Ok(x) => x,
        Err(f) => {
            return Err(ParseFail { at: f.at, hard: false });
        },
    };
    let (j3, amt, cst, prc) = parse_posting_tail(input, p);
    let e = match parse_end_of_line(input, j3) {
        Ok(x) => x,
        Err(f) => {
            return Err(ParseFail { at: f.at, hard: false });
        },
    };
    let (e2, md) = parse_metadata(input, e);
    Ok(
        (
            e2,
            Posting {
                flag,
                account: Account { name: acct },
                amount: amt,
                cost: cst,
                price: prc,
                metadata: md,
            },
        ),
    )
}

fn parse_posting_tail(input: &str, pos: usize) -> (r: (
    usize,
    Option<Amount>,
    Option<Cost>,
    Option<PostingPrice>,
))
    requires
        pos <= input@.len(),
    ensures
        spec_posting_tail(input@, pos as int) == (
            r.0 as int,
            crate::cost::opt_amount_view(r.1),
            opt_cost_view(r.2),
            opt_price_view(r.3),
        ),
        pos <= r.0 <= input@.len(),
{
    let q = match parse_space1(input, pos) {
        Ok(x) => x,
        Err(_) => {
            return (pos, None, None, None);
        },
    };
    let (a1, av) = match parse_amount(input, q) {
        Ok(x) => x,
        Err(_) => {
            return (pos, None, None, None);
        },
    };
    let (c_end, cv) = match parse_space1(input, a1) {
        Ok(q2) => match parse_cost(input, q2) {
            Ok((c1, c)) => (c1, Some(c)),
            Err(_) => (a1, None),
        },
        Err(_) => (a1, None),
    };
    let (p_end, pv) = match parse_space1(input, c_end) {
        Ok(q3) => match parse_price(input, q3) {
            Ok((e, p)) => (e, Some(p)),
            Err(_) => (c_end, None),
        },
        Err(_) => (c_end, None),
    };
    (p_end, Some(av), cv, pv)
}

// ---------------------------------------------------------------------------
// Tags and links.
// ---------------------------------------------------------------------------

/// A `#tag` token: the sigil, then zero or more tag characters.
pub open spec fn spec_tag(s: Seq<char>, i: int) -> SpecParse<Seq<char>>
    recommends
        0 <= i <= s.len(),
{
    if i < s.len() && s[i] == '#' {
        let j = scan_while(s, i + 1, class_pred(CharClass::TagChar));
        SpecParse::Found { next: j, val: s.subrange(i + 1, j) }
    } else {
        SpecParse::Miss { at: i, hard: false }
    }
}

/// A `^link` token: the sigil, then zero or more tag characters.
pub open spec fn spec_link(s: Seq<char>, i: int) -> SpecParse<Seq<char>>
    recommends
        0 <= i <= s.len(),
{
    if i < s.len() && s[i] == '^' {
        let j = scan_while(s, i + 1, class_pred(CharClass::TagChar));
        SpecParse::Found { next: j, val: s.subrange(i + 1, j) }
    } else {
        SpecParse::Miss { at: i, hard: false }
    }
}

/// Insertion into a set kept as a duplicate-free sequence: a name already
/// present is absorbed silently, a new one is appended.
pub open spec fn insert_unique(xs: Seq<Seq<char>>, x: Seq<char>) -> Seq<Seq<char>> {
    if xs.contains(x) {
        xs
    } else {
        xs.push(x)
    }
}

/// The run of tag and link tokens of a transaction header, each preceded by
/// mandatory whitespace, classified by its sigil and accumulated into the
/// two sets. The run stops (without failing) at the first position where no
/// further token follows.
pub open spec fn spec_tags_links(
    s: Seq<char>,
    i: int,
    tags: Seq<Seq<char>>,
    links: Seq<Seq<char>>,
) -> (int, Seq<Seq<char>>, Seq<Seq<char>>)
    decreases s.len() - i
        when 0 <= i <= s.len()
{
    match spec_space1(s, i) {
        SpecParse::Found { next: j, .. } => match spec_tag(s, j) {
            SpecParse::Found { next: k, val: name } => if i < k <= s.len() {
                spec_tags_links(s, k, insert_unique(tags, name), links)
            } else {
                (i, tags, links)
            },
            SpecParse::Miss { .. } => match spec_link(s, j) {
                SpecParse::Found { next: k, val: name } => if i < k <= s.len() {
                    spec_tags_links(s, k, tags, insert_unique(links, name))
                } else {
                    (i, tags, links)
                },
                SpecParse::Miss { .. } => (i, tags, links),
            },
        },
        SpecParse::Miss { .. } => (i, tags, links),
    }
}

/// Appends a tag unless its name is already present.
fn push_unique_tag(tags: &mut Vec<Tag>, name: String)
    ensures
        tag_views(final(tags)@) == insert_unique(tag_views(old(tags)@), name@),
{
    let mut idx: usize = 0;
    while idx < tags.len()
        invariant
            idx <= tags@.len(),
            forall|k: int| 0 <= k < idx ==> tag_views(tags@)[k] != name@,
            tags@ == old(tags)@,
        decreases tags@.len() - idx,
    {
        if tags[idx].name == name {
            proof {
                assert(tag_views(tags@)[idx as int] == name@);
                assert(tag_views(tags@).contains(name@));
            }
            return ;
        }
        idx = idx + 1;
    }
    proof {
        assert(!tag_views(tags@).contains(name@));
        assert(tag_views(tags@.push(Tag { name })) =~= tag_views(tags@).push(name@));
    }
    tags.push(Tag { name });
}

/// Appends a link unless its name is already present.
fn push_unique_link(links: &mut Vec<Link>, name: String)
    ensures
        link_views(final(links)@) == insert_unique(link_views(old(links)@), name@),
{
    let mut idx: usize = 0;
    while idx < links.len()
        invariant
            idx <= links@.len(),
            forall|k: int| 0 <= k < idx ==> link_views(links@)[k] != name@,
            links@ == old(links)@,
        decreases links@.len() - idx,
    {
        if links[idx].name == name {
            proof {
                assert(link_views(links@)[idx as int] == name@);
                assert(link_views(links@).contains(name@));
            }
            return ;
        }
        idx = idx + 1;
    }
    proof {
        assert(!link_views(links@).contains(name@));
        assert(link_views(links@.push(Link { name })) =~= link_views(links@).push(name@));
    }
    links.push(Link { name });
}

pub fn parse_tags_links(input: &str, pos: usize) -> (r: (usize, Vec<Tag>, Vec<Link>))
    requires
        pos <= input@.len(),
    ensures
        (r.0 as int, tag_views(r.1@), link_views(r.2@)) == spec_tags_links(
            input@,
            pos as int,
            Seq::<Seq<char>>::empty(),
            Seq::<Seq<char>>::empty(),
        ),
        pos <= r.0 <= input@.len(),
{
    let n = input.unicode_len();
    let mut cur = pos;
    let mut tags: Vec<Tag> = Vec::new();
    let mut links: Vec<Link> = Vec::new();
    proof {
        assert(tag_views(tags@) =~= Seq::<Seq<char>>::empty());
        assert(link_views(links@) =~= Seq::<Seq<char>>::empty());
    }
    loop
        invariant
            pos <= cur <= input@.len(),
            n == input@.len(),
            spec_tags_links(
                input@,
                pos as int,
                Seq::<Seq<char>>::empty(),
                Seq::<Seq<char>>::empty(),
            ) == spec_tags_links(input@, cur as int, tag_views(tags@), link_views(links@)),
        decreases input@.len() - cur,
    {
        let j = match parse_space1(input, cur) {
            Ok(x) => x,
            Err(_) => {
                return (cur, tags, links);
            },
        };
        if j < n && input.get_char(j) == '#' {
            let k = scan_class(input, j + 1, CharClass::TagChar);
            let name = input.substring_char(j + 1, k).to_owned();
            push_unique_tag(&mut tags, name);
            cur = k;
        } else if j < n && input.get_char(j) == '^' {
            let k = scan_class(input, j + 1, CharClass::TagChar);
            let name = input.substring_char(j + 1, k).to_owned();
            push_unique_link(&mut links, name);
            cur = k;
        } else {
            return (cur, tags, links);
        }
    }
}

// ---------------------------------------------------------------------------
// Payee and narration.
// ---------------------------------------------------------------------------

/// One or two quoted strings: with two, the first is the payee and the
/// second the narration; with one, it is the narration alone.
pub open spec fn spec_payee_narration(s: Seq<char>, i: int) -> SpecParse<
    (Option<Seq<char>>, Seq<char>),
>
    recommends
        0 <= i <= s.len(),
{
    match crate::token::spec_string(s, i) {
        SpecParse::Miss { at, hard } => SpecParse::Miss { at, hard },
        SpecParse::Found { next: j, val: s1 } => match spec_space1(s, j) {
            SpecParse::Found { next: k, .. } => match crate::token::spec_string(s, k) {
                SpecParse::Found { next: m, val: s2 } => SpecParse::Found {
                    next: m,
                    val: (Some(s1), s2),
                },
                SpecParse::Miss { .. } => SpecParse::Found { next: j, val: (None, s1) },
            },
            SpecParse::Miss { .. } => SpecParse::Found { next: j, val: (None, s1) },
        },
    }
}

fn parse_payee_narration(input: &str, pos: usize) -> (r: Result<
    (usize, Option<String>, String),
    ParseFail,
>)
    requires
        pos <= input@.len(),
    ensures
        match r {
            Ok((next, p, nr)) => {
                &&& spec_payee_narration(input@, pos as int) == (SpecParse::<
                    (Option<Seq<char>>, Seq<char>),
                >::Found { next: next as int, val: (opt_string_view(p), nr@) })
                &&& pos < next <= input@.len()
            },
            Err(f) => spec_payee_narration(input@, pos as int) == (SpecParse::<
                (Option<Seq<char>>, Seq<char>),
            >::Miss { at: f.at as int, hard: f.hard }),
        },
{
    let (j, s1) = match crate::token::parse_string(input, pos) {
        Ok(x) => x,
        Err(f) => {
            return Err(f);
        },
    };
    match parse_space1(input, j) {
        Ok(k) => match crate::token::parse_string(input, k) {
            Ok((m, s2)) => Ok((m, Some(s1), s2)),
            Err(_) => Ok((j, None, s1)),
        },
        Err(_) => Ok((j, None, s1)),
    }
}

// ---------------------------------------------------------------------------
// Transactions.
// ---------------------------------------------------------------------------

/// A transaction: a flag or the `txn` keyword, an optional payee and
/// narration, tag and link sets, and a run of postings.
#[derive(Debug, Clone)]
pub struct Transaction {
    /// Transaction flag (`*` or `!` or `None` when using the `txn` keyword).
    pub flag: Option<char>,
    /// Payee (if present).
    pub payee: Option<String>,
    /// Narration (if present).
    pub narration: Option<String>,
    /// Set of tags, kept without duplicates in first-seen order.
    pub tags: Vec<Tag>,
    /// Set of links, kept without duplicates in first-seen order.
    pub links: Vec<Link>,
    /// Postings, in source order.
    pub postings: Vec<Posting>,
}

/// The mathematical content of a [`Transaction`].
pub struct TransactionV {
    pub flag: Option<char>,
    pub payee: Option<Seq<char>>,
    pub narration: Option<Seq<char>>,
    pub tags: Seq<Seq<char>>,
    pub links: Seq<Seq<char>>,
    pub postings: Seq<PostingV>,
}

impl View for Transaction {
    type V = TransactionV;

    open spec fn view(&self) -> TransactionV {
        TransactionV {
            flag: self.flag,
            payee: opt_string_view(self.payee),
            narration: opt_string_view(self.narration),
            tags: tag_views(self.tags@),
            links: link_views(self.links@),
            postings: posting_views(self.postings@),
        }
    }
}

/// The run of postings of a transaction, interleaved with tolerated blank
/// and comment-only lines. It stops (without failing) at the first line
/// that is neither, leaving that line unconsumed.
pub open spec fn spec_postings(s: Seq<char>, i: int, acc: Seq<PostingV>) -> (int, Seq<PostingV>)
    decreases s.len() - i
        when 0 <= i <= s.len()
{
    match spec_posting(s, i) {
        SpecParse::Found { next: j, val: p } => if i < j <= s.len() {
            spec_postings(s, j, acc.push(p))
        } else {
            (i, acc)
        },
        SpecParse::Miss { .. } => match spec_empty_line(s, i) {
            SpecParse::Found { next: j, .. } => if i < j <= s.len() {
                spec_postings(s, j, acc)
            } else {
                (i, acc)
            },
            SpecParse::Miss { .. } => (i, acc),
        },
    }
}

pub fn parse_postings(input: &str, pos: usize) -> (r: (usize, Vec<Posting>))
    requires
        pos <= input@.len(),
    ensures
        (r.0 as int, posting_views(r.1@)) == spec_postings(
            input@,
            pos as int,
            Seq::<PostingV>::empty(),
        ),
        pos <= r.0 <= input@.len(),
{
    let mut cur = pos;
    let mut out: Vec<Posting> = Vec::new();
    proof {
        assert(posting_views(out@) =~= Seq::<PostingV>::empty());
    }
    loop
        invariant
            pos <= cur <= input@.len(),
            spec_postings(input@, pos as int, Seq::<PostingV>::empty()) == spec_postings(
                input@,
                cur as int,
                posting_views(out@),
            ),
        decreases input@.len() - cur,
    {
        match parse_posting(input, cur) {
            Ok((j, p)) => {
                proof {
                    assert(posting_views(out@.push(p)) =~= posting_views(out@).push(p@));
                }
                out.push(p);
                cur = j;
            },
            Err(_) => match parse_empty_line(input, cur) {
                Ok(j) => {
                    cur = j;
                },
                Err(_) => {
                    return (cur, out);
                },
            },
        }
    }
}

/// The transaction rule, entered just after the flag or `txn` trigger. From
/// here on every failure is committed: the caller sees a hard error at the
/// position where matching stopped, never a fallback to another directive
/// kind. Of the steps themselves only the end of the header line can fail;
/// the optional payee/narration, the tag/link run, the metadata block and
/// the posting run all absorb their own misses.
pub open spec fn spec_transaction(s: Seq<char>, i: int, flag: Option<char>) -> SpecParse<
    (TransactionV, Seq<(Seq<char>, Seq<char>)>),
>
    recommends
        0 <= i <= s.len(),
{
    let (i1, payee, narration) = match spec_space1(s, i) {
        SpecParse::Found { next: j, .. } => match spec_payee_narration(s, j) {
            SpecParse::Found { next: m, val: pn } => (m, pn.0, Some(pn.1)),
            SpecParse::Miss { .. } => (i, None::<Seq<char>>, None::<Seq<char>>),
        },
        SpecParse::Miss { .. } => (i, None::<Seq<char>>, None::<Seq<char>>),
    };
    let (i2, tags, links) = spec_tags_links(
        s,
        i1,
        Seq::<Seq<char>>::empty(),
        Seq::<Seq<char>>::empty(),
    );
    match spec_end_of_line(s, i2) {
        SpecParse::Miss { at, .. } => SpecParse::Miss { at, hard: true },
        SpecParse::Found { next: i3, .. } => {
            let (i4, md) = spec_metadata(s, i3, Seq::<(Seq<char>, Seq<char>)>::empty());
            let (i5, ps) = spec_postings(s, i4, Seq::<PostingV>::empty());
            SpecParse::Found {
                next: i5,
                val: (
                    TransactionV { flag, payee, narration, tags, links, postings: ps },
                    md,
                ),
            }
        },
    }
}

// ---------------------------------------------------------------------------
// Laws.
// ---------------------------------------------------------------------------

/// A sequence without two equal entries: what it means for tags or links to
/// form a set.
pub open spec fn distinct_names(xs: Seq<Seq<char>>) -> bool {
    forall|p: int, q: int| 0 <= p < q < xs.len() ==> xs[p] != xs[q]
}

/// Inserting into a duplicate-free sequence keeps it duplicate-free: a name
/// already present is absorbed, a new one cannot collide.
pub proof fn lemma_insert_unique_distinct(xs: Seq<Seq<char>>, x: Seq<char>)
    requires
        distinct_names(xs),
    ensures
        distinct_names(insert_unique(xs, x)),
{
    if !xs.contains(x) {
        let ys = xs.push(x);
        assert forall|p: int, q: int| 0 <= p < q < ys.len() implies ys[p] != ys[q] by {
            if q == xs.len() {
                if ys[p] == x {
                    assert(xs[p] == x);
                    assert(xs.contains(x));
                }
            }
        }
    }
}

/// Insertion gives exactly one membership: the inserted name is present
/// afterwards, and no other name appears or disappears.
pub proof fn lemma_insert_unique_membership(xs: Seq<Seq<char>>, x: Seq<char>)
    ensures
        insert_unique(xs, x).contains(x),
        forall|y: Seq<char>| #[trigger] insert_unique(xs, x).contains(y) <==> (xs.contains(y) || y
            == x),
{
    if !xs.contains(x) {
        let ys = xs.push(x);
        assert(ys[xs.len() as int] == x);
        assert forall|y: Seq<char>| #[trigger] ys.contains(y) <==> (xs.contains(y) || y == x) by {
            if ys.contains(y) {
                let w = choose|w: int| 0 <= w < ys.len() && ys[w] == y;
                if w < xs.len() {
                    assert(xs[w] == y);
                }
            }
            if xs.contains(y) {
                let w = choose|w: int| 0 <= w < xs.len() && xs[w] == y;
                assert(ys[w] == y);
            }
        }
    }
}

/// The tag/link run keeps both sets duplicate-free, whatever it reads.
pub proof fn lemma_tags_links_distinct(
    s: Seq<char>,
    i: int,
    tags: Seq<Seq<char>>,
    links: Seq<Seq<char>>,
)
    requires
        0 <= i <= s.len(),
        distinct_names(tags),
        distinct_names(links),
    ensures
        distinct_names(spec_tags_links(s, i, tags, links).1),
        distinct_names(spec_tags_links(s, i, tags, links).2),
    decreases s.len() - i,
{
    match spec_space1(s, i) {
        SpecParse::Found { next: j, .. } => match spec_tag(s, j) {
            SpecParse::Found { next: k, val: name } => if i < k <= s.len() {
                lemma_insert_unique_distinct(tags, name);
                lemma_tags_links_distinct(s, k, insert_unique(tags, name), links);
            },
            SpecParse::Miss { .. } => match spec_link(s, j) {
                SpecParse::Found { next: k, val: name } => if i < k <= s.len() {
                    lemma_insert_unique_distinct(links, name);
                    lemma_tags_links_distinct(s, k, tags, insert_unique(links, name));
                },
                SpecParse::Miss { .. } => {
                },
            },
        },
        SpecParse::Miss { .. } => {
        },
    }
}

/// Set semantics of a transaction header: however often a tag or link is
/// repeated, the parsed transaction holds each name at most once.
pub proof fn lemma_transaction_sets_deduplicated(s: Seq<char>, i: int, flag: Option<char>)
    requires
        0 <= i <= s.len(),
    ensures
        match spec_transaction(s, i, flag) {
            SpecParse::Found { val, .. } => distinct_names(val.0.tags) && distinct_names(
                val.0.links,
            ),
            SpecParse::Miss { .. } => true,
        },
{
    let i1 = match spec_space1(s, i) {
        SpecParse::Found { next: j, .. } => match spec_payee_narration(s, j) {
            SpecParse::Found { next: m, .. } => m,
            SpecParse::Miss { .. } => i,
        },
        SpecParse::Miss { .. } => i,
    };
    match spec_space1(s, i) {
        SpecParse::Found { next: j, .. } => {
            crate::scan::lemma_scan_while(s, i, class_pred(CharClass::Space));
            crate::token::lemma_string_bounds(s, j);
            match crate::token::spec_string(s, j) {
                SpecParse::Found { next: j1, .. } => {
                    crate::scan::lemma_scan_while(s, j1, class_pred(CharClass::Space));
                    match spec_space1(s, j1) {
                        SpecParse::Found { next: k, .. } => {
                            crate::token::lemma_string_bounds(s, k);
                        },
                        SpecParse::Miss { .. } => {
                        },
                    }
                },
                SpecParse::Miss { .. } => {
                },
            }
        },
        SpecParse::Miss { .. } => {
        },
    }
    assert(0 <= i1 <= s.len());
    lemma_tags_links_distinct(
        s,
        i1,
        Seq::<Seq<char>>::empty(),
        Seq::<Seq<char>>::empty(),
    );
}

/// The run of postings only appends: everything already gathered keeps its
/// place and its order in the result.
pub proof fn lemma_postings_prefix(s: Seq<char>, i: int, acc: Seq<PostingV>)
    requires
        0 <= i <= s.len(),
    ensures
        spec_postings(s, i, acc).1.len() >= acc.len(),
        forall|k: int| 0 <= k < acc.len() ==> spec_postings(s, i, acc).1[k] == acc[k],
    decreases s.len() - i,
{
    match spec_posting(s, i) {
        SpecParse::Found { next: j, val: p } => if i < j <= s.len() {
            lemma_postings_prefix(s, j, acc.push(p));
            assert(spec_postings(s, i, acc) == spec_postings(s, j, acc.push(p)));
            assert forall|k: int| 0 <= k < acc.len() implies spec_postings(s, i, acc).1[k]
                == acc[k] by {
                assert(spec_postings(s, j, acc.push(p)).1[k] == acc.push(p)[k]);
            }
        },
        SpecParse::Miss { .. } => match spec_empty_line(s, i) {
            SpecParse::Found { next: j, .. } => if i < j <= s.len() {
                lemma_postings_prefix(s, j, acc);
                assert(spec_postings(s, i, acc) == spec_postings(s, j, acc));
            },
            SpecParse::Miss { .. } => {
            },
        },
    }
}

/// Source order of postings is preserved: the posting parsed at the head of
/// the run stands at the next free index of the result, before every
/// posting parsed after it.
pub proof fn lemma_postings_in_source_order(s: Seq<char>, i: int, acc: Seq<PostingV>)
    requires
        0 <= i <= s.len(),
    ensures
        match spec_posting(s, i) {
            SpecParse::Found { next: j, val: p } => i < j <= s.len() ==> {
                &&& spec_postings(s, i, acc).1 == spec_postings(s, j, acc.push(p)).1
                &&& spec_postings(s, i, acc).1.len() > acc.len()
                &&& spec_postings(s, i, acc).1[acc.len() as int] == p
            },
            SpecParse::Miss { .. } => true,
        },
{
    match spec_posting(s, i) {
        SpecParse::Found { next: j, val: p } => if i < j <= s.len() {
            lemma_postings_prefix(s, j, acc.push(p));
            assert(spec_postings(s, j, acc.push(p)).1[acc.len() as int] == acc.push(p)[acc.len() as int]);
        },
        SpecParse::Miss { .. } => {
        },
    }
}

/// `@@` is never read as `@` followed by a stray `@`: where two price
/// sigils stand, the price rule yields a total price or misses; it never
/// yields a unit price.
pub proof fn lemma_double_sigil_never_unit(s: Seq<char>, i: int)
    requires
        0 <= i,
        i + 1 < s.len(),
        s[i] == '@',
        s[i + 1] == '@',
    ensures
        !(spec_price(s, i) matches SpecParse::Found { val: PostingPriceV::Unit(_), .. }),
{
}

/// An account-only posting line is valid: indentation, an account token,
/// and the end of the line yield a posting whose amount, cost and price are
/// all absent.
pub proof fn lemma_account_only_posting(s: Seq<char>, i: int, j: int, k: int)
    requires
        0 <= i < j < k <= s.len(),
        forall|m: int| i <= m < j ==> crate::scan::is_space(s[m]),
        crate::scan::is_ascii_upper(s[j]),
        forall|m: int| j + 1 <= m < k ==> crate::scan::is_account_char(s[m]),
        k == s.len() || crate::scan::is_break(s[k]),
    ensures
        match spec_posting(s, i) {
            SpecParse::Found { val: p, .. } => {
                &&& p.flag is None
                &&& p.account == s.subrange(j, k)
                &&& p.amount is None
                &&& p.cost is None
                &&& p.price is None
            },
            SpecParse::Miss { .. } => false,
        },
{
    crate::scan::lemma_scan_while_is(s, i, j, class_pred(CharClass::Space));
    crate::scan::lemma_scan_while_is(s, j + 1, k, class_pred(CharClass::AccountChar));
    assert(spec_space1(s, i) == (SpecParse::<()>::Found { next: j, val: () }));
    if j + 1 < k {
        assert(crate::scan::is_account_char(s[j + 1]) && !crate::scan::is_space(s[j + 1]));
    }
    assert(spec_space1(s, j + 1) is Miss);
    assert(spec_account(s, j) == (SpecParse::<Seq<char>>::Found {
        next: k,
        val: s.subrange(j, k),
    }));
    assert(spec_space1(s, k) is Miss);
    assert(spec_posting_tail(s, k) == (k, None::<AmountV>, None::<CostV>, None::<
        PostingPriceV,
    >));
    crate::scan::lemma_scan_while_is(s, k, k, class_pred(CharClass::Space));
    assert(spec_end_of_line(s, k) is Found);
}

pub fn parse_transaction(input: &str, pos: usize, flag: Option<char>) -> (r: Result<
    (usize, Transaction, Vec<(String, String)>),
    ParseFail,
>)
    requires
        pos <= input@.len(),
    ensures
        match r {
            Ok((next, t, md)) => {
                &&& spec_transaction(input@, pos as int, flag) == (SpecParse::<
                    (TransactionV, Seq<(Seq<char>, Seq<char>)>),
                >::Found { next: next as int, val: (t@, kv_views(md@)) })
                &&& pos <= next <= input@.len()
            },
            Err(f) => {
                &&& spec_transaction(input@, pos as int, flag) == (SpecParse::<
                    (TransactionV, Seq<(Seq<char>, Seq<char>)>),
                >::Miss { at: f.at as int, hard: f.hard })
                &&& f.hard
                &&& f.at <= input@.len()
            },
        },
{
    let (i1, payee, narration) = match parse_space1(input, pos) {
        Ok(j) => match parse_payee_narration(input, j) {
            Ok((m, p, nr)) => (m, p, Some(nr)),
            Err(_) => (pos, None, None),
        },
        Err(_) => (pos, None, None),
    };
    let (i2, tags, links) = parse_tags_links(input, i1);
    let i3 = match parse_end_of_line(input, i2) {
        Ok(x) => x,
        Err(f) => {
            return Err(f.committed());
        },
    };
    let (i4, md) = parse_metadata(input, i3);
    let (i5, postings) = parse_postings(input, i4);
    Ok((i5, Transaction { flag, payee, narration, tags, links, postings }, md))
}

} // verus!
