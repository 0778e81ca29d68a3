//! A parser for a plain-text, line-oriented accounting ledger format.
//!
//! The input is a whole UTF-8 text buffer; the output is an ordered sequence
//! of dated directives, or a single [`Error`] pinpointing the first position
//! at which no grammar rule could continue. Every rule of the grammar has a
//! specification-level twin (`spec_...`) that defines exactly what it
//! consumes and what it yields; the executable parser is proved to agree
//! with those twins on every input.

use vstd::prelude::*;
use vstd::string::*;

pub mod amount;
pub mod cost;
pub mod date;
pub mod line;
pub mod metadata;
pub mod open;
pub mod outcome;
pub mod scan;
pub mod token;
pub mod transaction;

pub use crate::amount::Amount;
pub use crate::cost::Cost;
pub use crate::date::Date;
pub use crate::open::Open;
pub use crate::transaction::{Account, Link, Posting, PostingPrice, Tag, Transaction};

use crate::date::{spec_date, parse_date};
use crate::metadata::kv_views;
use crate::open::{OpenV, spec_open, parse_open};
use crate::outcome::{ParseFail, SpecParse};
use crate::scan::{is_ascii_lower, is_ascii_lower_char, skip_line, skip_line_exec, spec_space1,
    parse_space1};
use crate::transaction::{TransactionV, spec_transaction, parse_transaction};

verus! {

// ---------------------------------------------------------------------------
// The document.
// ---------------------------------------------------------------------------

/// A whole parsed ledger: its directives in source order.
#[derive(Debug)]
pub struct BeancountFile {
    /// The directives, in the order they stand in the input.
    pub directives: Vec<Directive>,
}

/// One dated top-level statement of the ledger.
#[derive(Debug, Clone)]
pub struct Directive {
    /// The date the directive line starts with.
    pub date: Date,
    /// What the directive says.
    pub content: DirectiveContent,
    /// The metadata lines attached to the directive itself.
    pub metadata: Vec<(String, String)>,
}

/// The body of a directive, discriminated by the keyword (or transaction
/// trigger) that followed its date.
#[derive(Debug, Clone)]
pub enum DirectiveContent {
    /// An `open` directive.
    Open(Open),
    /// A transaction, triggered by a flag character or the `txn` keyword.
    Transaction(Transaction),
}

/// The mathematical content of a [`Directive`].
pub struct DirectiveV {
    pub date: Date,
    pub content: DirectiveContentV,
    pub metadata: Seq<(Seq<char>, Seq<char>)>,
}

pub enum DirectiveContentV {
    Open(OpenV),
    Transaction(TransactionV),
}

impl View for DirectiveContent {
    type V = DirectiveContentV;

    open spec fn view(&self) -> DirectiveContentV {
        match self {
            DirectiveContent::Open(o) => DirectiveContentV::Open(o@),
            DirectiveContent::Transaction(t) => DirectiveContentV::Transaction(t@),
        }
    }
}

impl View for Directive {
    type V = DirectiveV;

    open spec fn view(&self) -> DirectiveV {
        DirectiveV { date: self.date, content: self.content@, metadata: kv_views(self.metadata@) }
    }
}

pub open spec fn directive_views(ds: Seq<Directive>) -> Seq<DirectiveV> {
    ds.map_values(|d: Directive| d@)
}

impl View for BeancountFile {
    type V = Seq<DirectiveV>;

    open spec fn view(&self) -> Seq<DirectiveV> {
        directive_views(self.directives@)
    }
}

// ---------------------------------------------------------------------------
// Error positions.
// ---------------------------------------------------------------------------

/// A parse error: the first position, in the left-to-right pass, at which no
/// grammar rule could continue.
#[derive(Debug, Clone, Copy, PartialEq, Eq, Structural)]
pub struct Error {
    /// Offset of the failure, in characters from the start of the input.
    pub offset: usize,
    /// One-based line number of the failure.
    pub line: usize,
    /// One-based column number (in characters) of the failure.
    pub column: usize,
}

/// One more, held below the machine's limit; line and column numbers
/// saturate there rather than wrap.
pub open spec fn bump(x: int) -> int {
    if x < usize::MAX as int {
        x + 1
    } else {
        x
    }
}

/// The one-based line and column of the character offset `off`: a line break
/// starts a new line, any other character widens the current column.
pub open spec fn line_col(s: Seq<char>, off: int) -> (int, int)
    decreases off
        when 0 <= off <= s.len()
{
    if off <= 0 {
        (1int, 1int)
    } else {
        let p = line_col(s, off - 1);
        if s[off - 1] == '\n' {
            (bump(p.0), 1int)
        } else {
            (p.0, bump(p.1))
        }
    }
}

/// Computes the line and column of a character offset.
pub fn location(input: &str, off: usize) -> (r: (usize, usize))
    requires
        off <= input@.len(),
    ensures
        (r.0 as int, r.1 as int) == line_col(input@, off as int),
{
    let mut i: usize = 0;
    let mut l: usize = 1;
    let mut c: usize = 1;
    while i < off
        invariant
            0 <= i <= off <= input@.len(),
            (l as int, c as int) == line_col(input@, i as int),
        decreases off - i,
    {
        if input.get_char(i) == '\n' {
            if l < usize::MAX {
                l = l + 1;
            }
            c = 1;
        } else {
            if c < usize::MAX {
                c = c + 1;
            }
        }
        i = i + 1;
    }
    (l, c)
}

// ---------------------------------------------------------------------------
// The directive dispatcher.
// ---------------------------------------------------------------------------

pub open spec fn open_kw_at(s: Seq<char>, k: int) -> bool {
    &&& k + 4 <= s.len()
    &&& s[k] == 'o'
    &&& s[k + 1] == 'p'
    &&& s[k + 2] == 'e'
    &&& s[k + 3] == 'n'
}

pub open spec fn txn_kw_at(s: Seq<char>, k: int) -> bool {
    &&& k + 3 <= s.len()
    &&& s[k] == 't'
    &&& s[k + 1] == 'x'
    &&& s[k + 2] == 'n'
}

/// The directive rule: a date, mandatory whitespace, then the directive
/// keyword or transaction trigger. Until a keyword or trigger is
/// recognized, every failure is recoverable and the file loop treats the
/// line as an ordinary skipped line; from the keyword on, the body's
/// failures are committed and surface unchanged.
pub open spec fn spec_directive(s: Seq<char>, i: int) -> SpecParse<DirectiveV>
    recommends
        0 <= i <= s.len(),
{
    match spec_date(s, i) {
        SpecParse::Miss { .. } => SpecParse::Miss { at: i, hard: false },
        SpecParse::Found { next: j, val: date } => match spec_space1(s, j) {
            SpecParse::Miss { at, .. } => SpecParse::Miss { at, hard: false },
            SpecParse::Found { next: k, .. } => {
                if open_kw_at(s, k) {
                    match spec_open(s, k + 4) {
                        SpecParse::Miss { at, hard } => SpecParse::Miss { at, hard },
                        SpecParse::Found { next: e, val: o } => SpecParse::Found {
                            next: e,
                            val: DirectiveV {
                                date,
                                content: DirectiveContentV::Open(o),
                                metadata: Seq::<(Seq<char>, Seq<char>)>::empty(),
                            },
                        },
                    }
                } else if k < s.len() && !is_ascii_lower(s[k]) {
                    match spec_transaction(s, k + 1, Some(s[k])) {
                        SpecParse::Miss { at, hard } => SpecParse::Miss { at, hard },
                        SpecParse::Found { next: e, val: tm } => SpecParse::Found {
                            next: e,
                            val: DirectiveV {
                                date,
                                content: DirectiveContentV::Transaction(tm.0),
                                metadata: tm.1,
                            },
                        },
                    }
                } else if txn_kw_at(s, k) {
                    match spec_transaction(s, k + 3, None) {
                        SpecParse::Miss { at, hard } => SpecParse::Miss { at, hard },
                        SpecParse::Found { next: e, val: tm } => SpecParse::Found {
                            next: e,
                            val: DirectiveV {
                                date,
                                content: DirectiveContentV::Transaction(tm.0),
                                metadata: tm.1,
                            },
                        },
                    }
                } else {
                    SpecParse::Miss { at: k, hard: false }
                }
            },
        },
    }
}

pub fn parse_directive(input: &str, pos: usize) -> (r: Result<(usize, Directive), ParseFail>)
    requires
        pos <= input@.len(),
    ensures
        match r {
            Ok((next, v)) => {
                &&& spec_directive(input@, pos as int) == (SpecParse::<DirectiveV>::Found {
                    next: next as int,
                    val: v@,
                })
                &&& pos < next <= input@.len()
            },
            Err(f) => {
                &&& spec_directive(input@, pos as int) == (SpecParse::<DirectiveV>::Miss {
                    at: f.at as int,
                    hard: f.hard,
                })
                &&& f.at <= input@.len()
            },
        },
{
    let n = input.unicode_len();
    let (j, date) = match parse_date(input, pos) {
        Ok(x) => x,
        Err(_) => {
            return Err(ParseFail { at: pos, hard: false });
        },
    };
    let k = match parse_space1(input, j) {
        Ok(x) => x,
        Err(f) => {
            return Err(ParseFail { at: f.at, hard: false });
        },
    };
    if n - k >= 4 && input.get_char(k) == 'o' && input.get_char(k + 1) == 'p' && input.get_char(
        k + 2,
    ) == 'e' && input.get_char(k + 3) == 'n' {
        match parse_open(input, k + 4) {
            Ok((e, o)) => {
                let md: Vec<(String, String)> = Vec::new();
                proof {
                    assert(kv_views(md@) =~= Seq::<(Seq<char>, Seq<char>)>::empty());
                }
                Ok((e, Directive { date, content: DirectiveContent::Open(o), metadata: md }))
            },
            Err(f) => Err(f),
        }
    } else if k < n && !is_ascii_lower_char(input.get_char(k)) {
        let flag = input.get_char(k);
        match parse_transaction(input, k + 1, Some(flag)) {
            Ok((e, t, md)) => Ok(
                (e, Directive { date, content: DirectiveContent::Transaction(t), metadata: md }),
            ),
            Err(f) => Err(f),
        }
    } else if n - k >= 3 && input.get_char(k) == 't' && input.get_char(k + 1) == 'x'
        && input.get_char(k + 2) == 'n' {
        match parse_transaction(input, k + 3, None) {
            Ok((e, t, md)) => Ok(
                (e, Directive { date, content: DirectiveContent::Transaction(t), metadata: md }),
            ),
            Err(f) => Err(f),
        }
    } else {
        Err(ParseFail { at: k, hard: false })
    }
}

// ---------------------------------------------------------------------------
// The file loop.
// ---------------------------------------------------------------------------

/// The whole-file rule: from `i` to the end of the input, a directive or a
/// skipped line at every step, the directives gathered in source order onto
/// the accumulator. A committed failure anywhere stops the whole parse; a
/// recoverable one turns the line into a skipped line.
pub open spec fn spec_ledger(s: Seq<char>, i: int, acc: Seq<DirectiveV>) -> SpecParse<
    Seq<DirectiveV>,
>
    decreases s.len() - i
        when 0 <= i <= s.len()
{
    if i >= s.len() {
        SpecParse::Found { next: i, val: acc }
    } else {
        match spec_directive(s, i) {
            SpecParse::Found { next: j, val: d } => if i < j <= s.len() {
                spec_ledger(s, j, acc.push(d))
            } else {
                SpecParse::Miss { at: i, hard: true }
            },
            SpecParse::Miss { at, hard: true } => SpecParse::Miss { at, hard: true },
            SpecParse::Miss { at: _, hard: false } => {
                let j = skip_line(s, i);
                if i < j <= s.len() {
                    spec_ledger(s, j, acc)
                } else {
                    SpecParse::Miss { at: i, hard: true }
                }
            },
        }
    }
}

// ---------------------------------------------------------------------------
// Laws.
// ---------------------------------------------------------------------------

/// Every line from `i` on is blank or a comment: optional spaces, then
/// nothing, a line break, or a `;` that turns the rest of the line into a
/// comment.
pub open spec fn blank_or_comment_from(s: Seq<char>, i: int) -> bool
    decreases s.len() - i
        when 0 <= i <= s.len()
{
    if i >= s.len() {
        true
    } else {
        let j = crate::scan::scan_while(s, i, crate::scan::class_pred(
            crate::scan::CharClass::Space,
        ));
        let j2 = skip_line(s, i);
        &&& (j == s.len() || s[j] == ';' || crate::scan::is_break(s[j]))
        &&& i < j2 <= s.len()
        &&& blank_or_comment_from(s, j2)
    }
}

/// An input consisting solely of blank lines and comments parses, and
/// yields no directive beyond those already gathered: each such line starts
/// with a space, a `;` or a line break, so no date ever matches and every
/// line is skipped.
pub proof fn lemma_blank_input_parses_empty(s: Seq<char>, i: int, acc: Seq<DirectiveV>)
    requires
        0 <= i <= s.len(),
        blank_or_comment_from(s, i),
    ensures
        spec_ledger(s, i, acc) == (SpecParse::<Seq<DirectiveV>>::Found {
            next: s.len() as int,
            val: acc,
        }),
    decreases s.len() - i,
{
    if i < s.len() {
        let j = crate::scan::scan_while(s, i, crate::scan::class_pred(
            crate::scan::CharClass::Space,
        ));
        crate::scan::lemma_scan_while(s, i, crate::scan::class_pred(
            crate::scan::CharClass::Space,
        ));
        if j > i {
            assert(crate::scan::is_space(s[i]));
        } else {
            assert(s[i] == ';' || crate::scan::is_break(s[i]));
        }
        assert(!crate::scan::is_digit(s[i]));
        assert(!crate::date::date_matches(s, i));
        assert(spec_directive(s, i) == (SpecParse::<DirectiveV>::Miss { at: i, hard: false }));
        lemma_blank_input_parses_empty(s, skip_line(s, i), acc);
    }
}

/// The tag and link sets of a directive hold each name at most once.
pub open spec fn directive_sets_distinct(d: DirectiveV) -> bool {
    match d.content {
        DirectiveContentV::Transaction(t) => crate::transaction::distinct_names(t.tags)
            && crate::transaction::distinct_names(t.links),
        DirectiveContentV::Open(_) => true,
    }
}

/// Whatever directive the dispatcher yields, its tag and link sets are
/// duplicate-free.
pub proof fn lemma_directive_sets_distinct(s: Seq<char>, i: int)
    requires
        0 <= i <= s.len(),
    ensures
        match spec_directive(s, i) {
            SpecParse::Found { val, .. } => directive_sets_distinct(val),
            SpecParse::Miss { .. } => true,
        },
{
    match spec_date(s, i) {
        SpecParse::Found { next: j, .. } => match spec_space1(s, j) {
            SpecParse::Found { next: k, .. } => {
                crate::scan::lemma_scan_while(s, j, crate::scan::class_pred(
                    crate::scan::CharClass::Space,
                ));
                if open_kw_at(s, k) {
                } else if k < s.len() && !is_ascii_lower(s[k]) {
                    crate::transaction::lemma_transaction_sets_deduplicated(s, k + 1, Some(s[k]));
                } else if txn_kw_at(s, k) {
                    crate::transaction::lemma_transaction_sets_deduplicated(s, k + 3, None);
                }
            },
            SpecParse::Miss { .. } => {
            },
        },
        SpecParse::Miss { .. } => {
        },
    }
}

/// Set semantics hold across a whole parsed document: every transaction in
/// it has duplicate-free tag and link sets, however its header was written.
pub proof fn lemma_ledger_sets_distinct(s: Seq<char>, i: int, acc: Seq<DirectiveV>)
    requires
        0 <= i <= s.len(),
        forall|k: int| 0 <= k < acc.len() ==> directive_sets_distinct(#[trigger] acc[k]),
    ensures
        match spec_ledger(s, i, acc) {
            SpecParse::Found { val, .. } => forall|k: int|
                0 <= k < val.len() ==> directive_sets_distinct(#[trigger] val[k]),
            SpecParse::Miss { .. } => true,
        },
    decreases s.len() - i,
{
    if i < s.len() {
        match spec_directive(s, i) {
            SpecParse::Found { next: j, val: d } => if i < j <= s.len() {
                lemma_directive_sets_distinct(s, i);
                assert(forall|k: int|
                    0 <= k < acc.push(d).len() ==> directive_sets_distinct(
                        #[trigger] acc.push(d)[k],
                    ));
                lemma_ledger_sets_distinct(s, j, acc.push(d));
            },
            SpecParse::Miss { at: _, hard: true } => {
            },
            SpecParse::Miss { at: _, hard: false } => {
                let j = skip_line(s, i);
                if i < j <= s.len() {
                    lemma_ledger_sets_distinct(s, j, acc);
                }
            },
        }
    }
}

/// A committed failure is reported, never skipped: once the directive rule
/// stops hard at a position, the whole-file rule stops hard at that same
/// position, whatever stood in the file before it.
pub proof fn lemma_committed_failure_surfaces(s: Seq<char>, i: int, acc: Seq<DirectiveV>)
    requires
        0 <= i < s.len(),
    ensures
        match spec_directive(s, i) {
            SpecParse::Miss { at, hard: true } => spec_ledger(s, i, acc) == (SpecParse::<
                Seq<DirectiveV>,
            >::Miss { at, hard: true }),
            _ => true,
        },
{
}

/// Parses a whole ledger text.
///
/// On success the directives are exactly those the whole-file rule yields
/// for this input, in source order, with all of the input consumed. On
/// failure the error carries the position of the first committed failure,
/// with its line and column.
pub fn parse(input: &str) -> (r: Result<BeancountFile, Error>)
    ensures
        match r {
            Ok(f) => spec_ledger(input@, 0, Seq::<DirectiveV>::empty()) == (SpecParse::<
                Seq<DirectiveV>,
            >::Found { next: input@.len() as int, val: f@ }),
            Err(e) => {
                &&& spec_ledger(input@, 0, Seq::<DirectiveV>::empty()) == (SpecParse::<
                    Seq<DirectiveV>,
                >::Miss { at: e.offset as int, hard: true })
                &&& e.offset <= input@.len()
                &&& (e.line as int, e.column as int) == line_col(input@, e.offset as int)
            },
        },
{
    let n = input.unicode_len();
    let mut cur: usize = 0;
    let mut out: Vec<Directive> = Vec::new();
    proof {
        assert(directive_views(out@) =~= Seq::<DirectiveV>::empty());
    }
    loop
        invariant
            0 <= cur <= input@.len(),
            n == input@.len(),
            spec_ledger(input@, 0, Seq::<DirectiveV>::empty()) == spec_ledger(
                input@,
                cur as int,
                directive_views(out@),
            ),
        decreases input@.len() - cur,
    {
        if cur == n {
            return Ok(BeancountFile { directives: out });
        }
        match parse_directive(input, cur) {
            Ok((j, d)) => {
                proof {
                    assert(directive_views(out@.push(d)) =~= directive_views(out@).push(d@));
                }
                out.push(d);
                cur = j;
            },
            Err(f) => {
                if f.hard {
                    let (l, c) = location(input, f.at);
                    return Err(Error { offset: f.at, line: l, column: c });
                }
                cur = skip_line_exec(input, cur);
            },
        }
    }
}

} // verus!
