use vstd::prelude::*;

verus! {

/// The outcome of running a grammar rule at a position of the input, as the
/// specification sees it: either the rule matched, yielding the position just
/// after the consumed prefix and the parsed value, or it stopped at a
/// position. A stop is *soft* when an enclosing alternation may try another
/// branch, and *hard* once a directive keyword has been recognized and the
/// failure must surface to the caller unchanged.
pub enum SpecParse<V> {
    Found { next: int, val: V },
    Miss { at: int, hard: bool },
}

/// A failed parse attempt, as executable code reports it: the position at
/// which matching stopped, and whether the failure is committed (hard).
pub struct ParseFail {
    pub at: usize,
    pub hard: bool,
}

impl ParseFail {
    /// The committed form of this failure: same position, but no longer
    /// recoverable by an enclosing alternation.
    pub fn committed(self) -> (r: ParseFail)
        ensures
            r.at == self.at,
            r.hard,
    {
        ParseFail { at: self.at, hard: true }
    }
}

} // verus!
