//! The per-unit outcome type and the spec-level accounting over a batch of
//! outcomes: each unit's contribution to the grand total and the largest
//! successful count, which drives the column width.

use vstd::prelude::*;

verus! {

/// The class of a per-unit failure. Every failure is reported as a
/// diagnostic line and never aborts the run.
pub enum ErrorKind {
    /// Malformed glob pattern syntax.
    Pattern,
    /// Filesystem error while enumerating a pattern's matches.
    Match,
    /// A directory was matched while recursion was disabled.
    IsADirectory,
    /// A concrete file or stdin could not be opened or read.
    Io,
    /// The content was not valid UTF-8.
    Encoding,
    /// The tokenizer rejected the content.
    Tokenization,
}

/// The result of processing one concrete input unit: either a token count
/// with the unit's display label (absent for stdin), or a failure carrying
/// its pre-formatted diagnostic line.
pub enum Outcome {
    Counted { count: usize, label: Option<String> },
    Failed { label: Option<String>, kind: ErrorKind, message: String },
}

impl Outcome {
    /// How many tokens this outcome contributes to a total: failures
    /// contribute zero.
    pub open spec fn spec_count(self) -> nat {
        match self {
            Outcome::Counted { count, .. } => count as nat,
            Outcome::Failed { .. } => 0,
        }
    }

    pub open spec fn is_counted(self) -> bool {
        self is Counted
    }
}

/// Sum of the counts of all `Counted` outcomes in the batch.
pub open spec fn sum_counts(s: Seq<Outcome>) -> int
    decreases s.len(),
{
    if s.len() == 0 {
        0
    } else {
        sum_counts(s.drop_last()) + s.last().spec_count()
    }
}

/// The largest successful count in the batch; zero when no unit succeeded.
pub open spec fn max_count(s: Seq<Outcome>) -> nat
    decreases s.len(),
{
    if s.len() == 0 {
        0
    } else if s.last().spec_count() >= max_count(s.drop_last()) {
        s.last().spec_count()
    } else {
        max_count(s.drop_last())
    }
}

/// The grand total is the sum over the `Counted` outcomes alone: dropping
/// the failed outcomes from a batch does not change its sum.
pub proof fn lemma_sum_is_sum_of_counted(s: Seq<Outcome>)
    ensures
        sum_counts(s) == sum_counts(s.filter(|o: Outcome| o.is_counted())),
    decreases s.len(),
{
    reveal(Seq::filter);
    if s.len() > 0 {
        lemma_sum_is_sum_of_counted(s.drop_last());
        let f = s.filter(|o: Outcome| o.is_counted());
        let fd = s.drop_last().filter(|o: Outcome| o.is_counted());
        if s.last().is_counted() {
            assert(f =~= fd.push(s.last()));
            assert(f.drop_last() =~= fd);
        } else {
            assert(f =~= fd);
        }
    }
}

} // verus!
