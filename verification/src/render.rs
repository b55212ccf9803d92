//! The aggregator and formatter: consume the outcomes of one scope and
//! produce its stdout lines, stderr lines, and grand total.

use vstd::prelude::*;
use crate::lines::{count_line, spec_count_line, spec_total_line, total_line};
use crate::numerals::{dec_seq, lemma_dec_seq_len, num_digits, width_of};
use crate::outcome::{lemma_sum_is_sum_of_counted, max_count, sum_counts, ErrorKind, Outcome};

verus! {

/// Sum of the totals handed back by recursive descents.
pub open spec fn sum_usizes(s: Seq<usize>) -> int
    decreases s.len(),
{
    if s.len() == 0 {
        0
    } else {
        sum_usizes(s.drop_last()) + s.last()
    }
}

/// The grand total of one scope: the counts of its successful outcomes plus
/// the totals of its recursive descents. Failed units contribute nothing.
pub open spec fn spec_scope_total(outcomes: Seq<Outcome>, subtotals: Seq<usize>) -> int {
    sum_counts(outcomes) + sum_usizes(subtotals)
}

/// The column width of one scope: the number of decimal digits of the
/// largest successful count (one digit when nothing succeeded).
pub open spec fn scope_width(outcomes: Seq<Outcome>) -> nat {
    num_digits(max_count(outcomes))
}

/// The stdout lines of one outcome: a successful count's aligned line; a
/// rejected directory's diagnostic verbatim; nothing for any other failure.
pub open spec fn outcome_out_lines(o: Outcome, width: nat) -> Seq<Seq<char>> {
    match o {
        Outcome::Counted { count, label } => seq![
            spec_count_line(count as nat, width, label.deep_view()),
        ],
        Outcome::Failed { kind, message, .. } => if kind is IsADirectory {
            seq![message@]
        } else {
            Seq::empty()
        },
    }
}

/// The stderr lines of one outcome: every failure's diagnostic except the
/// rejected directory's, which goes to stdout instead.
pub open spec fn outcome_err_lines(o: Outcome) -> Seq<Seq<char>> {
    match o {
        Outcome::Counted { .. } => Seq::empty(),
        Outcome::Failed { kind, message, .. } => if kind is IsADirectory {
            Seq::empty()
        } else {
            seq![message@]
        },
    }
}

/// The stdout lines of a batch of outcomes, in batch order.
pub open spec fn spec_out_lines(s: Seq<Outcome>, width: nat) -> Seq<Seq<char>>
    decreases s.len(),
{
    if s.len() == 0 {
        Seq::empty()
    } else {
        spec_out_lines(s.drop_last(), width) + outcome_out_lines(s.last(), width)
    }
}

/// The stderr lines of a batch of outcomes, in batch order.
pub open spec fn spec_err_lines(s: Seq<Outcome>) -> Seq<Seq<char>>
    decreases s.len(),
{
    if s.len() == 0 {
        Seq::empty()
    } else {
        spec_err_lines(s.drop_last()) + outcome_err_lines(s.last())
    }
}

/// All stdout lines of one scope: the per-outcome lines in order, then,
/// only when the scope was given two or more arguments, the total line.
pub open spec fn spec_scope_out_lines(s: Seq<Outcome>, total: nat, nargs: nat) -> Seq<Seq<char>> {
    spec_out_lines(s, scope_width(s)) + if nargs > 1 {
        seq![spec_total_line(total, scope_width(s))]
    } else {
        Seq::empty()
    }
}

proof fn lemma_sum_counts_take_le(s: Seq<Outcome>, i: int)
    requires
        0 <= i <= s.len(),
    ensures
        sum_counts(s.take(i)) <= sum_counts(s),
    decreases s.len() - i,
{
    if i < s.len() {
        assert(s.take(i + 1).drop_last() =~= s.take(i));
        lemma_sum_counts_take_le(s, i + 1);
    } else {
        assert(s.take(i) =~= s);
    }
}

proof fn lemma_sum_usizes_take_le(s: Seq<usize>, i: int)
    requires
        0 <= i <= s.len(),
    ensures
        sum_usizes(s.take(i)) <= sum_usizes(s),
    decreases s.len() - i,
{
    if i < s.len() {
        assert(s.take(i + 1).drop_last() =~= s.take(i));
        lemma_sum_usizes_take_le(s, i + 1);
    } else {
        assert(s.take(i) =~= s);
    }
}

/// The largest successful count of the batch.
pub fn max_of(outcomes: &Vec<Outcome>) -> (m: usize)
    ensures
        m as nat == max_count(outcomes@),
{
    let mut m: usize = 0;
    let mut i: usize = 0;
    while i < outcomes.len()
        invariant
            i <= outcomes@.len(),
            m as nat == max_count(outcomes@.take(i as int)),
        decreases outcomes@.len() - i,
    {
        match &outcomes[i] {
            Outcome::Counted { count, .. } => {
                if *count > m {
                    m = *count;
                }
            },
            Outcome::Failed { .. } => {},
        }
        i = i + 1;
        proof {
            assert(outcomes@.take(i as int).drop_last() =~= outcomes@.take(i as int - 1));
        }
    }
    proof {
        assert(outcomes@.take(outcomes@.len() as int) =~= outcomes@);
    }
    m
}

/// The scope's grand total, unless it would not fit the machine's integer
/// range.
pub fn try_scope_total(outcomes: &Vec<Outcome>, subtotals: &Vec<usize>) -> (r: Option<usize>)
    ensures
        r matches Some(t) ==> t == spec_scope_total(outcomes@, subtotals@),
        r is None ==> spec_scope_total(outcomes@, subtotals@) > usize::MAX,
{
    let mut total: usize = 0;
    let mut i: usize = 0;
    while i < outcomes.len()
        invariant
            i <= outcomes@.len(),
            total == sum_counts(outcomes@.take(i as int)),
        decreases outcomes@.len() - i,
    {
        let c: usize = match &outcomes[i] {
            Outcome::Counted { count, .. } => *count,
            Outcome::Failed { .. } => 0,
        };
        proof {
            assert(outcomes@.take(i as int + 1).drop_last() =~= outcomes@.take(i as int));
        }
        match total.checked_add(c) {
            Some(t) => {
                total = t;
            },
            None => {
                proof {
                    lemma_sum_counts_take_le(outcomes@, i as int + 1);
                    lemma_sum_usizes_take_le(subtotals@, 0);
                    assert(subtotals@.take(0) =~= Seq::<usize>::empty());
                }
                return None;
            },
        }
        i = i + 1;
    }
    proof {
        assert(outcomes@.take(outcomes@.len() as int) =~= outcomes@);
    }
    let mut j: usize = 0;
    while j < subtotals.len()
        invariant
            j <= subtotals@.len(),
            total == sum_counts(outcomes@) + sum_usizes(subtotals@.take(j as int)),
        decreases subtotals@.len() - j,
    {
        let s: usize = subtotals[j];
        proof {
            assert(subtotals@.take(j as int + 1).drop_last() =~= subtotals@.take(j as int));
        }
        match total.checked_add(s) {
            Some(t) => {
                total = t;
            },
            None => {
                proof {
                    lemma_sum_usizes_take_le(subtotals@, j as int + 1);
                }
                return None;
            },
        }
        j = j + 1;
    }
    proof {
        assert(subtotals@.take(subtotals@.len() as int) =~= subtotals@);
    }
    Some(total)
}

/// Everything one scope prints, and its grand total.
pub struct Rendered {
    pub out_lines: Vec<String>,
    pub err_lines: Vec<String>,
    pub total: usize,
}

/// Render one scope of outcomes: one stdout line per successful count and
/// per rejected directory, one stderr line per other failure, and, when the
/// scope was given two or more arguments, a trailing total line in the same
/// column width. The total is the sum of the successful counts plus the
/// subtotals of recursive descents; it is `None` exactly when that sum does
/// not fit the machine's integer range.
pub fn render_scope(outcomes: &Vec<Outcome>, subtotals: &Vec<usize>, nargs: usize) -> (r: Option<
    Rendered,
>)
    ensures
        r is Some <==> spec_scope_total(outcomes@, subtotals@) <= usize::MAX,
        r matches Some(rr) ==> ({
            &&& rr.total == spec_scope_total(outcomes@, subtotals@)
            &&& rr.out_lines.deep_view() == spec_scope_out_lines(
                outcomes@,
                rr.total as nat,
                nargs as nat,
            )
            &&& rr.err_lines.deep_view() == spec_err_lines(outcomes@)
        }),
{
    let total = match try_scope_total(outcomes, subtotals) {
        Some(t) => t,
        None => {
            return None;
        },
    };
    let maxc = max_of(outcomes);
    let width = width_of(maxc);
    let mut out_lines: Vec<String> = Vec::new();
    let mut err_lines: Vec<String> = Vec::new();
    let mut i: usize = 0;
    while i < outcomes.len()
        invariant
            i <= outcomes@.len(),
            width as nat == scope_width(outcomes@),
            out_lines.deep_view() == spec_out_lines(outcomes@.take(i as int), scope_width(
                outcomes@,
            )),
            err_lines.deep_view() == spec_err_lines(outcomes@.take(i as int)),
        decreases outcomes@.len() - i,
    {
        match &outcomes[i] {
            Outcome::Counted { count, label } => {
                let line = count_line(*count, width, label);
                out_lines.push(line);
            },
            Outcome::Failed { kind, message, .. } => {
                match kind {
                    ErrorKind::IsADirectory => out_lines.push(message.clone()),
                    _ => err_lines.push(message.clone()),
                }
            },
        }
        i = i + 1;
        proof {
            assert(outcomes@.take(i as int).drop_last() =~= outcomes@.take(i as int - 1));
            assert(out_lines.deep_view() =~~= spec_out_lines(outcomes@.take(i as int), scope_width(
                outcomes@,
            )));
            assert(err_lines.deep_view() =~~= spec_err_lines(outcomes@.take(i as int)));
        }
    }
    proof {
        assert(outcomes@.take(outcomes@.len() as int) =~= outcomes@);
    }
    if nargs > 1 {
        let tline = total_line(total, width);
        out_lines.push(tline);
    }
    proof {
        assert(out_lines.deep_view() =~~= spec_scope_out_lines(
            outcomes@,
            total as nat,
            nargs as nat,
        ));
    }
    Some(Rendered { out_lines, err_lines, total })
}

/// A pattern that matches nothing contributes no outcome: an empty batch
/// renders no stdout line, no stderr line, and a zero sum.
pub proof fn lemma_empty_batch_is_silent(width: nat)
    ensures
        spec_out_lines(Seq::<Outcome>::empty(), width) == Seq::<Seq<char>>::empty(),
        spec_err_lines(Seq::<Outcome>::empty()) == Seq::<Seq<char>>::empty(),
        sum_counts(Seq::<Outcome>::empty()) == 0,
{
}

/// The column width of a scope is the length of the decimal numeral of its
/// largest successful count.
pub proof fn lemma_width_is_numeral_len(s: Seq<Outcome>)
    ensures
        scope_width(s) == dec_seq(max_count(s)).len(),
{
    lemma_dec_seq_len(max_count(s));
}

/// The grand total of a scope without recursive descents is the sum over
/// its `Counted` outcomes alone: failed units contribute nothing.
pub proof fn lemma_total_is_sum_of_counted(outcomes: Seq<Outcome>)
    ensures
        spec_scope_total(outcomes, Seq::<usize>::empty()) == sum_counts(
            outcomes.filter(|o: Outcome| o.is_counted()),
        ),
{
    lemma_sum_is_sum_of_counted(outcomes);
}

/// With a single argument no total line is appended; with two or more, the
/// total line is the last stdout line of the scope, after the per-outcome
/// lines.
pub proof fn lemma_total_line_iff_many_args(s: Seq<Outcome>, total: nat, nargs: nat)
    ensures
        nargs <= 1 ==> spec_scope_out_lines(s, total, nargs) == spec_out_lines(s, scope_width(s)),
        nargs > 1 ==> spec_scope_out_lines(s, total, nargs) == spec_out_lines(
            s,
            scope_width(s),
        ).push(spec_total_line(total, scope_width(s))),
{
    if nargs <= 1 {
        assert(spec_scope_out_lines(s, total, nargs) =~= spec_out_lines(s, scope_width(s)));
    } else {
        assert(spec_scope_out_lines(s, total, nargs) =~= spec_out_lines(s, scope_width(s)).push(
            spec_total_line(total, scope_width(s)),
        ));
    }
}

/// Rendering reads nothing but the outcomes, the subtotals and the argument
/// count: two scopes over equal inputs print identical lines and identical
/// totals.
pub proof fn lemma_rendering_deterministic(
    a: Seq<Outcome>,
    b: Seq<Outcome>,
    total_a: nat,
    total_b: nat,
    nargs_a: nat,
    nargs_b: nat,
)
    requires
        a == b,
        total_a == total_b,
        nargs_a == nargs_b,
    ensures
        spec_scope_out_lines(a, total_a, nargs_a) == spec_scope_out_lines(b, total_b, nargs_b),
        spec_err_lines(a) == spec_err_lines(b),
{
}

} // verus!
