//! The exact text of every line the tool prints: count lines, the total
//! line, and the per-unit diagnostic lines.

use vstd::prelude::*;
use vstd::string::StrSliceExecFns;
use vstd::string::StringExecFns;
use crate::numerals::{aligned, dec_seq, pad_left, to_decimal};

verus! {

/// The stdout line for a successful count: the right-aligned numeral, then,
/// when the unit has a label, one space and the label. A stdin unit has no
/// label and gets the bare aligned numeral.
pub open spec fn spec_count_line(count: nat, width: nat, label: Option<Seq<char>>) -> Seq<char> {
    match label {
        Some(l) => aligned(dec_seq(count), width) + seq![' '] + l,
        None => aligned(dec_seq(count), width),
    }
}

/// The trailing total line: the right-aligned grand total, a space, and the
/// word "total".
pub open spec fn spec_total_line(total: nat, width: nat) -> Seq<char> {
    aligned(dec_seq(total), width) + seq![' ', 't', 'o', 't', 'a', 'l']
}

/// The diagnostic line for a directory matched while recursion is off.
pub open spec fn spec_dir_line(path: Seq<char>) -> Seq<char> {
    "tc: "@ + path + ": read: Is a directory"@
}

/// The diagnostic line for a failed unit: the tool name, the unit's label
/// (the stdin sentinel when it has none), and the failure's message.
pub open spec fn spec_fail_line(label: Option<Seq<char>>, message: Seq<char>) -> Seq<char> {
    "tc: "@ + (match label {
        Some(l) => l,
        None => "-"@,
    }) + ": "@ + message
}

/// `needle` occurs contiguously somewhere in `hay`.
pub open spec fn contains_seq(hay: Seq<char>, needle: Seq<char>) -> bool {
    exists|i: int|
        0 <= i && i + needle.len() <= hay.len() && #[trigger] hay.subrange(i, i + needle.len())
            == needle
}

/// The rejection line for a directory always holds the literal text
/// "Is a directory", whatever the path.
pub proof fn lemma_dir_line_contains_diagnostic(path: Seq<char>)
    ensures
        contains_seq(spec_dir_line(path), "Is a directory"@),
{
    reveal_strlit("tc: ");
    reveal_strlit(": read: Is a directory");
    reveal_strlit("Is a directory");
    let hay = spec_dir_line(path);
    let i = 4 + path.len() as int + 8;
    assert(hay.subrange(i, i + 14) =~= "Is a directory"@);
}

/// Render the stdout line for a successful count.
pub fn count_line(count: usize, width: usize, label: &Option<String>) -> (r: String)
    ensures
        r@ == spec_count_line(count as nat, width as nat, label.deep_view()),
{
    let num = to_decimal(count);
    let mut r = pad_left(num.as_str(), width);
    match label {
        Some(l) => {
            r.append(" ");
            r.append(l.as_str());
            proof {
                reveal_strlit(" ");
                assert(r@ =~= spec_count_line(count as nat, width as nat, label.deep_view()));
            }
        },
        None => {},
    }
    r
}

/// Render the trailing total line.
pub fn total_line(total: usize, width: usize) -> (r: String)
    ensures
        r@ == spec_total_line(total as nat, width as nat),
{
    let num = to_decimal(total);
    let mut r = pad_left(num.as_str(), width);
    r.append(" total");
    proof {
        reveal_strlit(" total");
        assert(r@ =~= spec_total_line(total as nat, width as nat));
    }
    r
}

/// Render the diagnostic line for a rejected directory.
pub fn dir_line(path: &String) -> (r: String)
    ensures
        r@ == spec_dir_line(path@),
{
    let mut r = "tc: ".to_owned();
    r.append(path.as_str());
    r.append(": read: Is a directory");
    r
}

/// Render the diagnostic line for a failed unit.
pub fn fail_line(label: &Option<String>, message: &str) -> (r: String)
    ensures
        r@ == spec_fail_line(label.deep_view(), message@),
{
    let mut r = "tc: ".to_owned();
    match label {
        Some(l) => r.append(l.as_str()),
        None => r.append("-"),
    }
    r.append(": ");
    r.append(message);
    proof {
        assert(r@ =~= spec_fail_line(label.deep_view(), message@));
    }
    r
}

} // verus!
