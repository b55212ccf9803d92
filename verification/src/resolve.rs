//! Input resolution: classify one raw argument (stdin sentinel, glob
//! pattern) and one filesystem match (file, directory) into the next step of
//! the run, without touching the filesystem itself.

use vstd::prelude::*;
use vstd::string::StrSliceExecFns;
use crate::lines::{dir_line, fail_line, spec_dir_line, spec_fail_line};
use crate::outcome::{ErrorKind, Outcome};

verus! {

/// Whether `glob::Pattern::new` accepts the pattern: a pure parse of the
/// pattern string alone.
pub uninterp spec fn pattern_ok(pattern: Seq<char>) -> bool;

/// Relies on glob::Pattern::new: compiling a pattern reads nothing but the
/// pattern string and fails exactly on malformed glob syntax.
#[verifier::external_body]
fn pattern_compiles(pattern: &str) -> (r: bool)
    ensures
        r == pattern_ok(pattern@),
{
    glob::Pattern::new(pattern).is_ok()
}

/// What to do with one raw argument.
pub enum ArgPlan {
    /// The argument is the stdin sentinel: read standard input as the one
    /// unit of this argument.
    UseStdin,
    /// The argument is a well-formed glob pattern: expand it against the
    /// filesystem.
    ExpandPattern,
    /// The argument is a malformed glob pattern: record this failed outcome
    /// and leave the other arguments untouched.
    BadPattern { outcome: Outcome },
}

/// What to do with one filesystem match of a pattern.
pub enum MatchPlan {
    /// A regular file: read it and count its tokens.
    CountFile,
    /// A directory while recursion is on: resolve its children as a fresh
    /// argument batch.
    Descend,
    /// A directory while recursion is off: record this failed outcome, whose
    /// diagnostic goes to standard output.
    Reject { outcome: Outcome },
}

/// The argument is exactly the stdin sentinel "-".
pub fn is_stdin_sentinel(arg: &String) -> (r: bool)
    ensures
        r == (arg@ == "-"@),
{
    proof {
        reveal_strlit("-");
    }
    let n = arg.as_str().unicode_len();
    if n == 1 {
        let c = arg.as_str().get_char(0);
        if c == '-' {
            proof {
                assert(arg@ =~= "-"@);
            }
            true
        } else {
            false
        }
    } else {
        false
    }
}

/// Classify one raw argument: the stdin sentinel becomes the single stdin
/// unit; anything else is a glob pattern, expanded when well-formed and
/// turned into a pattern failure when not.
pub fn plan_argument(arg: &String) -> (r: ArgPlan)
    ensures
        arg@ == "-"@ ==> r is UseStdin,
        arg@ != "-"@ && pattern_ok(arg@) ==> r is ExpandPattern,
        arg@ != "-"@ && !pattern_ok(arg@) ==> (r matches ArgPlan::BadPattern { outcome }
            && (outcome matches Outcome::Failed { label, kind, message } && label == Some(*arg)
            && kind is Pattern && message@ == spec_fail_line(
            Some(arg@),
            "invalid glob pattern"@,
        ))),
{
    if is_stdin_sentinel(arg) {
        ArgPlan::UseStdin
    } else if pattern_compiles(arg.as_str()) {
        ArgPlan::ExpandPattern
    } else {
        let label = Some(arg.clone());
        let message = fail_line(&label, "invalid glob pattern");
        ArgPlan::BadPattern {
            outcome: Outcome::Failed { label, kind: ErrorKind::Pattern, message },
        }
    }
}

/// Classify one filesystem match: a regular file is counted; a directory is
/// descended into when recursion is on and rejected with the fixed
/// "Is a directory" diagnostic when it is off. A rejected directory never
/// contributes a token count.
pub fn plan_match(path: &String, is_dir: bool, recursive: bool) -> (r: MatchPlan)
    ensures
        !is_dir ==> r is CountFile,
        is_dir && recursive ==> r is Descend,
        is_dir && !recursive ==> (r matches MatchPlan::Reject { outcome }
            && (outcome matches Outcome::Failed { label, kind, message } && label == Some(*path)
            && kind is IsADirectory && message@ == spec_dir_line(path@)) && outcome.spec_count()
            == 0),
{
    if !is_dir {
        MatchPlan::CountFile
    } else if recursive {
        MatchPlan::Descend
    } else {
        let message = dir_line(path);
        MatchPlan::Reject {
            outcome: Outcome::Failed {
                label: Some(path.clone()),
                kind: ErrorKind::IsADirectory,
                message,
            },
        }
    }
}

/// Wrap a filesystem error met while enumerating a pattern's matches. The
/// match produced no unit; its diagnostic goes to the error stream as it
/// came.
pub fn match_error_outcome(message: String) -> (o: Outcome)
    ensures
        o matches Outcome::Failed { label, kind, message: m } && label == None::<String>
            && kind is Match && m == message,
{
    Outcome::Failed { label: None, kind: ErrorKind::Match, message }
}

} // verus!
