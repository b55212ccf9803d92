use tc::outcome::{ErrorKind, Outcome};
use tc::resolve::{match_error_outcome, plan_argument, plan_match, ArgPlan, MatchPlan};

#[test]
fn stdin_sentinel_reads_stdin() {
    assert!(matches!(plan_argument(&"-".to_string()), ArgPlan::UseStdin));
}

#[test]
fn well_formed_patterns_are_expanded() {
    assert!(matches!(plan_argument(&"*.txt".to_string()), ArgPlan::ExpandPattern));
    assert!(matches!(plan_argument(&"src/**/*.rs".to_string()), ArgPlan::ExpandPattern));
    assert!(matches!(plan_argument(&"plain/path.txt".to_string()), ArgPlan::ExpandPattern));
}

#[test]
fn malformed_pattern_fails_only_its_argument() {
    let plan = plan_argument(&"[".to_string());
    let outcome = match plan {
        ArgPlan::BadPattern { outcome } => outcome,
        _ => panic!("an unclosed character range is malformed"),
    };
    match outcome {
        Outcome::Failed { label, kind, message } => {
            assert_eq!(label.as_deref(), Some("["));
            assert!(matches!(kind, ErrorKind::Pattern));
            assert_eq!(message, "tc: [: invalid glob pattern");
        }
        Outcome::Counted { .. } => panic!("a malformed pattern cannot be counted"),
    }
}

#[test]
fn regular_files_are_counted() {
    assert!(matches!(plan_match(&"a.txt".to_string(), false, false), MatchPlan::CountFile));
    assert!(matches!(plan_match(&"a.txt".to_string(), false, true), MatchPlan::CountFile));
}

#[test]
fn directory_with_recursion_descends() {
    assert!(matches!(plan_match(&"dir".to_string(), true, true), MatchPlan::Descend));
}

#[test]
fn directory_without_recursion_is_rejected() {
    let plan = plan_match(&"dir".to_string(), true, false);
    match plan {
        MatchPlan::Reject { outcome } => match outcome {
            Outcome::Failed { label, kind, message } => {
                assert_eq!(label.as_deref(), Some("dir"));
                assert!(matches!(kind, ErrorKind::IsADirectory));
                assert_eq!(message, "tc: dir: read: Is a directory");
            }
            Outcome::Counted { .. } => panic!("a rejected directory has no count"),
        },
        _ => panic!("a directory without recursion must be rejected"),
    }
}

#[test]
fn match_errors_keep_their_message() {
    let outcome = match_error_outcome("walk failed".to_string());
    match outcome {
        Outcome::Failed { label, kind, message } => {
            assert!(label.is_none());
            assert!(matches!(kind, ErrorKind::Match));
            assert_eq!(message, "walk failed");
        }
        Outcome::Counted { .. } => panic!("a match error cannot be counted"),
    }
}
