use tc::numerals::{pad_left, to_decimal, width_of};
use tc::outcome::{ErrorKind, Outcome};
use tc::render::{render_scope, try_scope_total, Rendered};
use tc::resolve::{plan_match, MatchPlan};

fn counted(count: usize, label: &str) -> Outcome {
    Outcome::Counted { count, label: Some(label.to_string()) }
}

fn render(outcomes: Vec<Outcome>, subtotals: Vec<usize>, nargs: usize) -> Rendered {
    render_scope(&outcomes, &subtotals, nargs).expect("total fits")
}

#[test]
fn decimal_numerals() {
    assert_eq!(to_decimal(0), "0");
    assert_eq!(to_decimal(7), "7");
    assert_eq!(to_decimal(45), "45");
    assert_eq!(to_decimal(600), "600");
    assert_eq!(to_decimal(18446744073709551615), "18446744073709551615");
}

#[test]
fn right_alignment() {
    assert_eq!(pad_left("3", 3), "  3");
    assert_eq!(pad_left("45", 3), " 45");
    assert_eq!(pad_left("600", 3), "600");
    assert_eq!(pad_left("600", 2), "600");
    assert_eq!(pad_left("", 2), "  ");
}

#[test]
fn width_follows_largest_count() {
    let r = render(vec![counted(3, "a"), counted(45, "b"), counted(600, "c")], vec![], 3);
    assert_eq!(width_of(600), 3);
    assert_eq!(r.out_lines, vec!["  3 a", " 45 b", "600 c", "648 total"]);
    assert_eq!(r.total, 648);
    assert!(r.err_lines.is_empty());
}

#[test]
fn one_argument_emits_no_total_line() {
    let r = render(vec![counted(12, "a")], vec![], 1);
    assert_eq!(r.out_lines, vec!["12 a"]);
    assert_eq!(r.total, 12);
}

#[test]
fn two_arguments_emit_total_line() {
    let r = render(vec![counted(12, "a"), counted(30, "b")], vec![], 2);
    assert_eq!(r.out_lines, vec!["12 a", "30 b", "42 total"]);
    assert_eq!(r.total, 42);
}

#[test]
fn stdin_only_prints_bare_count() {
    let r = render(vec![Outcome::Counted { count: 5, label: None }], vec![], 1);
    assert_eq!(r.out_lines, vec!["5"]);
    assert!(r.err_lines.is_empty());
    assert_eq!(r.total, 5);
}

#[test]
fn failed_units_contribute_zero() {
    let failed = Outcome::Failed {
        label: Some("gone".to_string()),
        kind: ErrorKind::Io,
        message: "tc: gone: read error".to_string(),
    };
    let r = render(vec![counted(3, "a"), failed, counted(4, "b")], vec![], 2);
    assert_eq!(r.total, 7);
    assert_eq!(r.out_lines, vec!["3 a", "4 b", "7 total"]);
    assert_eq!(r.err_lines, vec!["tc: gone: read error"]);
}

#[test]
fn empty_batch_is_silent() {
    let r = render(vec![], vec![], 1);
    assert!(r.out_lines.is_empty());
    assert!(r.err_lines.is_empty());
    assert_eq!(r.total, 0);
}

#[test]
fn rejected_directory_line_goes_to_stdout() {
    let plan = plan_match(&"some/dir".to_string(), true, false);
    let outcome = match plan {
        MatchPlan::Reject { outcome } => outcome,
        _ => panic!("a directory without recursion must be rejected"),
    };
    let r = render(vec![outcome], vec![], 1);
    assert_eq!(r.out_lines, vec!["tc: some/dir: read: Is a directory"]);
    assert!(r.out_lines[0].contains("Is a directory"));
    assert!(r.err_lines.is_empty());
    assert_eq!(r.total, 0);
}

#[test]
fn subtotals_of_descents_are_added() {
    let r = render(vec![counted(5, "a")], vec![10, 20], 1);
    assert_eq!(r.total, 35);
    assert_eq!(r.out_lines, vec!["5 a"]);
}

#[test]
fn total_overflow_is_reported() {
    let outcomes = vec![counted(usize::MAX, "a")];
    let subtotals = vec![1];
    assert!(try_scope_total(&outcomes, &subtotals).is_none());
    assert!(render_scope(&outcomes, &subtotals, 1).is_none());
}

#[test]
fn rendering_twice_is_identical() {
    let make = || vec![counted(3, "a"), counted(45, "b"), counted(600, "c")];
    let first = render(make(), vec![], 3);
    let second = render(make(), vec![], 3);
    assert_eq!(first.out_lines, second.out_lines);
    assert_eq!(first.err_lines, second.err_lines);
    assert_eq!(first.total, second.total);
}
