use jj_git_util::export::ExportFailureKind;
use jj_git_util::export::FailedRefExport;
use jj_git_util::export::print_failed_git_export;

const HINT: &str = "Hint: Git doesn't allow a branch name that looks like a parent directory of\nanother (e.g. `foo` and `foo/bar`). Try to rename the branches that failed to\nexport or their \"parent\" branches.\n";

#[test]
fn renders_reason_chain_with_hint_for_refused_set() {
    let failed = vec![FailedRefExport {
        name: "foo".to_string(),
        kind: ExportFailureKind::FailedToSet,
        reasons: vec!["ref update rejected".to_string(), "non-fast-forward".to_string()],
    }];
    let expected = format!(
        "Failed to export some branches:\n  foo: ref update rejected: non-fast-forward\n{}",
        HINT
    );
    assert_eq!(print_failed_git_export(&failed), expected);
}

#[test]
fn no_hint_for_other_failures() {
    let failed = vec![FailedRefExport {
        name: "bar".to_string(),
        kind: ExportFailureKind::Other,
        reasons: vec!["ref update rejected".to_string(), "non-fast-forward".to_string()],
    }];
    assert_eq!(
        print_failed_git_export(&failed),
        "Failed to export some branches:\n  bar: ref update rejected: non-fast-forward\n"
    );
}

#[test]
fn several_failures_keep_order_and_hint_once() {
    let failed = vec![
        FailedRefExport {
            name: "a".to_string(),
            kind: ExportFailureKind::Other,
            reasons: vec!["io".to_string()],
        },
        FailedRefExport {
            name: "b".to_string(),
            kind: ExportFailureKind::FailedToSet,
            reasons: vec!["refused".to_string()],
        },
    ];
    let expected = format!("Failed to export some branches:\n  a: io\n  b: refused\n{}", HINT);
    assert_eq!(print_failed_git_export(&failed), expected);
}

#[test]
fn empty_reason_chain_renders_bare_name() {
    let failed = vec![FailedRefExport {
        name: "x".to_string(),
        kind: ExportFailureKind::Other,
        reasons: vec![],
    }];
    assert_eq!(print_failed_git_export(&failed), "Failed to export some branches:\n  x\n");
}

#[test]
fn no_failures_print_nothing() {
    assert_eq!(print_failed_git_export(&vec![]), "");
}
