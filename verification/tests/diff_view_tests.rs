use devutils::diff_view::{file_diff_args, show_diff_summary, DiffViewer};

#[test]
fn viewer_defaults() {
    let v = DiffViewer::new();
    assert_eq!(v.show_context, 3);
    assert!(v.color);
    assert!(!v.word_diff);
}

#[test]
fn staged_counts_are_coloured() {
    let v = DiffViewer::new();
    let r = v.show_staged("stat", "3\t1\ta.rs\n-\t-\tbin.png\n");
    assert!(r.ends_with("\x1b[33m +3 -1\x1b[0m a.rs \n\x1b[90m +0 -0\x1b[0m bin.png \n"));
}

#[test]
fn modified_files_get_symbols() {
    let v = DiffViewer::new();
    let r = v.show_modified("M\ta.rs\n\nX\tb.rs\n");
    assert_eq!(r, "\n\x1b[36m\u{1F4DD} Unstaged Changes\x1b[0m\n\n\x1b[33mM\x1b[0m a.rs\n\x1b[90m?\x1b[0m b.rs\n");
}

#[test]
fn staged_prefix_selects_cached_diff() {
    assert_eq!(file_diff_args("s:a.rs"), vec!["diff", "--staged", "--", "a.rs"]);
    assert_eq!(file_diff_args("a.rs"), vec!["diff", "--", "a.rs"]);
}

#[test]
fn file_diff_lines_are_coloured() {
    let v = DiffViewer::new();
    assert_eq!(v.show_file_diff("f", ""), "No changes in f\n");
    let r = v.show_file_diff("f", "@@ -1 +1 @@\n+a\n-b\n c");
    assert_eq!(r, "\n\x1b[36m\u{1F4C4} f\x1b[0m\n\x1b[35m@@ -1 +1 @@\x1b[0m\n\x1b[32m+a\x1b[0m\n\x1b[31m-b\x1b[0m\n c\n");
}

#[test]
fn branches_and_log() {
    let v = DiffViewer::new();
    assert_eq!(v.show_branch("* main\n  dev\n"), "\n\x1b[36m\u{1F33F} Branches\x1b[0m\n\n\x1b[32m* main\x1b[0m (current)\n  dev\n");
    assert_eq!(v.log_args(5), vec!["log", "-5", "--oneline", "--graph", "--decorate"]);
    assert_eq!(v.show_log(2, "a\nb"), "\n\x1b[36m\u{1F4DC} Recent 2 Commits\x1b[0m\n\na\nb\n");
}

#[test]
fn summary_joins_or_fails() {
    assert_eq!(show_diff_summary(Ok("s".to_string()), Ok("u".to_string())).unwrap(), "s\nu");
    assert_eq!(show_diff_summary(Ok("s".to_string()), Err("e".to_string())).unwrap_err(), "e");
}
