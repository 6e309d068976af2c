use devutils::git::{
    branch_report, clean_commit_message, first_git_call, ignore_template, rollback_target,
    session_tag, status_report, GitCommands,
};

#[test]
fn status_of_clean_tree() {
    assert_eq!(status_report(true, ""), vec!["\n\u{1F4CA} Git Status".to_string(), "  \u{2705} Clean".to_string()]);
}

#[test]
fn status_lists_changes() {
    let r = status_report(true, " M a.rs\n?? b.rs\n");
    assert_eq!(r.len(), 3);
    assert_eq!(r[1], "   M a.rs");
}

#[test]
fn commits_ask_for_n_entries() {
    let a = first_git_call(&GitCommands::Commits { n: 5 }).unwrap();
    assert_eq!(a, vec!["log".to_string(), "-5".to_string(), "--oneline".to_string()]);
    assert!(first_git_call(&GitCommands::Ignore { template: None }).is_none());
}

#[test]
fn gitignore_templates() {
    assert_eq!(ignore_template(Some("node")), "# Node\nnode_modules/\n*.log\n");
    assert_eq!(ignore_template(None), "# DevUtils\nnode_modules/\n__pycache__/\n");
}

#[test]
fn commit_message_is_first_line_unquoted() {
    assert_eq!(clean_commit_message(Some("`fix: x`\nmore")), "fix: x");
    assert_eq!(clean_commit_message(None), "update: automated commit");
}

#[test]
fn session_tags() {
    assert_eq!(session_tag("20240101_120000"), "devutils_session_20240101_120000");
    assert_eq!(rollback_target("t1\nt2\n"), Some("t1".to_string()));
    assert_eq!(rollback_target(""), None);
    assert_eq!(branch_report(" main\n"), "  \u{1F4CD} main");
}
