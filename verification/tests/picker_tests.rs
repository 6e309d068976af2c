use devutils::picker::{pick_branch, pick_commit, pick_file, pick_git_status, pick_process, preview_line};

#[test]
fn file_answer_selects_entry() {
    let files = vec!["a".to_string(), "b".to_string()];
    assert_eq!(pick_file(&files, " 2\n"), Some("b".to_string()));
    assert_eq!(pick_file(&files, "3"), None);
    assert_eq!(pick_file(&files, "0"), None);
    assert_eq!(pick_file(&files, "x"), None);
}

#[test]
fn preview_is_cut() {
    assert_eq!(preview_line("a\nb\nc\nd"), "     Preview: a | b | c...");
    let long = "x".repeat(100);
    assert_eq!(preview_line(&long), format!("     Preview: {}...", "x".repeat(80)));
}

#[test]
fn branch_and_commit_answers() {
    assert_eq!(pick_branch("", "1"), Some("main".to_string()));
    assert_eq!(pick_branch("main\ndev\n", "2"), Some("dev".to_string()));
    assert_eq!(pick_commit("", "1"), Some("HEAD".to_string()));
    assert_eq!(pick_commit("abc123 fix\n", "1"), Some("abc123".to_string()));
    assert_eq!(pick_git_status(), Some("status".to_string()));
    assert_eq!(pick_process(), Some("process".to_string()));
}
