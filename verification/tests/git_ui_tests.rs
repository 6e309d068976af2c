use devutils::git_ui::{
    branch_line, commits_output_ok, header_line, stash_line, status_output_ok, Branch, FileStatus,
    GitAction, GitTUI, GitView, Key, StashEntry,
};

#[test]
fn porcelain_status_is_sorted_into_buckets() {
    let mut t = GitTUI::new();
    let out = "M  a.rs\n M b.rs\n?? c.rs\nUU d.rs\nA  e.rs\n";
    assert!(status_output_ok(out));
    t.refresh_status(out, " main\n");
    assert_eq!(t.status.staged.len(), 2);
    assert_eq!(t.status.staged[1].status, FileStatus::Added);
    assert_eq!(t.status.unstaged[0].path, "b.rs");
    assert_eq!(t.status.untracked[0].path, "c.rs");
    assert_eq!(t.status.conflicted[0].path, "d.rs");
    assert_eq!(t.status.branch, "main");
    assert!(!t.status.is_clean);
}

#[test]
fn selection_wraps_around() {
    let mut t = GitTUI::new();
    t.refresh_status("M  a\nM  b\nM  c\n", "main");
    t.move_selection(-1);
    assert_eq!(t.selected_file, 2);
    t.move_selection(1);
    assert_eq!(t.selected_file, 0);
}

#[test]
fn keys_switch_views_and_quit() {
    let mut t = GitTUI::new();
    assert_eq!(t.handle_key(Key::Char('2')), GitAction::LoadCommits);
    assert_eq!(t.current_view, GitView::CommitList);
    assert_eq!(t.handle_key(Key::Char('s')), GitAction::Nothing);
    t.handle_key(Key::Char('1'));
    assert_eq!(t.handle_key(Key::Char('s')), GitAction::StageAll);
    t.handle_key(Key::Esc);
    assert!(t.quit);
}

#[test]
fn log_lines_become_commits() {
    let mut t = GitTUI::new();
    let log = "abcdef1234|fix bug|Ann|Mon|p1 p2\nshort\n";
    assert!(commits_output_ok(log));
    t.refresh_commits(log);
    assert_eq!(t.commits.len(), 1);
    assert_eq!(t.commits[0].short_hash, "abcdef1");
    assert_eq!(t.commits[0].parents, vec!["p1".to_string(), "p2".to_string()]);
    assert!(!commits_output_ok("abc|x|y|z\n"));
}

#[test]
fn branches_and_worktrees() {
    let mut t = GitTUI::new();
    t.refresh_branches("main|*|origin/main\nremotes/origin/dev||\n|x|\n");
    assert_eq!(t.branches.len(), 2);
    assert!(t.branches[0].is_current);
    assert_eq!(t.branches[0].upstream, Some("origin/main".to_string()));
    assert!(t.branches[1].is_remote);
    t.refresh_worktrees("path /a\nHEAD\npath /b\nHEAD abc\n");
    assert_eq!(t.worktrees, vec!["/a".to_string()]);
}

#[test]
fn lines_of_the_interface() {
    let t = GitTUI::new();
    assert_eq!(
        header_line(&t.status),
        "\u{2387}  main  \u{2502}  \u{2713} Clean  \u{2502}  [1]Files  [2]Commits  [3]Branches  [4]Stash  [5]Worktree"
    );
    let b = Branch { name: "dev".to_string(), is_current: false, is_remote: true, upstream: None, ahead: 0, behind: 0 };
    assert_eq!(branch_line(&b), "  remotes/dev");
    let s = StashEntry { index: 2, message: "wip".to_string(), date: String::new() };
    assert_eq!(stash_line(&s), "stash@{2}: wip");
}

#[test]
fn status_lines_are_cut_at_byte_three() {
    let mut tui = devutils::git_ui::GitTUI::new();
    assert!(devutils::git_ui::status_output_ok("\u{e9}ab\n?? x\n"));
    assert!(!devutils::git_ui::status_output_ok("a\u{20ac}\n"));
    tui.refresh_status("\u{e9}ab\n", "main\n");
    assert_eq!(tui.status.staged.len(), 1);
    assert_eq!(tui.status.staged[0].path, "b");
    assert!(tui.status.staged[0].hunks.is_empty());
}
