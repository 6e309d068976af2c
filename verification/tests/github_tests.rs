use devutils::toolchain::toolchain_command;
use devutils::github::parse_github_url;

#[test]
fn test_parse_github_url_https() {
    let url = "https://github.com/owner/repo.git";
    let repo = parse_github_url(url).unwrap();
    assert_eq!(repo.owner, "owner");
    assert_eq!(repo.name, "repo");
}

#[test]
fn test_parse_github_url_ssh() {
    let url = "git@github.com:owner/repo.git";
    let repo = parse_github_url(url).unwrap();
    assert_eq!(repo.owner, "owner");
    assert_eq!(repo.name, "repo");
}

#[test]
fn parse_github_url_rebuilds_canonical_url() {
    let repo = parse_github_url("  http://github.com/a/b.git.git  ").unwrap();
    assert_eq!(repo.owner, "a");
    assert_eq!(repo.name, "b");
    assert_eq!(repo.url, "https://github.com/a/b");
}

#[test]
fn parse_github_url_git_protocol_and_extra_path() {
    let repo = parse_github_url("git://github.com/x/y/tree/main").unwrap();
    assert_eq!(repo.owner, "x");
    assert_eq!(repo.name, "y");
}

#[test]
fn parse_github_url_without_slash_is_refused() {
    let err = parse_github_url("https://github.com/onlyowner").unwrap_err();
    assert_eq!(err, "Invalid GitHub URL: https://github.com/onlyowner");
}

#[test]
fn parse_github_url_unknown_host_keeps_whole_text() {
    let repo = parse_github_url("gitlab.com/o/r").unwrap();
    assert_eq!(repo.owner, "gitlab.com");
    assert_eq!(repo.name, "o");
}

use devutils::github::{
    auto_merge_poll, ci_report, ci_run_report, ci_status, command_outcome, create_issue_args, create_pr_args,
    create_release_args, delete_branch_args, get_current_branch, get_current_repo, merge_args,
    merge_pr, nothing_to_commit, pr_description_prompt, pr_from_output, push_args, Check,
    CommandOutput, MergeWait, Repo, change_line, rebase_conflict_error,
};

fn ok(stdout: &str) -> Result<CommandOutput, String> {
    Ok(CommandOutput { success: true, stdout: stdout.to_string(), stderr: String::new() })
}

fn failed(stderr: &str) -> Result<CommandOutput, String> {
    Ok(CommandOutput { success: false, stdout: String::new(), stderr: stderr.to_string() })
}

fn check(name: &str, conclusion: &str) -> Check {
    Check { name: name.to_string(), status: "COMPLETED".to_string(), conclusion: conclusion.to_string() }
}

#[test]
fn current_repo_and_branch_from_git_output() {
    let repo = get_current_repo(ok("git@github.com:me/tool.git\n")).unwrap();
    assert_eq!(repo.url, "https://github.com/me/tool");
    assert_eq!(get_current_repo(failed("x")).unwrap_err(), "Not a git repository or no remote origin");
    assert_eq!(get_current_repo(Err("no git".to_string())).unwrap_err(), "Failed to get remote: no git");
    assert_eq!(get_current_branch(ok(" main \n")).unwrap(), "main");
    assert_eq!(get_current_branch(failed("")).unwrap_err(), "Failed to get current branch");
}

#[test]
fn command_outcomes() {
    assert_eq!(command_outcome(failed("denied"), "push", "Push failed: ").unwrap_err(), "Push failed: denied");
    assert_eq!(command_outcome(Err("gone".to_string()), "push", "Push failed: ").unwrap_err(), "Failed to push: gone");
    assert_eq!(command_outcome(ok("done"), "push", "Push failed: ").unwrap(), "done");
}

#[test]
fn command_arguments() {
    assert_eq!(push_args(None, true), vec!["push", "--force", "origin", "HEAD"]);
    assert_eq!(push_args(Some("dev"), false), vec!["push", "origin", "dev"]);
    assert_eq!(delete_branch_args("old", false), vec!["branch", "-d", "old"]);
    assert_eq!(create_pr_args("T", "B", Some("main"), None), vec!["pr", "create", "--title", "T", "--body", "B", "--base", "main"]);
    let labels = vec!["bug".to_string(), "ui".to_string()];
    assert_eq!(
        create_issue_args("T", "B", Some(&labels)),
        vec!["issue", "create", "--title", "T", "--body", "B", "--label", "bug", "--label", "ui"]
    );
    assert_eq!(create_release_args("v1", "One", "notes", true), vec!["release", "create", "v1", "--title", "One", "--notes", "notes", "--draft"]);
    assert_eq!(merge_args(7, None, None).unwrap(), vec!["pr", "merge", "7", "--squash", "--message", "Merged via DevUtils"]);
    assert_eq!(merge_args(7, Some("rebase"), None).unwrap(), vec!["pr", "merge", "7", "--rebase"]);
    assert_eq!(merge_args(7, Some("octopus"), None).unwrap_err(), "Unknown merge method: octopus");
}

#[test]
fn pr_number_from_gh_output() {
    let pr = pr_from_output("Fix", "Creating pull request\nhttps://github.com/o/r/pull/42\n");
    assert_eq!(pr.number, 42);
    assert_eq!(pr.url, "https://github.com/o/r/pull/42");
    assert_eq!(pr.state, "open");
    let pr = pr_from_output("Fix", "created #17 done");
    assert_eq!(pr.number, 0);
    assert_eq!(pr.url, "created #17 done");
    let pr = pr_from_output("Fix", "see github.com/x/#9 now");
    assert_eq!(pr.number, 9);
}

#[test]
fn ci_status_from_checks() {
    let s = ci_status(vec![check("build", "SUCCESS"), check("total", "SUCCESS")]);
    assert_eq!(s.status, "passing");
    assert_eq!(s.conclusion, Some("SUCCESS".to_string()));
    let s = ci_status(vec![check("build", "FAILURE"), check("lint", "NEUTRAL")]);
    assert_eq!(s.status, "failing");
    assert_eq!(s.conclusion, Some("PENDING".to_string()));
    let s = ci_status(vec![check("build", "SUCCESS"), check("lint", "")]);
    assert_eq!(s.status, "pending");
    assert_eq!(ci_status(vec![]).status, "passing");
}

#[test]
fn merge_waits_on_ci() {
    let pending = ci_status(vec![check("total", "PENDING")]);
    assert!(matches!(auto_merge_poll(&pending, 3, 10, 60), MergeWait::Wait(ref t) if t == "\u{23F3} Waiting for CI to finish... (10s elapsed)"));
    assert!(matches!(auto_merge_poll(&pending, 3, 61, 60), MergeWait::Stop(ref t) if t == "Timeout waiting for CI"));
    let failed_ci = ci_status(vec![check("total", "FAILURE")]);
    assert!(matches!(auto_merge_poll(&failed_ci, 3, 0, 60), MergeWait::Stop(ref t) if t == "CI failed for PR #3"));
    let passed = ci_status(vec![check("total", "SUCCESS")]);
    assert!(matches!(auto_merge_poll(&passed, 3, 0, 60), MergeWait::Merge));
    assert_eq!(merge_pr(3, ok("")).unwrap(), "PR #3 merged successfully");
    assert_eq!(merge_pr(3, failed("no")).unwrap_err(), "Merge failed: no");
}

#[test]
fn workflow_texts() {
    assert!(nothing_to_commit(" \n"));
    assert!(!nothing_to_commit(" M src/lib.rs\n"));
    let repo = Repo { owner: "o".to_string(), name: "r".to_string(), url: String::new() };
    assert_eq!(
        ci_report(&repo, Some(("completed".to_string(), "success".to_string(), "CI".to_string()))),
        "\u{1F4CA} CI Status for o/r (CI):\n   Status: completed\n   Conclusion: success"
    );
    assert_eq!(ci_report(&repo, None), "No recent CI runs found");
    let diff: String = (0..60).map(|i| format!("l{}\n", i)).collect();
    let p = pr_description_prompt("T", &diff, "c1\n");
    assert!(p.contains("Changed files summary:\nl0\nl1\n"));
    assert!(p.contains("l49\n\nRecent commits:\nc1\n"));
    assert!(!p.contains("l50"));
    assert_eq!(change_line("a.rs", &Ok("Edit successful".to_string())), "  \u{2705} Modified: a.rs");
    assert_eq!(change_line("a.rs", &Err("missing".to_string())), "  \u{26A0}\u{FE0F}  a.rs: missing");
    assert!(rebase_conflict_error("main").contains("2. git rebase main and resolve conflicts"));
}

#[test]
fn toolchain_commands() {
    assert_eq!(toolchain_command("lint"), Some(("cargo".to_string(), vec!["clippy".to_string()])));
    assert_eq!(toolchain_command("deploy"), None);
}

#[test]
fn ci_run_report_reads_the_first_run() {
    let repo = devutils::github::Repo { owner: "o".to_string(), name: "r".to_string(), url: String::new() };
    let out = r#"[{"status":"completed","conclusion":"success","name":"CI"},{"status":"queued"}]"#;
    assert_eq!(ci_run_report(&repo, out), "\u{1F4CA} CI Status for o/r (CI):\n   Status: completed\n   Conclusion: success");
    let partial = r#"[{"status":"in_progress","conclusion":null}]"#;
    assert_eq!(ci_run_report(&repo, partial), "\u{1F4CA} CI Status for o/r (unknown):\n   Status: in_progress\n   Conclusion: unknown");
    assert_eq!(ci_run_report(&repo, "[]"), "No recent CI runs found");
    assert_eq!(ci_run_report(&repo, "oops"), "No recent CI runs found");
}
