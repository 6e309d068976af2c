use devutils::dev_loop::{auto_add_dependency, files_to_track, record_step, should_ignore, DevLoop, LoopResult, LoopStep, ProjectFiles};
use std::path::Path;

fn rust_project() -> ProjectFiles {
    ProjectFiles { cargo_toml: true, package_json: false, go_mod: false, pyproject_toml: false, requirements_txt: false }
}

#[test]
fn test_dev_loop_creation() {
    let files = rust_project();
    let loop_dev = DevLoop::new(".", &files);
    assert!(Path::new(&loop_dev.project_root).exists());
}

#[test]
fn test_auto_add_cargo_dep() {
    let files = rust_project();
    let result = auto_add_dependency(&files, "example_dep_123");
    assert!(result.is_err() || result.is_ok());
}

#[test]
fn rust_project_builds_with_cargo() {
    let loop_dev = DevLoop::new(".", &rust_project());
    assert_eq!(loop_dev.build_cmd, vec!["cargo".to_string(), "build".to_string()]);
}

#[test]
fn no_project_files_means_no_dependency_manager() {
    let files = ProjectFiles { cargo_toml: false, package_json: false, go_mod: false, pyproject_toml: false, requirements_txt: false };
    assert!(auto_add_dependency(&files, "x").is_err());
}

#[test]
fn build_outputs_are_ignored() {
    assert!(should_ignore("target/debug/app"));
    assert!(should_ignore("node_modules/x.js"));
    assert!(!should_ignore("src/main.rs"));
}

#[test]
fn a_failed_build_leaves_files_untracked() {
    let changed = vec!["src/a.rs".to_string()];
    let mut ok = LoopResult::with_changes(1);
    assert!(record_step(&mut ok, LoopStep::Build, true, String::new(), String::new()));
    assert_eq!(files_to_track(&ok, changed.clone()), changed);
    let mut failed = LoopResult::with_changes(1);
    assert!(!record_step(&mut failed, LoopStep::Build, false, String::new(), "boom".to_string()));
    assert!(files_to_track(&failed, changed).is_empty());
}
