use devutils::auth::{add_profile_at, enable_profile, get_api_key, remove_profile, AuthStore};
use devutils::checkpoints::{
    checkpoints_count, create_checkpoint_at, delete_checkpoint, get_checkpoint, list_checkpoints,
    restore_checkpoint, CheckpointStore,
};
use devutils::commands::{add_command, command_prompt, default_commands, get_command, list_commands, remove_command, CommandRegistry};
use devutils::context::{compact_context, estimate_tokens, get_context_status, ContextManager};
use devutils::hooks::{default_hooks, disable_hook, enable_hook, hook_run_report, hook_to_run, hooks_count};

#[test]
fn tokens_are_a_quarter_of_the_bytes() {
    assert_eq!(estimate_tokens("abcdefgh"), 2);
    assert_eq!(estimate_tokens("abc"), 0);
}

#[test]
fn compaction_keeps_last_five_newest_first() {
    let mut ctx = ContextManager::new();
    for i in 0..7 {
        ctx.add_message("user", &format!("message {}", i));
    }
    assert_eq!(compact_context(&mut ctx), "Compacted 2 messages");
    assert_eq!(ctx.messages.len(), 5);
    assert_eq!(ctx.messages[0].content, "message 6");
    assert_eq!(ctx.messages[4].content, "message 2");
    assert_eq!(compact_context(&mut ctx), "Compacted 0 messages");
    assert!(get_context_status(&ctx).starts_with("Status: 5 messages, "));
}

#[test]
fn checkpoints_are_listed_newest_first() {
    let mut store = CheckpointStore::new();
    assert_eq!(list_checkpoints(&store), "No checkpoints found");
    assert_eq!(create_checkpoint_at(&mut store, "old", 100, 3), "Checkpoint 'old' created with 3 files");
    create_checkpoint_at(&mut store, "new", 200, 1);
    assert_eq!(
        list_checkpoints(&store),
        "- new (1 files, created: 200)\n- old (3 files, created: 100)\n"
    );
    assert_eq!(get_checkpoint(&store, "old"), "Checkpoint: old\n  ID: old_100\n  Files: 3\n  Created: 100");
    assert_eq!(restore_checkpoint(&store, "new"), "Restored checkpoint: new");
    assert_eq!(delete_checkpoint(&mut store, "new"), "Checkpoint 'new' deleted");
    assert_eq!(restore_checkpoint(&store, "new"), "Checkpoint not found: new");
    assert_eq!(checkpoints_count(&store), 1);
}

#[test]
fn hooks_run_only_when_enabled() {
    let mut reg = default_hooks();
    assert_eq!(hooks_count(&reg), 8);
    assert_eq!(hook_to_run(&reg, "pre-build").unwrap_err(), "Hook 'pre-build' is disabled");
    assert_eq!(hook_to_run(&reg, "pre-commit").unwrap_err(), "Hook 'pre-commit' is disabled");
    assert_eq!(enable_hook(&mut reg, "pre-commit"), "Hook 'pre-commit' enabled");
    assert_eq!(hook_to_run(&reg, "pre-commit").unwrap(), "cargo fmt --check");
    assert_eq!(disable_hook(&mut reg, "nope"), "Hook not found: nope");
    assert_eq!(hook_run_report("h", true, false, "out", "err"), "Warning: out err");
    assert_eq!(hook_run_report("h", false, false, "out", "err"), "Hook 'h' failed: err");
}

#[test]
fn commands_are_added_and_prompted() {
    let mut reg = CommandRegistry::new();
    assert_eq!(add_command(&mut reg, "review", "Review code", "Review this"), "Added command: /review");
    assert!(get_command(&reg, "review").is_some());
    assert_eq!(command_prompt(&reg, "review", "").unwrap(), "Review this");
    assert_eq!(command_prompt(&reg, "review", "x.rs").unwrap(), "Review this\n\nArgs: x.rs");
    assert!(remove_command(&mut reg, "review").is_ok());
    assert_eq!(command_prompt(&reg, "review", "").unwrap_err(), "Command '/review' not found");
}

#[test]
fn profiles_hold_their_keys() {
    let mut store = AuthStore::new();
    assert_eq!(add_profile_at(&mut store, "work", "openai", "sk-1", 5), "Added auth profile: work (openai)");
    assert_eq!(get_api_key(&store, "work"), Some("sk-1".to_string()));
    add_profile_at(&mut store, "work", "openai", "sk-2", 6);
    assert_eq!(get_api_key(&store, "work"), Some("sk-2".to_string()));
    assert!(enable_profile(&mut store, "work", false).is_ok());
    assert!(remove_profile(&mut store, "work").is_ok());
    assert_eq!(remove_profile(&mut store, "work").unwrap_err(), "Profile 'work' not found");
    assert_eq!(get_api_key(&store, "work"), None);
}

#[test]
fn commands_are_listed_by_name() {
    let mut reg = default_commands();
    add_command(&mut reg, "deploy", "Ship it", "Deploy now");
    let names: Vec<String> = list_commands(&reg).into_iter().map(|c| c.name).collect();
    assert_eq!(names, vec!["deploy", "refactor", "review", "test"]);
}

#[test]
fn a_removed_profile_is_gone() {
    let mut store = AuthStore::new();
    add_profile_at(&mut store, "home", "anthropic", "k-9", 1);
    assert_eq!(get_api_key(&store, "home"), Some("k-9".to_string()));
    assert_eq!(remove_profile(&mut store, "home").unwrap(), "Removed profile: home");
    assert_eq!(get_api_key(&store, "home"), None);
    assert_eq!(remove_profile(&mut store, "home").unwrap_err(), "Profile 'home' not found");
}
