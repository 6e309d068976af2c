use devutils::advanced::{
    add_api_key, auto_detect_lsp, create_session, disable_remote, enable_remote, get_env_var,
    list_api_keys, list_slash_commands, path_extension, path_file_name, register_lsp,
    run_slash_command, send_notification, set_env_var, set_think_mode, start_planning_mode,
    summarize_context, switch_session, sync_to_cloud, DevUtilsState, NotificationType,
    SlashOutcome, ThinkMode, MAX_NOTIFICATIONS,
};

fn reply_of(o: SlashOutcome) -> String {
    match o {
        SlashOutcome::Reply(t) => t,
        other => panic!("expected a reply, got {:?}", other),
    }
}

#[test]
fn slash_commit_joins_the_words() {
    let mut st = DevUtilsState::new();
    let r = reply_of(run_slash_command(&mut st, "/commit fix the parser"));
    assert_eq!(r, "Would commit: fix the parser\nRun: git commit -m \"fix the parser\"");
}

#[test]
fn slash_commit_without_message() {
    let mut st = DevUtilsState::new();
    let r = reply_of(run_slash_command(&mut st, "/commit"));
    assert_eq!(r, "Would commit: \nRun: git commit -m \"\"");
}

#[test]
fn slash_plan_starts_planning() {
    let mut st = DevUtilsState::new();
    let r = reply_of(run_slash_command(&mut st, "/plan build  the api"));
    assert!(st.planning_active);
    assert!(r.starts_with("📋 Planning Mode started for: build the api\n"));
}

#[test]
fn slash_think_sets_the_mode() {
    let mut st = DevUtilsState::new();
    assert_eq!(reply_of(run_slash_command(&mut st, "/think deep")), "Think mode: Deep");
    assert_eq!(st.think_mode, ThinkMode::Deep);
    assert_eq!(reply_of(run_slash_command(&mut st, "/think")), "Think mode: Normal");
    assert_eq!(st.think_mode, ThinkMode::Normal);
    assert_eq!(reply_of(run_slash_command(&mut st, "/think sideways")), "Think mode: Normal");
}

#[test]
fn slash_help_lists_every_command() {
    let mut st = DevUtilsState::new();
    let r = reply_of(run_slash_command(&mut st, "/help"));
    let lines: Vec<&str> = r.lines().collect();
    assert_eq!(lines.len(), list_slash_commands().len());
    assert_eq!(lines[0], "help - Show help");
    assert_eq!(lines[11], "websearch - Search the web");
}

#[test]
fn slash_commands_handed_to_the_caller() {
    let mut st = DevUtilsState::new();
    match run_slash_command(&mut st, "/websearch verus tutorial") {
        SlashOutcome::WebSearch { query, limit } => {
            assert_eq!(query, "verus tutorial");
            assert_eq!(limit, 5);
        }
        other => panic!("unexpected {:?}", other),
    }
    match run_slash_command(&mut st, "/compact") {
        SlashOutcome::CompactContext { reply } => assert_eq!(reply, "Context compacted - kept important context"),
        other => panic!("unexpected {:?}", other),
    }
    assert!(matches!(run_slash_command(&mut st, "/usage"), SlashOutcome::UsageReport));
    match run_slash_command(&mut st, "/init") {
        SlashOutcome::WriteNotes { content, reply } => {
            assert!(content.starts_with("# Project Context\n"));
            assert_eq!(reply, "Created PROJECT.md");
        }
        other => panic!("unexpected {:?}", other),
    }
}

#[test]
fn slash_fixed_replies_and_unknown() {
    let mut st = DevUtilsState::new();
    assert_eq!(reply_of(run_slash_command(&mut st, "/test")), "Running tests...");
    assert_eq!(reply_of(run_slash_command(&mut st, "/vim")), "Vim mode: use h j k l for navigation");
    assert_eq!(
        reply_of(run_slash_command(&mut st, "//nope now")),
        "Unknown command: /nope now\nType /help for available commands"
    );
    assert_eq!(reply_of(run_slash_command(&mut st, "/")), "Unknown command: /\nType /help for available commands");
    assert!(!st.planning_active);
}

#[test]
fn planning_and_think_replies() {
    let mut st = DevUtilsState::new();
    let r = start_planning_mode(&mut st, "x");
    assert!(r.ends_with("Use /execute to run the plan once approved."));
    assert_eq!(set_think_mode(&mut st, ThinkMode::Quick), "Think mode: Quick");
}

#[test]
fn remote_control_toggles() {
    let mut st = DevUtilsState::new();
    let r = enable_remote(&mut st, "pw").unwrap();
    assert!(r.ends_with("Password: pw"));
    assert!(st.remote_enabled);
    assert_eq!(disable_remote(&mut st), "Remote control disabled");
    assert!(!st.remote_enabled);
}

#[test]
fn lsp_registration_replaces() {
    let mut st = DevUtilsState::new();
    assert_eq!(register_lsp(&mut st, "rust", "ra").unwrap(), "LSP registered for rust: ra");
    register_lsp(&mut st, "rust", "rust-analyzer").unwrap();
    assert_eq!(st.lsps.len(), 1);
    assert_eq!(st.lsps[0].command, "rust-analyzer");
    assert_eq!(auto_detect_lsp("src/main.rs"), Some("rust_analyzer".to_string()));
    assert_eq!(auto_detect_lsp("README"), None);
}

#[test]
fn path_parts() {
    assert_eq!(path_file_name("a/b/c.tar.gz"), Some("c.tar.gz".to_string()));
    assert_eq!(path_extension("a/b/c.tar.gz"), Some("gz".to_string()));
    assert_eq!(path_extension("a/.hidden"), None);
    assert_eq!(path_file_name("a/.."), None);
}

#[test]
fn sessions_switch() {
    let mut st = DevUtilsState::new();
    let id = create_session(&mut st, "work");
    assert!(id.starts_with("sess_"));
    assert_eq!(switch_session(&mut st, &id).unwrap(), "Switched to session: work");
    assert_eq!(switch_session(&mut st, "none"), Err("Session not found".to_string()));
}

#[test]
fn notifications_keep_the_last_fifty() {
    let mut st = DevUtilsState::new();
    for i in 0..60 {
        send_notification(&mut st, &format!("m{}", i), NotificationType::Info);
    }
    assert_eq!(st.notifications.len(), MAX_NOTIFICATIONS);
    assert_eq!(st.notifications[0].message, "m10");
    assert_eq!(st.notifications[49].message, "m59");
}

#[test]
fn env_and_api_keys() {
    let mut st = DevUtilsState::new();
    assert_eq!(set_env_var(&mut st, "A", "1"), "Set A=1");
    set_env_var(&mut st, "A", "2");
    assert_eq!(get_env_var(&st, "A"), Some("2".to_string()));
    assert_eq!(add_api_key(&mut st, "openai", "k"), "Set API_KEY_OPENAI=k");
    assert_eq!(list_api_keys(&st), vec!["OPENAI".to_string()]);
}

#[test]
fn context_and_cloud() {
    let mut st = DevUtilsState::new();
    assert_eq!(summarize_context(&mut st), "Enable summary mode first");
    st.context.summary_enabled = true;
    st.context.max_tokens = 1000;
    st.context.current_tokens = 900;
    assert_eq!(summarize_context(&mut st), "Context summarized");
    assert_eq!(st.context.current_tokens, 500);
    assert_eq!(sync_to_cloud(&st), "Enable cloud sync first: devutils settings sync enable");
}
