use devutils::daemon::{record_request, request_args, Daemon};
use devutils::fast_render::{spin_char, ProgressBar};
use devutils::git_session::{changed_files, get_session, list_sessions, record_session, undo_session};
use devutils::integrations::{detect_project_type, ProjectMarkers};
use devutils::intelligence::memory_graph::KnowledgeGraph;
use devutils::multiagent::{get_multiagent_stats, list_multiagents, spawn_multiagent_at, AgentStore};

fn markers() -> ProjectMarkers {
    ProjectMarkers {
        cargo_toml: false,
        package_json: false,
        tsconfig_json: false,
        go_mod: false,
        requirements_txt: false,
        pyproject_toml: false,
        pom_xml: false,
        build_gradle: false,
        gemfile: false,
        vite_config_ts: false,
        vite_config_js: false,
        next_config_js: false,
        manage_py: false,
        main_py: false,
    }
}

#[test]
fn agents_get_numbered_ids() {
    let mut store = AgentStore::new();
    assert_eq!(list_multiagents(&store), "No active agents");
    assert_eq!(spawn_multiagent_at(&mut store, "coder", "write".to_string(), 7), "Spawned agent coder_1 with task: write");
    assert_eq!(spawn_multiagent_at(&mut store, "coder", "test".to_string(), 8), "Spawned agent coder_2 with task: test");
    assert!(get_multiagent_stats(&store, "coder_2").starts_with("Agent: coder_2\n  Name: coder\n  Task: test"));
    assert!(list_multiagents(&store).starts_with("Active Agents:\n"));
}

#[test]
fn knowledge_is_learned_and_recalled() {
    let mut g = KnowledgeGraph::new();
    g.learn("a", "rust is fast", vec![]);
    g.learn("b", "python is easy", vec![]);
    g.learn("a", "rust is safe", vec![]);
    assert_eq!(g.nodes.len(), 2);
    let hits = g.recall("safe", &vec![]);
    assert_eq!(hits.len(), 1);
    assert_eq!(hits[0].id, "a");
    assert_eq!(g.recall("zzz", &vec!["b".to_string()]).len(), 1);
}

#[test]
fn daemon_counts_requests() {
    let mut d = Daemon::new(7890);
    record_request(&mut d.state, "  status now \n");
    assert_eq!(d.state.requests, 1);
    assert_eq!(d.stats(), "DevUtils Daemon Stats:\n  Requests: 1\n  Last request: status now");
    assert_eq!(request_args("git status"), Some(vec!["status".to_string()]));
    assert_eq!(request_args("   "), None);
}

#[test]
fn sessions_record_changed_files() {
    let files = changed_files(" M a.rs\n?? b.rs\n");
    assert_eq!(files, vec!["a.rs".to_string(), "b.rs".to_string()]);
    let mut sessions = Vec::new();
    assert_eq!(list_sessions(&sessions), "No sessions found");
    record_session(&mut sessions, "s1", files, 10);
    assert_eq!(get_session(&sessions, "s1"), "s1: sess_10 - 2 files");
    assert_eq!(undo_session(&mut sessions, "s1").unwrap(), vec!["a.rs".to_string(), "b.rs".to_string()]);
}

#[test]
fn project_types() {
    let mut m = markers();
    assert_eq!(detect_project_type(&m), "unknown");
    m.package_json = true;
    m.tsconfig_json = true;
    assert_eq!(detect_project_type(&m), "typescript");
    m.cargo_toml = true;
    assert_eq!(detect_project_type(&m), "rust");
}

#[test]
fn spinner_and_progress() {
    assert_eq!(spin_char(0), '\u{280b}');
    assert_eq!(spin_char(11), '\u{2819}');
    let mut p = ProgressBar::new(10);
    p.set(4);
    assert_eq!(p.current, 4);
    assert_eq!(p.total, 10);
}
