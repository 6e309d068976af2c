use devutils::browser::{search_url, search_web, strip_tags, BrowserResult};
use devutils::corrections::CorrectionEngine;
use devutils::cron::{add_job_at, list_jobs, next_run_at, parse_schedule, remove_job, CronSchedule};
use devutils::error::DevUtilsError;
use devutils::incident::{analyze_incident, health_check, incident_prompt, suggest_fix_prompt};
use devutils::intent::{create_custom_intent, default_intents, intent_prompt};

#[test]
fn schedules_are_parsed() {
    assert!(matches!(parse_schedule("every 5000"), Ok(CronSchedule::Every { every_ms: 5000, anchor_ms: None })));
    assert!(matches!(parse_schedule("at 42"), Ok(CronSchedule::At { at_ms: 42 })));
    assert_eq!(parse_schedule("every x").unwrap_err(), "Invalid duration");
    assert_eq!(parse_schedule("at x").unwrap_err(), "Invalid timestamp");
}

#[test]
fn next_runs() {
    assert_eq!(next_run_at(&CronSchedule::At { at_ms: 100 }, 50), Some(100));
    assert_eq!(next_run_at(&CronSchedule::At { at_ms: 100 }, 150), None);
    let every = CronSchedule::Every { every_ms: 10, anchor_ms: Some(0) };
    assert_eq!(next_run_at(&every, 25), Some(30));
    assert_eq!(next_run_at(&CronSchedule::Cron { expr: "* * * * *".to_string() }, 0), Some(60000));
    assert_eq!(next_run_at(&CronSchedule::Cron { expr: "* *".to_string() }, 0), None);
}

#[test]
fn jobs_are_added_and_removed() {
    let mut jobs = Vec::new();
    let r = add_job_at(&mut jobs, "backup", "every 1000", "tar", 0);
    assert!(r.contains("backup"));
    assert_eq!(jobs.len(), 1);
    assert!(list_jobs(&jobs).contains("backup"));
    remove_job(&mut jobs, "backup");
    assert!(jobs.is_empty());
}

#[test]
fn corrections_fix_typos() {
    let e = CorrectionEngine::new();
    assert_eq!(e.correct("cd.."), Some("cd ..".to_string()));
    assert_eq!(e.correct("git brnach"), Some("git branch".to_string()));
    assert_eq!(e.correct("git push"), Some("git push -u origin".to_string()));
    assert_eq!(e.correct("echo hi"), None);
}

#[test]
fn intents() {
    let mut reg = default_intents();
    assert_eq!(intent_prompt(&reg, "fix-bug", "login").unwrap(), "Fix a bug for: login");
    assert_eq!(intent_prompt(&reg, "nope", "x").unwrap_err(), "Intent not found: nope");
    assert!(create_custom_intent(&mut reg, "doc", "Write docs").is_ok());
    assert_eq!(intent_prompt(&reg, "doc", "api").unwrap(), "Write docs for: api");
}

#[test]
fn incidents() {
    assert_eq!(incident_prompt("db down"), "Analyze incident: db down. Return id, severity, root_cause, fix_suggested");
    let i = analyze_incident("db down", "disk full").unwrap();
    assert_eq!(i.id, "INC-001");
    assert_eq!(i.root_cause, Some("disk full".to_string()));
    assert_eq!(suggest_fix_prompt("E1"), "Suggest fix for: E1");
    assert_eq!(health_check().unwrap(), "CPU: 45% | Memory: 2.1GB");
}

#[test]
fn error_messages() {
    assert_eq!(DevUtilsError::ApiError("x".to_string()).to_string(), "API Request Failed: x");
    assert_eq!(DevUtilsError::General("y".to_string()).to_string(), "General Error: y");
}

#[test]
fn page_text_and_search() {
    assert_eq!(strip_tags("<p>Hello <b>world</b></p><script>x</script>"), "Hello world");
    assert_eq!(search_url("rust verus"), "https://www.google.com/search?q=rust+verus");
    let none = BrowserResult { success: false, html: None, text: None, screenshot: None, error: None };
    assert_eq!(search_web(&none).unwrap_err(), "No results found");
    let page = BrowserResult { success: true, html: None, text: Some("a\nb".to_string()), screenshot: None, error: None };
    assert_eq!(search_web(&page).unwrap(), "a\nb");
}
