use devutils::debugger::{add_breakpoint, init_session, remove_breakpoint, LogLevel};

#[test]
fn test_init_session() {
    let mut session = None;
    init_session(&mut session);
    assert!(session.is_some());
}

#[test]
fn test_add_breakpoint() {
    let mut session = None;
    init_session(&mut session);
    let id = add_breakpoint(&mut session, "test.rs", 10, None);
    assert!(id > 0);
}

#[test]
fn test_log_level() {
    assert_eq!(LogLevel::from_str("debug"), LogLevel::Debug);
    assert_eq!(LogLevel::to_str(&LogLevel::Info), "INFO");
}

#[test]
fn breakpoint_ids_increase_and_remove() {
    let mut session = None;
    init_session(&mut session);
    let a = add_breakpoint(&mut session, "a.rs", 1, None);
    let b = add_breakpoint(&mut session, "b.rs", 2, Some("x > 1"));
    assert!(b > a);
    assert!(remove_breakpoint(&mut session, a));
    assert!(!remove_breakpoint(&mut session, a));
}

#[test]
fn unknown_level_reads_as_debug() {
    assert_eq!(LogLevel::from_str("loud"), LogLevel::Debug);
    assert_eq!(LogLevel::to_str(&LogLevel::Error), "ERROR");
}

#[test]
fn level_names_read_back_as_their_levels() {
    for l in [LogLevel::Trace, LogLevel::Debug, LogLevel::Info, LogLevel::Warn, LogLevel::Error] {
        assert_eq!(LogLevel::from_str(l.to_str()), l);
    }
    assert_eq!(LogLevel::from_str("WaRn"), LogLevel::Warn);
    assert_eq!(LogLevel::from_str("verbose"), LogLevel::Debug);
}
