use devutils::history::{add_history, clear_history, get_history, search_history, History, HistoryEntry};

#[test]
fn history_line_round_trip() {
    let e = HistoryEntry { timestamp: 1700000000, command: "git status".into(), exit_code: -3, duration_ms: 42 };
    let line = e.to_line();
    assert_eq!(line, "1700000000\tgit status\t-3\t42");
    let back = HistoryEntry::from_line(&line).unwrap();
    assert_eq!(back.timestamp, 1700000000);
    assert_eq!(back.command, "git status");
    assert_eq!(back.exit_code, -3);
    assert_eq!(back.duration_ms, 42);
}

#[test]
fn history_bad_lines() {
    assert!(HistoryEntry::from_line("1\ta\tb").is_none());
    assert!(HistoryEntry::from_line("x\ta\t0\t1").is_none());
    assert!(HistoryEntry::from_line("1\ta\t0\t+7").is_some());
    assert!(HistoryEntry::from_line("1\ta\t2147483648\t7").is_none());
    assert!(HistoryEntry::from_line("1\ta\t-2147483648\t7").is_some());
}

#[test]
fn history_load_search_recent() {
    let h = History::new("hist", "1\tls\t0\t5\ngarbage\n2\tcargo build\t1\t6\r\n3\tls -la\t0\t7");
    assert_eq!(h.storage_path(), "hist");
    let found = h.search("ls");
    assert_eq!(found.len(), 2);
    assert_eq!(found[1].command, "ls -la");
    let recent = h.recent(2);
    assert_eq!(recent.len(), 2);
    assert_eq!(recent[0].timestamp, 3);
    assert_eq!(recent[1].timestamp, 2);
    assert_eq!(h.recent(10).len(), 3);
    assert_eq!(h.contents(), "1\tls\t0\t5\n2\tcargo build\t1\t6\n3\tls -la\t0\t7\n");
}

#[test]
fn history_global_slot() {
    let mut slot: Option<History> = None;
    add_history(&mut slot, "ignored".into(), 0, 1);
    assert!(get_history(&slot).is_empty());
    slot = Some(History::new("p", ""));
    add_history(&mut slot, "make".into(), 2, 3);
    let all = get_history(&slot);
    assert_eq!(all.len(), 1);
    assert_eq!(all[0].exit_code, 2);
    assert_eq!(search_history(&slot, "ma").len(), 1);
    clear_history(&mut slot);
    assert!(get_history(&slot).is_empty());
}
