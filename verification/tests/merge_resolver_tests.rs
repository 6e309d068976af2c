use devutils::merge_resolver::{
    has_conflicts, parse_conflicts, parse_strategy, resolve_conflict_simple,
    ResolutionStrategy,
};

#[test]
fn test_has_conflicts() {
    assert!(has_conflicts("<<<<<<< HEAD\ncontent a\n=======\ncontent b\n>>>>>>> branch\n"));
}

#[test]
fn test_no_conflicts() {
    assert!(!has_conflicts("normal content\n"));
}

#[test]
fn conflicts_are_parsed_into_sections() {
    let cs = parse_conflicts("f.txt", "x\n<<<<<<< HEAD\nours\n=======\ntheirs\n>>>>>>> b\ny\n");
    assert_eq!(cs.len(), 1);
    assert_eq!(cs[0].our_content, "ours");
    assert_eq!(cs[0].their_content, "theirs");
    assert_eq!(cs[0].file_path, "f.txt");
}

#[test]
fn both_strategy_keeps_both_sides() {
    let cs = parse_conflicts("f", "<<<<<<< HEAD\na\n=======\nb\n>>>>>>> x\n");
    let r = resolve_conflict_simple(&cs[0], &ResolutionStrategy::UseBoth);
    assert_eq!(r.resolution, "a\n\n// ======= MERGED =======\n\nb");
}

#[test]
fn unknown_strategy_is_refused() {
    assert_eq!(parse_strategy(Some("mine")).unwrap_err(), "Unknown strategy: mine. Use: ours, theirs, both, ai");
}

use devutils::merge_resolver::{
    merge_resolve_step, resolve_file_with_ai, start_merge_resolve, MergeAction, MergeEvent,
};

const CONFLICTED: &str = "top\n<<<<<<< HEAD\nmine\n=======\nyours\n>>>>>>> feature\nbottom\n";

#[test]
fn merge_run_with_ours_writes_our_side() {
    let (mut run, a) = start_merge_resolve(Ok(vec!["a.txt".to_string()]), Some("ours"), false);
    assert!(matches!(a, MergeAction::ReadFile(ref p) if p == "a.txt"));
    let a = merge_resolve_step(&mut run, MergeEvent::Read(Ok(CONFLICTED.to_string())));
    match a {
        MergeAction::WriteFile { path, content } => {
            assert_eq!(path, "a.txt");
            assert_eq!(content, "mine");
        }
        other => panic!("unexpected {:?}", other),
    }
    match merge_resolve_step(&mut run, MergeEvent::Wrote(Ok(()))) {
        MergeAction::Done(Ok(out)) => assert_eq!(
            out,
            "Found 1 files with conflicts:\n  - a.txt\n\u{2705} Resolved a.txt using UseOurs\n\n\u{2728} Resolved 1 conflicts total\n"
        ),
        other => panic!("unexpected {:?}", other),
    }
}

#[test]
fn merge_run_with_ai_asks_the_model() {
    let (mut run, _) = start_merge_resolve(Ok(vec!["a.txt".to_string(), "b.txt".to_string()]), None, false);
    match merge_resolve_step(&mut run, MergeEvent::Read(Ok(CONFLICTED.to_string()))) {
        MergeAction::AskModel(p) => assert!(p.starts_with("You are resolving a Git merge conflict in file: a.txt")),
        other => panic!("unexpected {:?}", other),
    }
    match merge_resolve_step(&mut run, MergeEvent::Answered(Ok("merged".to_string()))) {
        MergeAction::WriteFile { content, .. } => assert_eq!(content, "merged"),
        other => panic!("unexpected {:?}", other),
    }
    match merge_resolve_step(&mut run, MergeEvent::Wrote(Ok(()))) {
        MergeAction::ReadFile(p) => assert_eq!(p, "b.txt"),
        other => panic!("unexpected {:?}", other),
    }
    match merge_resolve_step(&mut run, MergeEvent::Read(Ok("clean\n".to_string()))) {
        MergeAction::Done(Ok(out)) => {
            assert!(out.contains("\u{2705} Resolved a.txt using UseAiGenerated(\"ai\")\n"));
            assert!(out.ends_with("\n\u{2728} Resolved 1 conflicts total\n"));
        }
        other => panic!("unexpected {:?}", other),
    }
}

#[test]
fn merge_dry_run_counts_lines() {
    let (mut run, _) = start_merge_resolve(Ok(vec!["a.txt".to_string()]), Some("theirs"), true);
    match merge_resolve_step(&mut run, MergeEvent::Read(Ok(CONFLICTED.to_string()))) {
        MergeAction::Done(Ok(out)) => assert_eq!(
            out,
            "Found 1 files with conflicts:\n  - a.txt\n\n\u{26A0}\u{FE0F}  Dry run - no changes will be made\n\n\u{1F4C4} a.txt:\n  Our lines: 1\n  Their lines: 1\n"
        ),
        other => panic!("unexpected {:?}", other),
    }
}

#[test]
fn merge_run_stops_on_errors() {
    let (_, a) = start_merge_resolve(Ok(vec![]), None, false);
    assert!(matches!(a, MergeAction::Done(Ok(ref t)) if t == "No merge conflicts found"));
    let (_, a) = start_merge_resolve(Ok(vec!["a".to_string()]), Some("x"), false);
    assert!(matches!(a, MergeAction::Done(Err(ref t)) if t == "Unknown strategy: x. Use: ours, theirs, both, ai"));
    let (_, a) = start_merge_resolve(Err("Git command failed".to_string()), None, false);
    assert!(matches!(a, MergeAction::Done(Err(ref t)) if t == "Git command failed"));
    let (mut run, _) = start_merge_resolve(Ok(vec!["a".to_string()]), Some("both"), false);
    let a = merge_resolve_step(&mut run, MergeEvent::Read(Err("missing".to_string())));
    assert!(matches!(a, MergeAction::Done(Err(ref t)) if t == "Failed to read file: missing"));
    let (mut run, _) = start_merge_resolve(Ok(vec!["a".to_string()]), Some("both"), false);
    merge_resolve_step(&mut run, MergeEvent::Read(Ok(CONFLICTED.to_string())));
    let a = merge_resolve_step(&mut run, MergeEvent::Wrote(Err("read-only".to_string())));
    assert!(matches!(a, MergeAction::Done(Err(ref t)) if t == "Failed to write file: read-only"));
}

#[test]
fn file_resolved_with_answers_in_order() {
    let cs = parse_conflicts("f", "<<<<<<< HEAD\na\n=======\nb\n>>>>>>> x\n<<<<<<< HEAD\nc\n=======\nd\n>>>>>>> x\n");
    let v = resolve_file_with_ai(&cs, vec![Ok("one".to_string()), Err("offline".to_string())], true).unwrap();
    assert_eq!(v.len(), 2);
    assert_eq!(v[0].resolution, "one");
    assert_eq!(v[1].resolution, "offline");
    assert_eq!(v[1].strategy, ResolutionStrategy::UseAiGenerated("ai".to_string()));
}
