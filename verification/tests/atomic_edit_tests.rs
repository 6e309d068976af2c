use devutils::atomic_edit::{
    apply_blocks, backup_path_for, run_atomic_edit, edit_content, edit_result, generate_diff,
    parse_search_replace_blocks, patch_blocks, search_replace_result, SearchReplaceBlock,
};

#[test]
fn test_atomic_edit() {
    let result = edit_result("test_atomic.tmp", "Hello World", "World", "Rust", None);
    assert!(result.success);
    assert!(result.new_content.contains("Rust"));
}

#[test]
fn edit_replaces_every_occurrence() {
    assert_eq!(edit_content("a b a", "a", "x"), "x b x");
}

#[test]
fn empty_old_text_appends() {
    assert_eq!(edit_content("abc", "", "def"), "abcdef");
}

#[test]
fn case_insensitive_fallback_replaces_first_match() {
    assert_eq!(edit_content("Hello WORLD and world", "World", "Rust"), "Hello Rust and world");
}

#[test]
fn no_match_leaves_text_unchanged() {
    assert_eq!(edit_content("abc", "xyz", "q"), "abc");
}

#[test]
fn diff_marks_changed_lines() {
    let d = generate_diff("a\nb\n", "a\nc\n", "f.txt");
    assert_eq!(d, "--- a/f.txt\n+++ b/f.txt\n@@ -1,2 +1,2 @@\n a\n-b\n+c\n");
    assert_eq!(generate_diff("a\nb", "a\nc", "f.txt"), "--- a/f.txt\n+++ b/f.txt\n@@ -1,2 +1,2 @@\n a\n-b\n+c\n");
    assert_eq!(generate_diff("", "x\n", "g"), "--- a/g\n+++ b/g\n@@ -0,0 +1,1 @@\n+x\n");
    assert_eq!(generate_diff("", "", "g"), "--- a/g\n+++ b/g\n");
}

#[test]
fn blocks_are_parsed_and_applied_in_order() {
    let text = "<<<<<<< SEARCH\nfoo\n=======\nbar\n>>>>>>> REPLACE\n";
    let blocks = parse_search_replace_blocks(text);
    assert_eq!(blocks.len(), 1);
    assert_eq!(blocks[0].search, "foo");
    assert_eq!(blocks[0].replace, "bar");
    assert_eq!(apply_blocks("foo foo", &blocks).unwrap(), "bar bar");
}

#[test]
fn missing_block_is_reported_with_path() {
    let blocks = vec![SearchReplaceBlock { search: "zzz".to_string(), replace: "y".to_string() }];
    let r = search_replace_result("f.rs", "abc", &blocks, None);
    assert_eq!(r.unwrap_err(), "Failed to find exact match for search block in f.rs:\nzzz");
}

#[test]
fn patch_without_blocks_is_refused() {
    assert_eq!(
        patch_blocks("just text").unwrap_err(),
        "Invalid patch format. Use <<<<<<< SEARCH / ======= / >>>>>>> REPLACE blocks."
    );
}

#[test]
fn backup_name_has_timestamp() {
    assert_eq!(backup_path_for("a.txt", 1700000000), "a.txt.backup.1700000000");
}

#[test]
fn report_shows_backup_as_debug() {
    let r = edit_result("f", "x", "x", "y", Some("f.bak".to_string()));
    let rep = run_atomic_edit(Ok(r)).unwrap();
    assert!(rep.contains("Backup: Some(\"f.bak\")"));
    assert!(rep.starts_with("\u{2705} Atomic edit successful\nFile: f\n"));
}

#[test]
fn failed_edit_passes_its_error_on() {
    assert_eq!(run_atomic_edit(Err("File not found: x".to_string())).unwrap_err(), "File not found: x");
}

#[test]
fn applying_the_diff_gives_the_new_text() {
    let old = "a\nb\nc";
    let new = "a\nx\nc\nd";
    let d = generate_diff(old, new, "f.txt");
    let body: Vec<&str> = d.lines().skip(3).collect();
    let patched: Vec<&str> = body.iter().filter(|l| !l.starts_with('-')).map(|l| &l[1..]).collect();
    let unpatched: Vec<&str> = body.iter().filter(|l| !l.starts_with('+')).map(|l| &l[1..]).collect();
    assert_eq!(patched, new.lines().collect::<Vec<_>>());
    assert_eq!(unpatched, old.lines().collect::<Vec<_>>());
    assert_eq!(d, "--- a/f.txt\n+++ b/f.txt\n@@ -1,3 +1,4 @@\n a\n-b\n+x\n c\n+d\n");
}
