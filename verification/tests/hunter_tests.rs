use devutils::intelligence::hunter::{harness_file_name, hunt_command, hunt_report, BugHunter};

const SOURCE: &str = "use std::fmt;\n\
pub fn parse_input(data: &str, limit: usize) -> Result<String>\n\
    pub fn helper(&self, flag: bool)\n\
pub fn no_args() -> u32 {\n\
fn private(x: i32) {}\n\
pub fn generic<T>(x: T) {}\n";

#[test]
fn extracts_public_signatures() {
    let sigs = BugHunter::extract_pub_fns(SOURCE);
    assert_eq!(sigs.len(), 3);
    assert_eq!(sigs[0].0, "parse_input");
    assert_eq!(sigs[0].1, vec!["&str".to_string(), "usize) -> Result<String".to_string()]);
    assert_eq!(sigs[1].0, "helper");
    assert_eq!(sigs[1].1, vec!["bool".to_string()]);
    assert_eq!(sigs[2].0, "no_args");
    assert!(sigs[2].1.is_empty());
}

#[test]
fn param_types_skip_receivers() {
    assert_eq!(BugHunter::extract_param_types("&mut self, n: u64)"), vec!["u64".to_string()]);
    assert_eq!(BugHunter::extract_param_types("self)"), Vec::<String>::new());
    assert_eq!(BugHunter::extract_param_types(")"), Vec::<String>::new());
}

#[test]
fn strategies_by_type() {
    assert_eq!(BugHunter::type_to_strategy("&str"), "\"\\\\PC{0,256}\"");
    assert_eq!(BugHunter::type_to_strategy("Vec<String>"), "\"\\\\PC{0,256}\"");
    assert_eq!(BugHunter::type_to_strategy("i64"), "proptest::num::i64::ANY");
    assert_eq!(BugHunter::type_to_strategy("usize"), "0usize..=65536usize");
    assert_eq!(BugHunter::type_to_strategy("bool"), "proptest::bool::ANY");
    assert_eq!(BugHunter::type_to_strategy("Foo"), "\"\\\\PC{0,64}\"");
}

#[test]
fn harness_has_one_case_per_function_with_parameters() {
    let hunter = BugHunter::new();
    let (text, n) = hunter.harness_for("lib", SOURCE);
    assert_eq!(n, 3);
    assert!(text.starts_with("//! Auto-generated proptest harness for module: lib\n"));
    assert!(text.contains("fn fuzz_lib_parse_input(arg0 in \"\\\\PC{0,256}\", arg1 in \"\\\\PC{0,256}\") {"));
    assert!(text.contains("let _inputs = (arg0, arg1,);"));
    assert!(text.contains("fn fuzz_lib_helper(arg0 in proptest::bool::ANY) {"));
    assert!(!text.contains("fuzz_lib_no_args"));
    assert!(text.ends_with("    }\n}\n"));
}

#[test]
fn harness_without_signatures_has_generic_cases() {
    let hunter = BugHunter::new();
    let text = hunter.generate_proptest_harness("empty", &vec![]);
    assert!(text.contains("fn fuzz_empty_empty_string_input(s in \"\\\\PC{0,256}\") {"));
    assert!(text.contains("fn fuzz_empty_integer_boundaries(i in proptest::num::i64::ANY) {"));
}

#[test]
fn harness_takes_the_first_eight_signatures() {
    let hunter = BugHunter::new();
    let sigs: Vec<(String, Vec<String>)> = (0..10).map(|i| (format!("f{}", i), vec!["u32".to_string()])).collect();
    let text = hunter.generate_proptest_harness("m", &sigs);
    assert!(text.contains("fn fuzz_m_f7("));
    assert!(!text.contains("fn fuzz_m_f8("));
}

#[test]
fn hunt_names_and_report() {
    assert_eq!(harness_file_name("parser"), "fuzz_parser.rs");
    assert_eq!(hunt_command("parser"), "cargo test --test fuzz_parser 2>&1");
    assert_eq!(
        hunt_report("parser", 2, "ok"),
        "=== Forensic Bug Hunter Report: parser ===\nSignatures discovered: 2\n\nok\n\n✅ Execution complete."
    );
}
