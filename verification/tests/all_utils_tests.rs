use devutils::all_utils::{cut_text, json_fmt, sort_text, toml_to_json, wc_text};
use devutils::all_utils::{
    compute_utility, gen_password, new_uuid, ai_stage_output, head_text, join_texts, not_found_message, pipeline_stages, rev_text,
    stage_call, tail_text, uniq_text, usage_error, utility_named, StageCall, Utility,
};

#[test]
fn aliases_name_the_same_utility() {
    assert_eq!(utility_named("b64"), Utility::Base64);
    assert_eq!(utility_named("base64"), Utility::Base64);
    assert_eq!(utility_named("nope"), Utility::Unknown);
}

#[test]
fn unknown_utility_message() {
    assert_eq!(not_found_message("zz"), "Utility 'zz' not found. Try 'help' for a list of 50 deep utilities.");
}

#[test]
fn usage_lines() {
    assert_eq!(usage_error(Utility::Join, 1).unwrap(), "Usage: join <file1> <file2>");
    assert!(usage_error(Utility::Join, 2).is_none());
}

#[test]
fn text_utilities() {
    assert_eq!(rev_text("abc"), "cba");
    assert_eq!(head_text("1\n2\n3\n", 2), "1\n2");
    assert_eq!(tail_text("1\n2\n3\n", 2), "2\n3");
    assert_eq!(uniq_text("a\na\nb\na\n"), "a\nb\na");
    assert_eq!(join_texts("a\nb\nc", "1\n2"), "a 1\nb 2");
}

#[test]
fn pipeline_stages_and_calls() {
    let st = pipeline_stages("uuid |  | rev");
    assert_eq!(st.len(), 2);
    match stage_call(&st[1], "abc") {
        StageCall::Run { name, args } => {
            assert_eq!(name, "rev");
            assert_eq!(args, vec!["abc".to_string()]);
        },
        _ => panic!("expected a utility"),
    }
    let ai = vec!["ai".to_string(), "--grounding".to_string(), "--system=be".to_string(), "hello".to_string()];
    match stage_call(&ai, "") {
        StageCall::Ai { prompt, grounding, system } => {
            assert_eq!(prompt, "hello");
            assert!(grounding);
            assert_eq!(system, Some("be".to_string()));
        },
        _ => panic!("expected ai"),
    }
    assert_eq!(ai_stage_output(Err("x".to_string())), "AI Error: x");
}

#[test]
fn digests_in_hex() {
    assert_eq!(compute_utility(Utility::Md5, "abc", b"abc").unwrap(), "900150983cd24fb0d6963f7d28e17f72");
    assert_eq!(
        compute_utility(Utility::Sha256, "abc", b"abc").unwrap(),
        "ba7816bf8f01cfea414140de5dae2223b00361a396177a9cb410ff61f20015ad"
    );
    assert_eq!(compute_utility(Utility::Crc32, "abc", b"abc").unwrap(), "352441c2");
    assert_eq!(compute_utility(Utility::Adler32, "abc", b"abc").unwrap(), "024d0127");
}

#[test]
fn encodings() {
    assert_eq!(compute_utility(Utility::Base64, "abc", b"abc").unwrap(), "YWJj");
    assert_eq!(compute_utility(Utility::Unbase64, " YWJj ", b" YWJj ").unwrap(), "abc");
    assert_eq!(compute_utility(Utility::Unbase64, "!!", b"!!").unwrap(), "Invalid base64");
    assert_eq!(compute_utility(Utility::Hex, "abc", b"abc").unwrap(), "616263");
    assert_eq!(compute_utility(Utility::UrlEncode, "a b&~", b"a b&~").unwrap(), "a%20b%26~");
    assert_eq!(compute_utility(Utility::UrlDecode, "a%20b", b"a%20b").unwrap(), "a b");
    assert_eq!(compute_utility(Utility::HtmlEncode, "<a>&", b"<a>&").unwrap(), "&lt;a&gt;&amp;");
    assert!(compute_utility(Utility::Du, ".", b".").is_none());
}

#[test]
fn random_values_have_their_shape() {
    assert_eq!(new_uuid(false).len(), 36);
    assert_eq!(new_uuid(true).len(), 36);
    assert_eq!(gen_password(12).chars().count(), 12);
}

#[test]
fn json_and_toml_are_reformatted() {
    assert_eq!(json_fmt("{ \"a\" : [1, 2] }", false), "{\"a\":[1,2]}");
    assert_eq!(json_fmt("{\"a\":1}", true), "{\n  \"a\": 1\n}");
    assert_eq!(json_fmt("{oops", true), "Invalid JSON");
    assert_eq!(toml_to_json("a = 1"), "{\n  \"a\": 1\n}");
    assert!(toml_to_json("a = ").starts_with("Invalid TOML: "));
}

#[test]
fn sort_orders_lines_and_keeps_repeats() {
    assert_eq!(sort_text("b\na\nc\na"), "a\na\nb\nc");
    assert_eq!(sort_text(""), "");
    assert_eq!(sort_text("B\na\nÄ"), "B\na\nÄ");
}

#[test]
fn wc_counts_lines_words_and_bytes() {
    assert_eq!(wc_text("hello world\nfoo"), "Lines: 2, Words: 3, Chars: 14");
    assert_eq!(wc_text(""), "Lines: 0, Words: 0, Chars: 0");
    assert_eq!(wc_text("é  x\n"), "Lines: 1, Words: 2, Chars: 5");
}

#[test]
fn cut_takes_one_field_of_each_line() {
    assert_eq!(cut_text("a,b,c\nd,e", ",", 1), "b\ne");
    assert_eq!(cut_text("a,b\nc", ",", 1), "b\n");
    assert_eq!(cut_text("a::b::c", "::", 2), "c");
    assert_eq!(cut_text("abc", "", 1), "a");
    assert_eq!(cut_text("abc", "", 0), "");
}
