use devutils::ai::{gemini_answer, ollama_answer, openai_answer};
use devutils::ai::{
    active_provider_config, chat_messages, detect_language, extract_definitions, gemini_reply,
    gemini_request, generate_route, mock_debug, mock_refactor, mock_tests, ollama_reply,
    ollama_url, openai_reply, sse_line, OpenAIFields, AIClient, CodeCompleter, CodeRefactorer,
    GenerateOptions, GenerateRoute, GeminiResponse, OllamaResponse, ProviderEnv,
    RefactorOutcome, SseLine, TokenUsage,
};

fn env() -> ProviderEnv {
    ProviderEnv {
        gemini_api_key: None,
        gemini_model: None,
        nvidia_api_key: None,
        nvidia_model: None,
        nvidia_base_url: None,
        openai_api_key: None,
        deepseek_api_key: None,
    }
}

#[test]
fn no_key_means_openai_defaults() {
    let (k, m, u) = active_provider_config(&env());
    assert_eq!(k, "");
    assert_eq!(m, "gpt-4");
    assert_eq!(u, "https://api.openai.com/v1");
}

#[test]
fn gemini_key_wins_over_others() {
    let mut e = env();
    e.gemini_api_key = Some("g".to_string());
    e.openai_api_key = Some("o".to_string());
    let c = AIClient::new(&e);
    assert_eq!(c.api_key, "g");
    assert_eq!(c.model, "gemini-2.5-flash");
    assert_eq!(c.provider_name(), "Gemini");
}

#[test]
fn empty_key_is_skipped() {
    let mut e = env();
    e.gemini_api_key = Some(String::new());
    e.deepseek_api_key = Some("d".to_string());
    let c = AIClient::new(&e);
    assert_eq!(c.api_key, "d");
    assert_eq!(c.provider_name(), "DeepSeek");
}

#[test]
fn route_needs_a_key() {
    let c = AIClient::new(&env());
    assert_eq!(generate_route(&c).unwrap_err(), "ERROR: OPENAI_API_KEY / GEMINI_API_KEY is not set.");
    let mut e = env();
    e.openai_api_key = Some("k".to_string());
    assert_eq!(generate_route(&AIClient::new(&e)).unwrap(), GenerateRoute::OpenAiCompatible);
}

#[test]
fn system_instruction_comes_first() {
    let mut o = GenerateOptions::default();
    o.system_instruction = Some("be brief".to_string());
    let m = chat_messages("hi", &o);
    assert_eq!(m.len(), 2);
    assert_eq!(m[0].role, "system");
    assert_eq!(m[1].content, "hi");
}

#[test]
fn gemini_parts_put_files_first() {
    let mut o = GenerateOptions::default();
    o.files = vec!["f1".to_string()];
    let r = gemini_request("p", &o);
    assert_eq!(r.parts.len(), 2);
    assert_eq!(r.parts[0].file_uri.as_deref(), Some("f1"));
    assert_eq!(r.parts[1].text.as_deref(), Some("p"));
}

#[test]
fn replies_are_mapped() {
    assert_eq!(openai_reply(None).unwrap_err(), "ERROR: API request failed");
    let none = OpenAIFields { choices: Some(vec![]), usage: None };
    assert_eq!(openai_reply(Some(Some(none))).unwrap_err(), "ERROR: Empty response from AI");
    let one = OpenAIFields { choices: Some(vec![(Some("assistant".to_string()), Some("hello".to_string()))]), usage: None };
    let (t, u) = openai_reply(Some(Some(one))).unwrap();
    assert_eq!(t, "hello");
    assert_eq!(u, TokenUsage::default());
    let g = GeminiResponse { body: "{}".to_string(), text: None, usage: None };
    assert_eq!(gemini_reply(Ok(g)).unwrap_err(), "ERROR: Failed to parse Gemini response. Raw: {}");
    let o = OllamaResponse { response: Some("r".to_string()), prompt_eval_count: Some(3), eval_count: Some(4) };
    let (t, u) = ollama_reply(Ok(Some(o))).unwrap();
    assert_eq!(t, "r");
    assert_eq!(u.total_tokens, 7);
}

#[test]
fn ollama_url_depends_on_v1() {
    assert_eq!(ollama_url("http://localhost:11434"), "http://localhost:11434/api/generate");
    assert_eq!(ollama_url("http://x/v1"), "http://x/v1/generate");
}

#[test]
fn sse_lines_are_read() {
    assert_eq!(sse_line("data: [DONE]"), SseLine::Done);
    assert_eq!(sse_line("data: {\"a\":1}"), SseLine::Data("{\"a\":1}".to_string()));
    assert_eq!(sse_line(": keep-alive"), SseLine::Other);
}

#[test]
fn offline_bug_check_finds_notes() {
    assert_eq!(mock_debug("ok\n// TODO fix\npassword = \"x\""), "Line 2: TODO/FIXME\nLine 3: Possible hardcoded secret!");
    assert_eq!(mock_debug("fine"), "No obvious issues found.");
}

#[test]
fn offline_refactor_drops_comments() {
    assert_eq!(mock_refactor("a\n// c\n# d\nb"), "a\nb");
}

#[test]
fn languages_are_detected() {
    assert_eq!(detect_language("fn main() -> i32"), "rust");
    assert_eq!(detect_language("def f():"), "python");
    assert_eq!(detect_language("whatever"), "unknown");
}

#[test]
fn python_test_stubs() {
    assert_eq!(mock_tests("def foo(x):\n    return x"), "import pytest\n\ndef test_foo(x):():\n    pass");
}

#[test]
fn definitions_are_listed() {
    assert_eq!(extract_definitions("fn a() {}\nlet x = 1;\nstruct B;"), "fn a() {}, struct B;");
    assert_eq!(extract_definitions("x"), "(none)");
}

#[test]
fn completions_fall_back_to_defaults() {
    let c = CodeCompleter::new(&env());
    let r = c.complete("", 0);
    assert_eq!(r.len(), 6);
    assert_eq!(r[0].label, "true");
    assert_eq!(r[0].score_hundredths, 80);
}

#[test]
fn refactor_patterns() {
    let r = CodeRefactorer::new(&env());
    match r.apply_pattern("a\n  for x in y {\nb", "split-loop") {
        RefactorOutcome::Code(c) => assert_eq!(c, "a\n    for x in y {\nb"),
        _ => panic!("expected code"),
    }
    match r.apply_pattern("if let Some(v) = o {", "use-match") {
        RefactorOutcome::Code(c) => assert_eq!(c, "match v {\n    Some(x) => {{ }},\n    None => {{ }},\n}"),
        _ => panic!("expected code"),
    }
    match r.apply_pattern("x\n// y", "unknown") {
        RefactorOutcome::Code(c) => assert_eq!(c, "x"),
        _ => panic!("expected code"),
    }
}

#[test]
fn reply_bodies_are_read() {
    let body = r#"{"candidates":[{"content":{"parts":[{"text":"hello"}]}}],"usageMetadata":{"promptTokenCount":3,"candidatesTokenCount":4,"totalTokenCount":7}}"#;
    let (t, u) = gemini_answer(Ok(body.to_string())).unwrap();
    assert_eq!(t, "hello");
    assert_eq!((u.prompt_tokens, u.completion_tokens, u.total_tokens), (3, 4, 7));
    assert_eq!(gemini_answer(Ok("{}".to_string())).unwrap_err(), "ERROR: Failed to parse Gemini response. Raw: {}");
    let (t, u) = ollama_answer(Ok(r#"{"response":"hi","prompt_eval_count":2,"eval_count":5}"#.to_string())).unwrap().unwrap();
    assert_eq!(t, "hi");
    assert_eq!(u.total_tokens, 7);
    assert_eq!(ollama_answer(Ok("nope".to_string())).unwrap().unwrap_err(), "ERROR: Failed to parse Ollama response");
    let body = r#"{"choices":[{"message":{"role":"assistant","content":"yo"}}],"usage":{"prompt_tokens":1,"completion_tokens":2,"total_tokens":3}}"#;
    let (t, u) = openai_answer(Some(body.to_string())).unwrap();
    assert_eq!(t, "yo");
    assert_eq!(u.total_tokens, 3);
    assert_eq!(openai_answer(Some(r#"{"choices":[]}"#.to_string())).unwrap_err(), "ERROR: Empty response from AI");
}

#[test]
fn openai_replies_read_as_typed_fields() {
    let ok = r#"{"choices":[{"message":{"role":"assistant","content":"a"}},{"message":{"role":"assistant","content":"b"}}]}"#;
    let (t, u) = openai_answer(Some(ok.to_string())).unwrap();
    assert_eq!(t, "a");
    assert_eq!((u.prompt_tokens, u.completion_tokens, u.total_tokens), (0, 0, 0));
    let no_content = r#"{"choices":[{"message":{"role":"assistant"}},{"message":{"role":"assistant","content":"b"}}]}"#;
    assert_eq!(openai_answer(Some(no_content.to_string())).unwrap_err(), "ERROR: Failed to parse response");
    let short_usage = r#"{"choices":[{"message":{"role":"assistant","content":"a"}}],"usage":{"prompt_tokens":1}}"#;
    assert_eq!(openai_answer(Some(short_usage.to_string())).unwrap_err(), "ERROR: Failed to parse response");
    let null_usage = r#"{"choices":[{"message":{"role":"assistant","content":"a"}}],"usage":null}"#;
    assert_eq!(openai_answer(Some(null_usage.to_string())).unwrap().0, "a");
    assert_eq!(openai_answer(Some("not json".to_string())).unwrap_err(), "ERROR: Failed to parse response");
    assert_eq!(openai_answer(Some("{}".to_string())).unwrap_err(), "ERROR: Failed to parse response");
    assert_eq!(openai_answer(None).unwrap_err(), "ERROR: API request failed");
}
