use devutils::local_models::{check_providers, get_status, list_ollama_models, lmstudio_answer, lmstudio_models_from, run_local, LocalRun};

#[test]
fn ollama_list_skips_header() {
    let out = "NAME ID SIZE\nllama3:8b abc 4GB\n\nmistral x y\n";
    assert_eq!(list_ollama_models(true, out), vec!["llama3:8b".to_string(), "mistral".to_string()]);
    assert!(list_ollama_models(false, out).is_empty());
}

#[test]
fn local_run_prefers_ollama() {
    let o = vec!["llama3".to_string()];
    let l = vec!["phi".to_string()];
    assert!(matches!(run_local(true, &o, true, &l), Ok(LocalRun::Ollama { model }) if model == "llama3"));
    assert!(matches!(run_local(false, &o, true, &l), Ok(LocalRun::LmStudio { model }) if model == "phi"));
    assert_eq!(
        run_local(false, &o, false, &l).unwrap_err(),
        "No local provider available. Install Ollama (ollama.ai) or LM Studio."
    );
}

#[test]
fn status_lists_models_of_available_providers() {
    let ps = check_providers(true, false);
    let s = get_status(&ps, &vec!["llama3".to_string()], &vec!["phi".to_string()]);
    assert_eq!(s, "Local Providers:\n  ollama: available\n  lm_studio: not found\n\nAvailable models:\n  - llama3\n");
    let none = get_status(&check_providers(false, false), &vec![], &vec![]);
    assert_eq!(none, "Local Providers:\n  ollama: not found\n  lm_studio: not found\n");
}

#[test]
fn lmstudio_bodies_are_read() {
    let list = br#"{"data":[{"id":"qwen"},{"name":"x"},{"id":"llama"}]}"#;
    assert_eq!(lmstudio_models_from(list), vec!["qwen".to_string(), "llama".to_string()]);
    assert!(lmstudio_models_from(b"nope").is_empty());
    assert!(lmstudio_models_from(br#"{"data":3}"#).is_empty());
    let reply = br#"{"choices":[{"message":{"role":"assistant","content":"hi"}}]}"#;
    assert_eq!(lmstudio_answer(reply), Ok("hi".to_string()));
    assert_eq!(lmstudio_answer(br#"{"choices":[]}"#), Err("No response".to_string()));
    assert!(lmstudio_answer(b"{").unwrap_err().starts_with("Parse error: "));
}
