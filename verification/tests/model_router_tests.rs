use devutils::ai::{ProviderEnv, TokenUsage};
use devutils::model_router::{orchestrate_error, orchestrate_options, CloudOutcome, ModelRouter, ModelSource};

fn env() -> ProviderEnv {
    ProviderEnv {
        gemini_api_key: None,
        gemini_model: None,
        nvidia_api_key: None,
        nvidia_model: None,
        nvidia_base_url: None,
        openai_api_key: None,
        deepseek_api_key: None,
    }
}

#[test]
fn routes_to_local_only_when_forced() {
    assert_eq!(ModelRouter::new(&env(), true).first_source(), ModelSource::Local);
    assert_eq!(ModelRouter::new(&env(), false).first_source(), ModelSource::Cloud);
}

#[test]
fn cloud_failure_falls_back() {
    match ModelRouter::after_cloud(Err("quota".to_string())) {
        CloudOutcome::FallBack(w) => assert_eq!(w, "\u{26A0}\u{FE0F} Cloud API failed: quota. Falling back to local model..."),
        other => panic!("unexpected {:?}", other),
    }
    let usage = TokenUsage { prompt_tokens: 1, completion_tokens: 2, total_tokens: 3 };
    assert!(matches!(ModelRouter::after_cloud(Ok(("hi".to_string(), usage))), CloudOutcome::Answered(ref t, _) if t == "hi"));
    assert_eq!(ModelRouter::local_result(Err("none".to_string()), true).unwrap_err(), "Local fallback failed: none");
    assert_eq!(ModelRouter::local_result(Err("none".to_string()), false).unwrap_err(), "Local model failed: none");
    let (s, u) = ModelRouter::local_result(Ok("ok".to_string()), true).unwrap();
    assert_eq!(s, "ok");
    assert_eq!(u.total_tokens, 0);
}

#[test]
fn phases_set_the_temperature() {
    assert_eq!(orchestrate_options("PLANNING").temperature_milli, 800);
    assert_eq!(orchestrate_options("IMPLEMENTATION").temperature_milli, 200);
    assert_eq!(orchestrate_options("VERIFICATION").temperature_milli, 0);
    assert_eq!(orchestrate_options("other").temperature_milli, 700);
    assert_eq!(orchestrate_error("PLANNING", "down"), "[PLANNING] API failed: down");
}

#[test]
fn shadow_mode_keeps_only_suggestions() {
    use_shadow();
}

fn use_shadow() {
    let shadow = devutils::intelligence::shadow::ShadowMode::new(&env());
    assert!(!shadow.router.force_local);
    let p = devutils::intelligence::shadow::ShadowMode::predict_prompt("d", "c");
    assert!(p.ends_with("DIFF:\nd\n\nCONTEXT:\nc"));
    assert_eq!(
        devutils::intelligence::shadow::ShadowMode::predict_refactor(Ok("SUGGESTION: split".to_string())),
        Ok(Some("SUGGESTION: split".to_string()))
    );
    assert_eq!(devutils::intelligence::shadow::ShadowMode::predict_refactor(Ok("nothing".to_string())), Ok(None));
    assert_eq!(devutils::intelligence::shadow::ShadowMode::predict_refactor(Err("x".to_string())), Err("x".to_string()));
}
