use devutils::config::{api_key_env_var, run_config_cmd, set_value, Config, ConfigReply};

#[test]
fn test_config_defaults() {
    let config = Config::default();
    assert_eq!(config.api.provider, "openai");
}

#[test]
fn set_value_sets_provider_and_model() {
    let mut cfg = Config::default();
    assert!(set_value(&mut cfg, "api.provider", "nvidia").is_ok());
    assert_eq!(cfg.api.provider, "nvidia");
    assert!(set_value(&mut cfg, "api.default_model", "gpt-4o").is_ok());
    assert_eq!(cfg.api.default_model, "gpt-4o");
}

#[test]
fn set_value_rejects_unknown_key() {
    let mut cfg = Config::default();
    assert!(set_value(&mut cfg, "no_such_key", "x").is_err());
}

#[test]
fn env_var_names_follow_provider() {
    assert_eq!(api_key_env_var("openai"), "OPENAI_API_KEY");
    assert_eq!(api_key_env_var("nvidia"), "NVIDIA_API_KEY");
}

#[test]
fn config_unknown_subcommand_is_an_error() {
    let mut cfg = Config::default();
    let r = run_config_cmd(&mut cfg, "frobnicate", &vec![]);
    assert!(r.is_err());
}

#[test]
fn config_show_asks_to_print() {
    let mut cfg = Config::default();
    let r = run_config_cmd(&mut cfg, "show", &vec![]);
    assert!(matches!(r, Ok(ConfigReply::Show { .. })));
}

#[test]
fn config_lives_in_home() {
    use_config_path();
}

fn use_config_path() {
    assert_eq!(devutils::config::get_config_path(Some("/home/u"), None).unwrap(), "/home/u/.devutils/config.toml");
    assert_eq!(
        devutils::config::get_config_path(None, None).unwrap_err(),
        "Could not determine home directory"
    );
}
