//! Tool configuration: its defaults, the keys that can be set, the API keys
//! per provider, and the `config` command.

use vstd::prelude::*;
use crate::text::{assoc_set, cat, cat3, debug_list, debug_strings, find_key, key_index, owned, pair_list,
    parse_bool, parse_bool_spec, parse_u32, parse_u32_spec, push_str, set_key, str_eq, strip_prefix,
    strip_prefix_spec, views};

verus! {

/// The whole configuration.
#[derive(Debug, Clone)]
pub struct Config {
    pub api: ApiConfig,
    pub plugins: PluginConfig,
    pub enterprise: EnterpriseConfig,
    pub ui: UiConfig,
    pub editor: String,
    pub shell: String,
    pub keybindings: String,
    pub pager: String,
    pub color_theme: String,
    pub max_history: u32,
    pub auto_update: bool,
    pub sync_provider: String,
    pub sync_path: Option<String>,
    pub default_ai_provider: String,
    pub default_ai_model: String,
}

/// The AI provider settings and the API key of each provider.
#[derive(Debug, Clone)]
pub struct ApiConfig {
    pub provider: String,
    pub api_keys: Vec<(String, String)>,
    pub default_model: String,
    pub timeout_secs: u64,
}

/// Where plugins come from and which are installed.
#[derive(Debug, Clone)]
pub struct PluginConfig {
    pub registry_url: String,
    pub installed: Vec<String>,
    pub auto_update: bool,
}

/// Enterprise switches.
#[derive(Debug, Clone)]
pub struct EnterpriseConfig {
    pub enabled: bool,
    pub sso_url: Option<String>,
    pub audit_enabled: bool,
    pub team_id: Option<String>,
}

/// Display switches.
#[derive(Debug, Clone, Copy, PartialEq, Eq, Structural)]
pub struct UiConfig {
    pub verbose: bool,
    pub color: bool,
    pub progress_bars: bool,
}

/// The API settings before any key: provider `openai`, model `gpt-4`, a
/// 60 s timeout.
pub open spec fn default_api(a: ApiConfig) -> bool {
    &&& a.provider@ == "openai"@
    &&& a.api_keys@.len() == 0
    &&& a.default_model@ == "gpt-4"@
    &&& a.timeout_secs == 60
}

impl Default for ApiConfig {
    fn default() -> (r: Self)
        ensures
            default_api(r),
    {
        ApiConfig { provider: owned("openai"), api_keys: Vec::new(), default_model: owned("gpt-4"), timeout_secs: 60 }
    }
}

impl ApiConfig {
    /// The default API settings with the keys found in the environment
    /// (`OPENAI_API_KEY`, `NVIDIA_API_KEY`, `DEEPSEEK_API_KEY`), in that order.
    pub fn with_env_keys(openai: Option<&str>, nvidia: Option<&str>, deepseek: Option<&str>) -> (r: Self)
        ensures
            r.provider@ == "openai"@,
            r.default_model@ == "gpt-4"@,
            r.timeout_secs == 60,
            pair_list(r.api_keys@) == (match openai { Some(k) => seq![("openai"@, k@)], None => seq![] })
                + (match nvidia { Some(k) => seq![("nvidia"@, k@)], None => seq![] })
                + (match deepseek { Some(k) => seq![("deepseek"@, k@)], None => seq![] }),
    {
        let mut keys: Vec<(String, String)> = Vec::new();
        match openai {
            Some(k) => keys.push((owned("openai"), owned(k))),
            None => {},
        }
        let ghost k1 = keys@;
        match nvidia {
            Some(k) => keys.push((owned("nvidia"), owned(k))),
            None => {},
        }
        let ghost k2 = keys@;
        match deepseek {
            Some(k) => keys.push((owned("deepseek"), owned(k))),
            None => {},
        }
        assert(pair_list(keys@) =~= (match openai { Some(k) => seq![("openai"@, k@)], None => seq![] })
            + (match nvidia { Some(k) => seq![("nvidia"@, k@)], None => seq![] })
            + (match deepseek { Some(k) => seq![("deepseek"@, k@)], None => seq![] }));
        ApiConfig { provider: owned("openai"), api_keys: keys, default_model: owned("gpt-4"), timeout_secs: 60 }
    }
}

impl Default for PluginConfig {
    fn default() -> (r: Self)
        ensures
            r.registry_url@ == "https://github.com/devutils"@,
            r.installed@.len() == 0,
            !r.auto_update,
    {
        PluginConfig { registry_url: owned("https://github.com/devutils"), installed: Vec::new(), auto_update: false }
    }
}

impl Default for EnterpriseConfig {
    fn default() -> (r: Self)
        ensures
            !r.enabled && r.sso_url is None && r.audit_enabled && r.team_id is None,
    {
        EnterpriseConfig { enabled: false, sso_url: None, audit_enabled: true, team_id: None }
    }
}

impl Default for UiConfig {
    fn default() -> (r: Self)
        ensures
            r == (UiConfig { verbose: false, color: true, progress_bars: true }),
    {
        UiConfig { verbose: false, color: true, progress_bars: true }
    }
}

/// The default configuration.
pub open spec fn default_config(c: Config) -> bool {
    &&& default_api(c.api)
    &&& c.plugins.registry_url@ == "https://github.com/devutils"@ && c.plugins.installed@.len() == 0 && !c.plugins.auto_update
    &&& !c.enterprise.enabled && c.enterprise.sso_url is None && c.enterprise.audit_enabled && c.enterprise.team_id is None
    &&& c.ui == (UiConfig { verbose: false, color: true, progress_bars: true })
    &&& c.editor@ == "code"@
    &&& c.shell@ == "bash"@
    &&& c.keybindings@ == "vim"@
    &&& c.pager@ == "less"@
    &&& c.color_theme@ == "auto"@
    &&& c.max_history == 1000
    &&& c.auto_update
    &&& c.sync_provider@ == "none"@
    &&& c.sync_path is None
    &&& c.default_ai_provider@ == "openai"@
    &&& c.default_ai_model@ == "gpt-4"@
}

impl Default for Config {
    fn default() -> (r: Self)
        ensures
            default_config(r),
    {
        Config {
            api: ApiConfig::default(),
            plugins: PluginConfig::default(),
            enterprise: EnterpriseConfig::default(),
            ui: UiConfig::default(),
            editor: owned("code"),
            shell: owned("bash"),
            keybindings: owned("vim"),
            pager: owned("less"),
            color_theme: owned("auto"),
            max_history: 1000,
            auto_update: true,
            sync_provider: owned("none"),
            sync_path: None,
            default_ai_provider: owned("openai"),
            default_ai_model: owned("gpt-4"),
        }
    }
}

impl Config {
    /// The API key stored for `provider`.
    pub fn stored_api_key(&self, provider: &str) -> (r: Option<String>)
        ensures
            match key_index(self.api.api_keys@, provider@) {
                Some(i) => r is Some && r->0@ == self.api.api_keys@[i].1@,
                None => r is None,
            },
    {
        match find_key(&self.api.api_keys, provider) {
            Some(i) => Some(owned(self.api.api_keys[i].1.as_str())),
            None => None,
        }
    }

    /// Stores the API key of `provider`.
    pub fn set_api_key(&mut self, provider: &str, key: &str)
        ensures
            *final(self) == (Config { api: ApiConfig { api_keys: final(self).api.api_keys, ..old(self).api }, ..*old(self) }),
            pair_list(final(self).api.api_keys@) == assoc_set(old(self).api.api_keys@, provider@, key@),
    {
        set_key(&mut self.api.api_keys, provider, key);
    }

    /// The current provider.
    pub fn get_provider(&self) -> (r: String)
        ensures
            r@ == self.api.provider@,
    {
        owned(self.api.provider.as_str())
    }

    /// Sets the current provider.
    pub fn set_provider(&mut self, provider: &str)
        ensures
            *final(self) == (Config { api: ApiConfig { provider: final(self).api.provider, ..old(self).api }, ..*old(self) }),
            final(self).api.provider@ == provider@,
    {
        self.api.provider = owned(provider);
    }
}

/// The name of the environment variable that may hold a provider's key.
pub fn api_key_env_var(provider: &str) -> (r: String)
    ensures
        r@ == crate::text::uppercase(provider@) + "_API_KEY"@,
{
    let up = crate::text::to_upper(provider);
    cat(up.as_str(), "_API_KEY")
}

/// The configuration keys that `set_value` knows.
pub open spec fn settable(key: Seq<char>) -> bool {
    key == "editor"@ || key == "shell"@ || key == "keybindings"@ || key == "pager"@ || key == "color_theme"@
        || key == "max_history"@ || key == "auto_update"@ || key == "sync_provider"@ || key == "sync_path"@
        || key == "default_ai_provider"@ || key == "default_ai_model"@ || key == "api.provider"@
        || key == "api.default_model"@
}

/// `after` is `before` with the setting `key` set to `value`: a text taken
/// as it is, a number or a `bool` as parsed (when it parses).
pub open spec fn value_set(before: Config, after: Config, key: Seq<char>, value: Seq<char>) -> bool {
    if key == "editor"@ {
        after == Config { editor: after.editor, ..before } && after.editor@ == value
    } else if key == "shell"@ {
        after == Config { shell: after.shell, ..before } && after.shell@ == value
    } else if key == "keybindings"@ {
        after == Config { keybindings: after.keybindings, ..before } && after.keybindings@ == value
    } else if key == "pager"@ {
        after == Config { pager: after.pager, ..before } && after.pager@ == value
    } else if key == "color_theme"@ {
        after == Config { color_theme: after.color_theme, ..before } && after.color_theme@ == value
    } else if key == "max_history"@ {
        parse_u32_spec(value) matches Some(n) && after == Config { max_history: n, ..before }
    } else if key == "auto_update"@ {
        parse_bool_spec(value) matches Some(b) && after == Config { auto_update: b, ..before }
    } else if key == "sync_provider"@ {
        after == Config { sync_provider: after.sync_provider, ..before } && after.sync_provider@ == value
    } else if key == "sync_path"@ {
        after == Config { sync_path: after.sync_path, ..before } && (after.sync_path matches Some(p) && p@ == value)
    } else if key == "default_ai_provider"@ {
        after == Config { default_ai_provider: after.default_ai_provider, ..before } && after.default_ai_provider@ == value
    } else if key == "default_ai_model"@ {
        after == Config { default_ai_model: after.default_ai_model, ..before } && after.default_ai_model@ == value
    } else if key == "api.provider"@ {
        after == Config { api: ApiConfig { provider: after.api.provider, ..before.api }, ..before } && after.api.provider@ == value
    } else {
        after == Config { api: ApiConfig { default_model: after.api.default_model, ..before.api }, ..before }
            && after.api.default_model@ == value
    }
}

/// Sets one configuration value; an unknown key, a number that does not
/// parse or a `bool` that does not parse is an error and changes nothing.
pub fn set_value(cfg: &mut Config, key: &str, value: &str) -> (r: Result<(), String>)
    ensures
        !settable(key@) ==> r is Err && r->Err_0@ == "Unknown config key: "@ + key@ && *final(cfg) == *old(cfg),
        key@ == "max_history"@ && parse_u32_spec(value@) is None ==> r is Err && r->Err_0@ == "Invalid number"@
            && *final(cfg) == *old(cfg),
        key@ == "auto_update"@ && parse_bool_spec(value@) is None ==> r is Err && r->Err_0@ == "Invalid boolean"@
            && *final(cfg) == *old(cfg),
        r is Ok <==> (settable(key@) && (key@ == "max_history"@ ==> parse_u32_spec(value@) is Some)
            && (key@ == "auto_update"@ ==> parse_bool_spec(value@) is Some)),
        r is Ok ==> value_set(*old(cfg), *final(cfg), key@, value@),
{
    proof {
        reveal_strlit("editor");
        assert("editor"@.len() == 6 && "editor"@[0] == 'e');
        reveal_strlit("shell");
        assert("shell"@.len() == 5 && "shell"@[0] == 's');
        reveal_strlit("keybindings");
        assert("keybindings"@.len() == 11 && "keybindings"@[0] == 'k');
        reveal_strlit("pager");
        assert("pager"@.len() == 5 && "pager"@[0] == 'p');
        reveal_strlit("color_theme");
        assert("color_theme"@.len() == 11 && "color_theme"@[0] == 'c');
        reveal_strlit("max_history");
        assert("max_history"@.len() == 11 && "max_history"@[0] == 'm');
        reveal_strlit("auto_update");
        assert("auto_update"@.len() == 11 && "auto_update"@[0] == 'a');
        reveal_strlit("sync_provider");
        assert("sync_provider"@.len() == 13 && "sync_provider"@[0] == 's');
        reveal_strlit("sync_path");
        assert("sync_path"@.len() == 9 && "sync_path"@[0] == 's');
        reveal_strlit("default_ai_provider");
        assert("default_ai_provider"@.len() == 19 && "default_ai_provider"@[0] == 'd');
        reveal_strlit("default_ai_model");
        assert("default_ai_model"@.len() == 16 && "default_ai_model"@[0] == 'd');
        reveal_strlit("api.provider");
        assert("api.provider"@.len() == 12 && "api.provider"@[0] == 'a');
        reveal_strlit("api.default_model");
        assert("api.default_model"@.len() == 17 && "api.default_model"@[0] == 'a');
    }
    if str_eq(key, "editor") {
        cfg.editor = owned(value);
    } else if str_eq(key, "shell") {
        cfg.shell = owned(value);
    } else if str_eq(key, "keybindings") {
        cfg.keybindings = owned(value);
    } else if str_eq(key, "pager") {
        cfg.pager = owned(value);
    } else if str_eq(key, "color_theme") {
        cfg.color_theme = owned(value);
    } else if str_eq(key, "max_history") {
        match parse_u32(value) {
            Some(n) => cfg.max_history = n,
            None => return Err(owned("Invalid number")),
        }
    } else if str_eq(key, "auto_update") {
        match parse_bool(value) {
            Some(b) => cfg.auto_update = b,
            None => return Err(owned("Invalid boolean")),
        }
    } else if str_eq(key, "sync_provider") {
        cfg.sync_provider = owned(value);
    } else if str_eq(key, "sync_path") {
        cfg.sync_path = Some(owned(value));
    } else if str_eq(key, "default_ai_provider") {
        cfg.default_ai_provider = owned(value);
    } else if str_eq(key, "default_ai_model") {
        cfg.default_ai_model = owned(value);
    } else if str_eq(key, "api.provider") {
        cfg.api.provider = owned(value);
    } else if str_eq(key, "api.default_model") {
        cfg.api.default_model = owned(value);
    } else {
        return Err(cat("Unknown config key: ", key));
    }
    Ok(())
}

/// What the `config` command asks of the caller once the configuration is
/// loaded.
pub enum ConfigReply {
    /// Print the whole configuration after this heading.
    Show { heading: String },
    /// Save the changed configuration, then print this.
    Saved { message: String },
    /// Print this.
    Text { message: String },
    /// Print the stored key of `provider`, or else the one in its
    /// environment variable, or else report that none is set.
    ApiKey { provider: String, stored: Option<String> },
}

/// `args` as views.
pub open spec fn arg_views(args: Seq<String>) -> Seq<Seq<char>> {
    views(args)
}

/// Runs a `config` subcommand on the loaded configuration `cfg`.
pub fn run_config_cmd(cfg: &mut Config, subcmd: &str, args: &Vec<String>) -> (r: Result<ConfigReply, String>)
    ensures
        subcmd@ == "show"@ ==> *final(cfg) == *old(cfg) && (r matches Ok(ConfigReply::Show { heading })
            && heading@ == "Current Configuration:\n"@),
        subcmd@ == "set"@ ==> if args@.len() < 2 {
            *final(cfg) == *old(cfg) && (r matches Err(e) && e@ == "Usage: devutils config set <key> <value>"@)
        } else if args@[0]@ == "api.provider"@ {
            *final(cfg) == (Config { api: ApiConfig { provider: final(cfg).api.provider, ..old(cfg).api }, ..*old(cfg) })
                && final(cfg).api.provider@ == args@[1]@
                && (r matches Ok(ConfigReply::Saved { message })
                && message@ == "\u{2705} Set "@ + args@[0]@ + " = "@ + args@[1]@)
        } else if strip_prefix_spec(args@[0]@, "api.api_keys."@) is Some {
            *final(cfg) == (Config { api: ApiConfig { api_keys: final(cfg).api.api_keys, ..old(cfg).api }, ..*old(cfg) })
                && pair_list(final(cfg).api.api_keys@) == assoc_set(old(cfg).api.api_keys@,
                    strip_prefix_spec(args@[0]@, "api.api_keys."@)->0, args@[1]@)
                && (r matches Ok(ConfigReply::Saved { message })
                && message@ == "\u{2705} Set "@ + args@[0]@ + " = "@ + args@[1]@)
        } else {
            *final(cfg) == *old(cfg) && (r matches Err(e) && e@ == "Unknown config key: "@ + args@[0]@)
        },
        subcmd@ == "get"@ ==> *final(cfg) == *old(cfg) && if args@.len() == 0 {
            (r matches Err(e) && e@ == "Usage: devutils config get <key>"@)
        } else if args@[0]@ == "api.provider"@ {
            (r matches Ok(ConfigReply::Text { message }) && message@ == old(cfg).api.provider@)
        } else if strip_prefix_spec(args@[0]@, "api.api_keys."@) is Some {
            (r matches Ok(ConfigReply::ApiKey { provider, stored })
                && provider@ == strip_prefix_spec(args@[0]@, "api.api_keys."@)->0
                && match key_index(old(cfg).api.api_keys@, provider@) {
                    Some(i) => stored is Some && stored->0@ == old(cfg).api.api_keys@[i].1@,
                    None => stored is None,
                })
        } else {
            (r matches Err(e) && e@ == "Unknown config key: "@ + args@[0]@)
        },
        subcmd@ == "unset"@ ==> if args@.len() == 0 {
            *final(cfg) == *old(cfg) && (r matches Err(e) && e@ == "Usage: devutils config unset <key>"@)
        } else if strip_prefix_spec(args@[0]@, "api.api_keys."@) is Some {
            *final(cfg) == (Config { api: ApiConfig { api_keys: final(cfg).api.api_keys, ..old(cfg).api }, ..*old(cfg) })
                && pair_list(final(cfg).api.api_keys@) == without_key(old(cfg).api.api_keys@,
                    strip_prefix_spec(args@[0]@, "api.api_keys."@)->0)
                && (r matches Ok(ConfigReply::Saved { message })
                && message@ == "\u{2705} Unset "@ + args@[0]@)
        } else {
            *final(cfg) == *old(cfg) && (r matches Err(e) && e@ == "Cannot unset key: "@ + args@[0]@)
        },
        subcmd@ == "list"@ ==> *final(cfg) == *old(cfg) && (r matches Ok(ConfigReply::Text { message })
            && message@ == "API Provider: "@ + old(cfg).api.provider@ + "\nAPI Keys: "@
                + debug_strings(key_names(old(cfg).api.api_keys@)) + "\nDefault Model: "@ + old(cfg).api.default_model@),
        subcmd@ != "show"@ && subcmd@ != "set"@ && subcmd@ != "get"@ && subcmd@ != "unset"@ && subcmd@ != "list"@ ==>
            *final(cfg) == *old(cfg) && (r matches Err(e) && e@ == "Unknown config command: "@ + subcmd@),
{
    proof {
        reveal_strlit("show");
        assert("show"@.len() == 4 && "show"@[0] == 's');
        reveal_strlit("set");
        assert("set"@.len() == 3 && "set"@[0] == 's');
        reveal_strlit("get");
        assert("get"@.len() == 3 && "get"@[0] == 'g');
        reveal_strlit("unset");
        assert("unset"@.len() == 5 && "unset"@[0] == 'u');
        reveal_strlit("list");
        assert("list"@.len() == 4 && "list"@[0] == 'l');
        reveal_strlit("api.provider");
        assert("api.provider"@.len() == 12 && "api.provider"@[0] == 'a');
    }
    if str_eq(subcmd, "show") {
        return Ok(ConfigReply::Show { heading: owned("Current Configuration:\n") });
    }
    if str_eq(subcmd, "set") {
        if args.len() < 2 {
            return Err(owned("Usage: devutils config set <key> <value>"));
        }
        let key = args[0].as_str();
        let value = args[1].as_str();
        if str_eq(key, "api.provider") {
            cfg.set_provider(value);
        } else {
            match strip_prefix(key, "api.api_keys.") {
                Some(provider) => cfg.set_api_key(provider.as_str(), value),
                None => return Err(cat("Unknown config key: ", key)),
            }
        }
        let mut m = cat3("\u{2705} Set ", key, " = ");
        push_str(&mut m, value);
        return Ok(ConfigReply::Saved { message: m });
    }
    if str_eq(subcmd, "get") {
        if args.len() == 0 {
            return Err(owned("Usage: devutils config get <key>"));
        }
        let key = args[0].as_str();
        if str_eq(key, "api.provider") {
            return Ok(ConfigReply::Text { message: cfg.get_provider() });
        }
        return match strip_prefix(key, "api.api_keys.") {
            Some(provider) => {
                let stored = cfg.stored_api_key(provider.as_str());
                Ok(ConfigReply::ApiKey { provider, stored })
            },
            None => Err(cat("Unknown config key: ", key)),
        };
    }
    if str_eq(subcmd, "unset") {
        if args.len() == 0 {
            return Err(owned("Usage: devutils config unset <key>"));
        }
        let key = args[0].as_str();
        return match strip_prefix(key, "api.api_keys.") {
            Some(provider) => {
                remove_key(&mut cfg.api.api_keys, provider.as_str());
                Ok(ConfigReply::Saved { message: cat("\u{2705} Unset ", key) })
            },
            None => Err(cat("Cannot unset key: ", key)),
        };
    }
    if str_eq(subcmd, "list") {
        let mut names: Vec<String> = Vec::new();
        let mut i: usize = 0;
        while i < cfg.api.api_keys.len()
            invariant
                i <= cfg.api.api_keys@.len(),
                names@.len() == i,
                forall|k: int| 0 <= k < i ==> names@[k]@ == cfg.api.api_keys@[k].0@,
            decreases cfg.api.api_keys.len() - i,
        {
            names.push(owned(cfg.api.api_keys[i].0.as_str()));
            i = i + 1;
        }
        assert(views(names@) =~= key_names(cfg.api.api_keys@));
        let mut m = cat3("API Provider: ", cfg.api.provider.as_str(), "\nAPI Keys: ");
        push_str(&mut m, debug_list(&names).as_str());
        push_str(&mut m, "\nDefault Model: ");
        push_str(&mut m, cfg.api.default_model.as_str());
        return Ok(ConfigReply::Text { message: m });
    }
    Err(cat("Unknown config command: ", subcmd))
}

/// The keys of a key list, in order.
pub open spec fn key_names(v: Seq<(String, String)>) -> Seq<Seq<char>> {
    v.map_values(|p: (String, String)| p.0@)
}

/// The pairs of `v` without those whose key is `k`, in order.
pub open spec fn without_key(v: Seq<(String, String)>, k: Seq<char>) -> Seq<(Seq<char>, Seq<char>)>
    decreases v.len(),
{
    if v.len() == 0 {
        seq![]
    } else if v.last().0@ == k {
        without_key(v.drop_last(), k)
    } else {
        without_key(v.drop_last(), k).push((v.last().0@, v.last().1@))
    }
}

/// Removes every pair whose key is `k`.
pub fn remove_key(v: &mut Vec<(String, String)>, k: &str)
    ensures
        pair_list(final(v)@) == without_key(old(v)@, k@),
{
    let mut out: Vec<(String, String)> = Vec::new();
    let mut i: usize = 0;
    let ghost src = v@;
    while i < v.len()
        invariant
            v@ == src,
            i <= src.len(),
            pair_list(out@) == without_key(src.subrange(0, i as int), k@),
        decreases v.len() - i,
    {
        assert(src.subrange(0, i + 1).drop_last() =~= src.subrange(0, i as int));
        if !str_eq(v[i].0.as_str(), k) {
            let ghost before = out@;
            out.push((owned(v[i].0.as_str()), owned(v[i].1.as_str())));
            assert(pair_list(out@) =~= pair_list(before).push((src[i as int].0@, src[i as int].1@)));
        }
        i = i + 1;
    }
    assert(src.subrange(0, src.len() as int) =~= src);
    *v = out;
}

} // verus!

verus! {

impl Config {
    /// The directory of the configuration: `.devutils` in the home directory
    /// (`HOME`, else `USERPROFILE`), or an error when neither is set.
    pub fn config_dir(home: Option<&str>, userprofile: Option<&str>) -> (r: Result<String, String>)
        ensures
            match home {
                Some(h) => r matches Ok(d) && d@ == h@ + "/.devutils"@,
                None => match userprofile {
                    Some(u) => r matches Ok(d) && d@ == u@ + "/.devutils"@,
                    None => r matches Err(e) && e@ == "Could not determine home directory"@,
                },
            },
    {
        match home {
            Some(h) => Ok(cat(h, "/.devutils")),
            None => match userprofile {
                Some(u) => Ok(cat(u, "/.devutils")),
                None => Err(owned("Could not determine home directory")),
            },
        }
    }

    /// The path of the configuration file: `config.toml` in the configuration directory.
    pub fn config_path(home: Option<&str>, userprofile: Option<&str>) -> (r: Result<String, String>)
        ensures
            match home {
                Some(h) => r matches Ok(d) && d@ == h@ + "/.devutils/config.toml"@,
                None => match userprofile {
                    Some(u) => r matches Ok(d) && d@ == u@ + "/.devutils/config.toml"@,
                    None => r matches Err(e) && e@ == "Could not determine home directory"@,
                },
            },
    {
        proof {
            reveal_strlit("/.devutils");
            reveal_strlit("/config.toml");
            reveal_strlit("/.devutils/config.toml");
            assert("/.devutils"@ + "/config.toml"@ =~= "/.devutils/config.toml"@);
        }
        match Config::config_dir(home, userprofile) {
            Ok(d) => Ok(cat(d.as_str(), "/config.toml")),
            Err(e) => Err(e),
        }
    }
}

/// The path of the configuration file.
pub fn get_config_path(home: Option<&str>, userprofile: Option<&str>) -> (r: Result<String, String>)
    ensures
        match home {
            Some(h) => r matches Ok(d) && d@ == h@ + "/.devutils/config.toml"@,
            None => match userprofile {
                Some(u) => r matches Ok(d) && d@ == u@ + "/.devutils/config.toml"@,
                None => r matches Err(e) && e@ == "Could not determine home directory"@,
            },
        },
{
    Config::config_path(home, userprofile)
}

} // verus!
