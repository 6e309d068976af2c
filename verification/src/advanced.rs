//! The toolkit's session-wide state: planning and think modes, remote
//! control, language servers, sessions, context budget, file watchers,
//! notifications, theme, profiles, environment values and API keys.

use vstd::prelude::*;
use crate::text::{
    cat, cat3, chars_of, debug_list, debug_strings, dec, find_key, is_prefix, key_index, now_millis,
    now_secs, owned, pair_list, assoc_set, push_str, replace, replace_all, set_key, split_char,
    split_on, starts_with, str_eq, string_of_range, to_upper, u64_to_string, uppercase, views,
    first_word, first_word_of, join, join_strings, split_whitespace, words,
};
use crate::all_utils::{strip_prefix_all, trim_start_matches};

verus! {

/// A chat session.
#[derive(Debug, Clone)]
pub struct Session {
    pub id: String,
    pub name: String,
    pub created_at: u64,
    pub messages: u64,
    pub tokens_used: u64,
    pub status: SessionStatus,
}

/// The state of a session.
#[derive(Debug, Clone, Copy, PartialEq, Eq, Structural)]
pub enum SessionStatus {
    Active,
    Paused,
    Completed,
}

/// User settings.
#[derive(Debug, Clone)]
pub struct UserSettings {
    pub sync_to_cloud: bool,
    pub auto_save: bool,
    pub terminal_bell: bool,
    pub keyboard_shortcuts: bool,
    pub real_time_feedback: bool,
}

impl Default for UserSettings {
    fn default() -> (r: Self)
        ensures
            !r.sync_to_cloud && !r.auto_save && !r.terminal_bell && !r.keyboard_shortcuts && !r.real_time_feedback,
    {
        UserSettings {
            sync_to_cloud: false,
            auto_save: false,
            terminal_bell: false,
            keyboard_shortcuts: false,
            real_time_feedback: false,
        }
    }
}

/// The display theme.
#[derive(Debug, Clone)]
pub struct Theme {
    pub mode: ThemeMode,
    pub primary_color: String,
    pub font: String,
}

impl Default for Theme {
    fn default() -> (r: Self)
        ensures
            r.mode == ThemeMode::Dark && r.primary_color@.len() == 0 && r.font@.len() == 0,
    {
        Theme { mode: ThemeMode::default(), primary_color: String::new(), font: String::new() }
    }
}

/// Dark, light, or as the system has it.
#[derive(Debug, Clone, Copy, PartialEq, Eq, Structural)]
pub enum ThemeMode {
    Dark,
    Light,
    System,
}

impl Default for ThemeMode {
    fn default() -> (r: Self)
        ensures
            r == ThemeMode::Dark,
    {
        ThemeMode::Dark
    }
}

/// The name that `{:?}` prints for a theme mode.
pub open spec fn theme_name(m: ThemeMode) -> Seq<char> {
    match m {
        ThemeMode::Dark => "Dark"@,
        ThemeMode::Light => "Light"@,
        ThemeMode::System => "System"@,
    }
}

/// A model profile.
#[derive(Debug, Clone)]
pub struct Profile {
    pub id: String,
    pub name: String,
    pub provider: String,
    pub model: String,
}

/// How much thinking a request gets.
#[derive(Debug, Clone, Copy, PartialEq, Eq, Structural)]
pub enum ThinkMode {
    Normal,
    Quick,
    Extensive,
    Deep,
}

/// The name that `{:?}` prints for a think mode.
pub open spec fn think_name(m: ThinkMode) -> Seq<char> {
    match m {
        ThinkMode::Normal => "Normal"@,
        ThinkMode::Quick => "Quick"@,
        ThinkMode::Extensive => "Extensive"@,
        ThinkMode::Deep => "Deep"@,
    }
}

/// A language server registration.
#[derive(Debug, Clone)]
pub struct LspConfig {
    pub language: String,
    pub command: String,
    pub enabled: bool,
}

/// A watched directory.
#[derive(Debug, Clone)]
pub struct FileWatcher {
    pub path: String,
    pub events: Vec<String>,
}

/// A notification.
#[derive(Debug, Clone)]
pub struct Notification {
    pub id: String,
    pub message: String,
    pub notification_type: NotificationType,
    pub timestamp: u64,
}

/// The kind of a notification.
#[derive(Debug, Clone, Copy, PartialEq, Eq, Structural)]
pub enum NotificationType {
    Info,
    Success,
    Warning,
    Error,
}

/// Usage totals.
#[derive(Debug, Clone)]
pub struct UsageAnalytics {
    pub total_sessions: u64,
    pub total_messages: u64,
    pub total_tokens: u64,
    pub most_used_provider: String,
    pub features_used: Vec<(String, u64)>,
}

impl Default for UsageAnalytics {
    fn default() -> (r: Self)
        ensures
            r.total_sessions == 0 && r.total_messages == 0 && r.total_tokens == 0
                && r.most_used_provider@.len() == 0 && r.features_used@.len() == 0,
    {
        UsageAnalytics {
            total_sessions: 0,
            total_messages: 0,
            total_tokens: 0,
            most_used_provider: String::new(),
            features_used: Vec::new(),
        }
    }
}

/// A slash command.
#[derive(Debug, Clone)]
pub struct SlashCommand {
    pub name: String,
    pub description: String,
    pub usage: String,
}

/// The token budget of the context.
#[derive(Debug, Clone)]
pub struct ContextBudget {
    pub current_tokens: u64,
    pub max_tokens: u64,
    pub summary_enabled: bool,
}

/// The most notifications kept.
pub const MAX_NOTIFICATIONS: usize = 50;

/// The session-wide state.
#[derive(Debug)]
pub struct DevUtilsState {
    pub sessions: Vec<Session>,
    pub context: ContextBudget,
    pub settings: UserSettings,
    pub theme: Theme,
    pub profiles: Vec<Profile>,
    pub env_vars: Vec<(String, String)>,
    pub usage_analytics: UsageAnalytics,
    pub lsps: Vec<LspConfig>,
    pub watchers: Vec<FileWatcher>,
    pub notifications: Vec<Notification>,
    pub planning_active: bool,
    pub think_mode: ThinkMode,
    pub remote_enabled: bool,
}

impl DevUtilsState {
    /// The state at start: nothing recorded, dark theme, normal thinking,
    /// planning and remote control off.
    pub fn new() -> (r: Self)
        ensures
            r.sessions@.len() == 0 && r.profiles@.len() == 0 && r.env_vars@.len() == 0
                && r.lsps@.len() == 0 && r.watchers@.len() == 0 && r.notifications@.len() == 0,
            r.context.current_tokens == 0 && r.context.max_tokens == 0 && !r.context.summary_enabled,
            !r.settings.sync_to_cloud,
            r.theme.mode == ThemeMode::Dark,
            !r.planning_active && r.think_mode == ThinkMode::Normal && !r.remote_enabled,
    {
        DevUtilsState {
            sessions: Vec::new(),
            context: ContextBudget { current_tokens: 0, max_tokens: 0, summary_enabled: false },
            settings: UserSettings::default(),
            theme: Theme::default(),
            profiles: Vec::new(),
            env_vars: Vec::new(),
            usage_analytics: UsageAnalytics::default(),
            lsps: Vec::new(),
            watchers: Vec::new(),
            notifications: Vec::new(),
            planning_active: false,
            think_mode: ThinkMode::Normal,
            remote_enabled: false,
        }
    }
}

/// Starts planning a task.
pub fn start_planning_mode(state: &mut DevUtilsState, task: &str) -> (r: String)
    ensures
        *final(state) == (DevUtilsState { planning_active: true, ..*old(state) }),
        r@ == "📋 Planning Mode started for: "@ + task@
            + "\n\nThis task will be analyzed and decomposed into steps.\nUse /execute to run the plan once approved."@,
{
    state.planning_active = true;
    cat3("📋 Planning Mode started for: ", task, "\n\nThis task will be analyzed and decomposed into steps.\nUse /execute to run the plan once approved.")
}

/// Ends planning.
pub fn end_planning_mode(state: &mut DevUtilsState) -> (r: String)
    ensures
        *final(state) == (DevUtilsState { planning_active: false, ..*old(state) }),
        r@ == "Planning mode ended"@,
{
    state.planning_active = false;
    owned("Planning mode ended")
}

fn think_mode_name(mode: ThinkMode) -> (r: &'static str)
    ensures
        r@ == think_name(mode),
{
    match mode {
        ThinkMode::Normal => "Normal",
        ThinkMode::Quick => "Quick",
        ThinkMode::Extensive => "Extensive",
        ThinkMode::Deep => "Deep",
    }
}

/// Sets the think mode.
pub fn set_think_mode(state: &mut DevUtilsState, mode: ThinkMode) -> (r: String)
    ensures
        *final(state) == (DevUtilsState { think_mode: mode, ..*old(state) }),
        r@ == "Think mode: "@ + think_name(mode),
{
    state.think_mode = mode;
    cat("Think mode: ", think_mode_name(mode))
}

/// The think mode.
pub fn get_think_mode(state: &DevUtilsState) -> (r: ThinkMode)
    ensures
        r == state.think_mode,
{
    state.think_mode
}

/// Turns remote control on.
pub fn enable_remote(state: &mut DevUtilsState, password: &str) -> (r: Result<String, String>)
    ensures
        *final(state) == (DevUtilsState { remote_enabled: true, ..*old(state) }),
        r is Ok && r->Ok_0@ == "Remote control enabled.\nConnect from any device using: devutils remote connect\nPassword: "@ + password@,
{
    state.remote_enabled = true;
    Ok(cat("Remote control enabled.\nConnect from any device using: devutils remote connect\nPassword: ", password))
}

/// Turns remote control off.
pub fn disable_remote(state: &mut DevUtilsState) -> (r: String)
    ensures
        *final(state) == (DevUtilsState { remote_enabled: false, ..*old(state) }),
        r@ == "Remote control disabled"@,
{
    state.remote_enabled = false;
    owned("Remote control disabled")
}

/// Whether remote control is on.
pub fn is_remote_enabled(state: &DevUtilsState) -> (r: bool)
    ensures
        r == state.remote_enabled,
{
    state.remote_enabled
}

/// The index of the first language server registered for `lang`, if any.
pub open spec fn lsp_index(v: Seq<LspConfig>, lang: Seq<char>) -> Option<int>
    decreases v.len(),
{
    if v.len() == 0 {
        None
    } else if v[0].language@ == lang {
        Some(0)
    } else {
        match lsp_index(v.drop_first(), lang) {
            Some(i) => Some(i + 1),
            None => None,
        }
    }
}

proof fn lemma_lsp_index(v: Seq<LspConfig>, lang: Seq<char>, i: int)
    requires
        0 <= i <= v.len(),
        forall|j: int| 0 <= j < i ==> v[j].language@ != lang,
    ensures
        i < v.len() && v[i].language@ == lang ==> lsp_index(v, lang) == Some(i),
        i == v.len() ==> lsp_index(v, lang) is None,
    decreases i,
{
    if i > 0 {
        lemma_lsp_index(v.drop_first(), lang, i - 1);
    }
}

/// Registers the language server `command` for `language`, enabled, in place
/// of an earlier registration for the language.
pub fn register_lsp(state: &mut DevUtilsState, language: &str, command: &str) -> (r: Result<String, String>)
    ensures
        *final(state) == (DevUtilsState { lsps: final(state).lsps, ..*old(state) }),
        match lsp_index(old(state).lsps@, language@) {
            Some(i) => final(state).lsps@.len() == old(state).lsps@.len()
                && (forall|k: int| 0 <= k < old(state).lsps@.len() && k != i ==> final(state).lsps@[k] == old(state).lsps@[k]),
            None => final(state).lsps@.drop_last() == old(state).lsps@,
        },
        lsp_index(final(state).lsps@, language@) matches Some(i) && {
            let l = final(state).lsps@[i];
            l.language@ == language@ && l.command@ == command@ && l.enabled
        },
        r is Ok && r->Ok_0@ == "LSP registered for "@ + language@ + ": "@ + command@,
{
    let cfg = LspConfig { language: owned(language), command: owned(command), enabled: true };
    let mut i: usize = 0;
    while i < state.lsps.len()
        invariant
            i <= state.lsps@.len(),
            state == old(state),
            cfg.language@ == language@ && cfg.command@ == command@ && cfg.enabled,
            forall|j: int| 0 <= j < i ==> state.lsps@[j].language@ != language@,
        decreases state.lsps.len() - i,
    {
        if str_eq(state.lsps[i].language.as_str(), language) {
            proof { lemma_lsp_index(state.lsps@, language@, i as int); }
            let ghost before = state.lsps@;
            state.lsps.set(i, cfg);
            proof {
                assert forall|j: int| 0 <= j < i implies state.lsps@[j].language@ != language@ by {
                    assert(state.lsps@[j] == before[j]);
                }
                lemma_lsp_index(state.lsps@, language@, i as int);
            }
            let mut r = cat3("LSP registered for ", language, ": ");
            push_str(&mut r, command);
            return Ok(r);
        }
        i = i + 1;
    }
    proof { lemma_lsp_index(state.lsps@, language@, i as int); }
    state.lsps.push(cfg);
    proof {
        assert(state.lsps@.drop_last() =~= old(state).lsps@);
        assert forall|j: int| 0 <= j < old(state).lsps@.len() implies state.lsps@[j].language@ != language@ by {
            assert(state.lsps@[j] == old(state).lsps@[j]);
        }
        lemma_lsp_index(state.lsps@, language@, old(state).lsps@.len() as int);
    }
    let mut r = cat3("LSP registered for ", language, ": ");
    push_str(&mut r, command);
    Ok(r)
}

/// Every registered language server.
pub fn list_lsps(state: &DevUtilsState) -> (r: &Vec<LspConfig>)
    ensures
        *r == state.lsps,
{
    &state.lsps
}

/// The last path component that names something: the last `/`-separated
/// piece that is neither empty nor `.`.
pub open spec fn last_name(ps: Seq<Seq<char>>) -> Option<Seq<char>>
    decreases ps.len(),
{
    if ps.len() == 0 {
        None
    } else if ps.last().len() > 0 && ps.last() != "."@ {
        Some(ps.last())
    } else {
        last_name(ps.drop_last())
    }
}

/// The file name of a path, as `Path::file_name` gives on Unix: none for a
/// path ending in `..` or naming no component.
pub open spec fn file_name(p: Seq<char>) -> Option<Seq<char>> {
    match last_name(split_char(p, '/')) {
        Some(n) => if n == ".."@ { None } else { Some(n) },
        None => None,
    }
}

/// The index of the last `.` in `n`, if any.
pub open spec fn last_dot(n: Seq<char>) -> Option<int>
    decreases n.len(),
{
    if n.len() == 0 {
        None
    } else if n.last() == '.' {
        Some(n.len() - 1)
    } else {
        last_dot(n.drop_last())
    }
}

/// The extension of a path, as `Path::extension` gives: what follows the last
/// `.` of the file name, when something precedes that dot.
pub open spec fn extension(p: Seq<char>) -> Option<Seq<char>> {
    match file_name(p) {
        Some(n) => name_extension(n),
        None => None,
    }
}

/// The language server for a file extension.
pub open spec fn lsp_for(ext: Seq<char>) -> Option<Seq<char>> {
    if ext == "rs"@ {
        Some("rust_analyzer"@)
    } else if ext == "js"@ || ext == "jsx"@ || ext == "ts"@ || ext == "tsx"@ {
        Some("typescript-language-server"@)
    } else if ext == "py"@ {
        Some("pylsp"@)
    } else if ext == "go"@ {
        Some("gopls"@)
    } else if ext == "java"@ {
        Some("jdtls"@)
    } else if ext == "cpp"@ || ext == "c"@ {
        Some("clangd"@)
    } else {
        None
    }
}

/// The extension that a file name gives, as `Path::extension` takes it from
/// the file name: what follows the last `.`, when something precedes it.
pub open spec fn name_extension(n: Seq<char>) -> Option<Seq<char>> {
    match last_dot(n) {
        Some(k) => if k > 0 { Some(n.subrange(k + 1, n.len() as int)) } else { None },
        None => None,
    }
}

fn extension_of_name(name: &str) -> (r: Option<String>)
    ensures
        match r {
            Some(e) => name_extension(name@) == Some(e@),
            None => name_extension(name@) is None,
        },
{
    let n = chars_of(name);
    let mut j: usize = n.len();
    assert(n@.subrange(0, j as int) =~= n@);
    while j > 0 && n[j - 1] != '.'
        invariant
            j <= n@.len(),
            n@ == name@,
            last_dot(n@) == last_dot(n@.subrange(0, j as int)),
        decreases j,
    {
        assert(n@.subrange(0, j as int).drop_last() =~= n@.subrange(0, j - 1));
        j = j - 1;
    }
    if j == 0 {
        assert(n@.subrange(0, 0) =~= Seq::<char>::empty());
        return None;
    }
    assert(n@.subrange(0, j as int).last() == '.');
    assert(last_dot(n@) == Some(j - 1));
    if j - 1 == 0 {
        return None;
    }
    Some(string_of_range(&n, j, n.len()))
}

/// The file name of a path, if it has one.
pub fn path_file_name(path: &str) -> (r: Option<String>)
    ensures
        match r {
            Some(n) => file_name(path@) == Some(n@),
            None => file_name(path@) is None,
        },
{
    let ps = split_on(path, '/');
    let ghost pv = views(ps@);
    let mut k: usize = ps.len();
    assert(pv.subrange(0, k as int) =~= pv);
    while k > 0
        invariant
            pv == views(ps@),
            pv == split_char(path@, '/'),
            k <= ps@.len(),
            last_name(pv) == last_name(pv.subrange(0, k as int)),
        decreases k,
    {
        assert(pv.subrange(0, k as int).drop_last() =~= pv.subrange(0, k - 1));
        assert(pv.subrange(0, k as int).last() == ps@[k - 1]@);
        if !ps[k - 1].as_str().is_empty() && !str_eq(ps[k - 1].as_str(), ".") {
            assert(last_name(pv) == Some(ps@[k - 1]@));
            if str_eq(ps[k - 1].as_str(), "..") {
                return None;
            }
            return Some(owned(ps[k - 1].as_str()));
        }
        k = k - 1;
    }
    assert(pv.subrange(0, 0) =~= Seq::<Seq<char>>::empty());
    None
}

/// The extension of a path, if it has one.
pub fn path_extension(path: &str) -> (r: Option<String>)
    ensures
        match r {
            Some(e) => extension(path@) == Some(e@),
            None => extension(path@) is None,
        },
{
    match path_file_name(path) {
        Some(n) => extension_of_name(n.as_str()),
        None => None,
    }
}

/// The language server to use for a file, judged by its extension.
pub fn auto_detect_lsp(path: &str) -> (r: Option<String>)
    ensures
        match r {
            Some(s) => lsp_for(match extension(path@) { Some(e) => e, None => Seq::<char>::empty() }) == Some(s@),
            None => lsp_for(match extension(path@) { Some(e) => e, None => Seq::<char>::empty() }) is None,
        },
{
    let ext = match path_extension(path) {
        Some(e) => e,
        None => String::new(),
    };
    let e = ext.as_str();
    if str_eq(e, "rs") {
        Some(owned("rust_analyzer"))
    } else if str_eq(e, "js") || str_eq(e, "jsx") || str_eq(e, "ts") || str_eq(e, "tsx") {
        Some(owned("typescript-language-server"))
    } else if str_eq(e, "py") {
        Some(owned("pylsp"))
    } else if str_eq(e, "go") {
        Some(owned("gopls"))
    } else if str_eq(e, "java") {
        Some(owned("jdtls"))
    } else if str_eq(e, "cpp") || str_eq(e, "c") {
        Some(owned("clangd"))
    } else {
        proof { reveal_strlit(""); }
        None
    }
}

/// The built-in slash commands.
pub open spec fn builtin_slash_commands(v: Seq<SlashCommand>) -> bool {
    &&& v.len() == 12
    &&& v[0].name@ == "help"@ && v[0].description@ == "Show help"@ && v[0].usage@ == "/help [command]"@
    &&& v[1].name@ == "init"@ && v[1].description@ == "Initialize project with a project notes file"@ && v[1].usage@ == "/init"@
    &&& v[2].name@ == "commit"@ && v[2].description@ == "Create git commit"@ && v[2].usage@ == "/commit [message]"@
    &&& v[3].name@ == "test"@ && v[3].description@ == "Run tests"@ && v[3].usage@ == "/test [pattern]"@
    &&& v[4].name@ == "bug"@ && v[4].description@ == "Debug current issue"@ && v[4].usage@ == "/bug"@
    &&& v[5].name@ == "review"@ && v[5].description@ == "Review changes"@ && v[5].usage@ == "/review"@
    &&& v[6].name@ == "undo"@ && v[6].description@ == "Undo last change"@ && v[6].usage@ == "/undo"@
    &&& v[7].name@ == "vim"@ && v[7].description@ == "Toggle Vim mode"@ && v[7].usage@ == "/vim"@
    &&& v[8].name@ == "plan"@ && v[8].description@ == "Enter planning mode"@ && v[8].usage@ == "/plan <task>"@
    &&& v[9].name@ == "think"@ && v[9].description@ == "Use think mode"@ && v[9].usage@ == "/think [normal|quick|extensive|deep]"@
    &&& v[10].name@ == "compact"@ && v[10].description@ == "Compact context"@ && v[10].usage@ == "/compact"@
    &&& v[11].name@ == "websearch"@ && v[11].description@ == "Search the web"@ && v[11].usage@ == "/websearch <query>"@
}

/// The built-in slash commands.
pub fn list_slash_commands() -> (r: Vec<SlashCommand>)
    ensures
        builtin_slash_commands(r@),
{
    let mut v: Vec<SlashCommand> = Vec::new();
    v.push(SlashCommand { name: owned("help"), description: owned("Show help"), usage: owned("/help [command]") });
    v.push(SlashCommand { name: owned("init"), description: owned("Initialize project with a project notes file"), usage: owned("/init") });
    v.push(SlashCommand { name: owned("commit"), description: owned("Create git commit"), usage: owned("/commit [message]") });
    v.push(SlashCommand { name: owned("test"), description: owned("Run tests"), usage: owned("/test [pattern]") });
    v.push(SlashCommand { name: owned("bug"), description: owned("Debug current issue"), usage: owned("/bug") });
    v.push(SlashCommand { name: owned("review"), description: owned("Review changes"), usage: owned("/review") });
    v.push(SlashCommand { name: owned("undo"), description: owned("Undo last change"), usage: owned("/undo") });
    v.push(SlashCommand { name: owned("vim"), description: owned("Toggle Vim mode"), usage: owned("/vim") });
    v.push(SlashCommand { name: owned("plan"), description: owned("Enter planning mode"), usage: owned("/plan <task>") });
    v.push(SlashCommand { name: owned("think"), description: owned("Use think mode"), usage: owned("/think [normal|quick|extensive|deep]") });
    v.push(SlashCommand { name: owned("compact"), description: owned("Compact context"), usage: owned("/compact") });
    v.push(SlashCommand { name: owned("websearch"), description: owned("Search the web"), usage: owned("/websearch <query>") });
    v
}

/// Shares the session: records a new active session named `Shared Session`
/// with the id `dev_` and the time in ms, and gives its link.
pub fn share_session(state: &mut DevUtilsState) -> (r: Result<String, String>)
    ensures
        *final(state) == (DevUtilsState { sessions: final(state).sessions, ..*old(state) }),
        final(state).sessions@.drop_last() == old(state).sessions@,
        final(state).sessions@.len() == old(state).sessions@.len() + 1,
        exists|ms: u64| #[trigger] final(state).sessions@.last().id@ == "dev_"@ + dec(ms as nat)
            && r is Ok && r->Ok_0@ == "Session shared. Access at: https://devutils.ai/share/"@ + "dev_"@ + dec(ms as nat),
        final(state).sessions@.last().name@ == "Shared Session"@,
        final(state).sessions@.last().messages == 0 && final(state).sessions@.last().tokens_used == 0,
        final(state).sessions@.last().status == SessionStatus::Active,
{
    let ms = now_millis();
    let digits = u64_to_string(ms);
    let id = cat("dev_", digits.as_str());
    let link = cat("Session shared. Access at: https://devutils.ai/share/", id.as_str());
    state.sessions.push(Session {
        id,
        name: owned("Shared Session"),
        created_at: now_secs(),
        messages: 0,
        tokens_used: 0,
        status: SessionStatus::Active,
    });
    assert(state.sessions@.drop_last() =~= old(state).sessions@);
    Ok(link)
}

/// Creates an active session named `name`, with the id `sess_` and the time
/// in ms, which it gives back.
pub fn create_session(state: &mut DevUtilsState, name: &str) -> (r: String)
    ensures
        *final(state) == (DevUtilsState { sessions: final(state).sessions, ..*old(state) }),
        final(state).sessions@.drop_last() == old(state).sessions@,
        final(state).sessions@.len() == old(state).sessions@.len() + 1,
        final(state).sessions@.last().id@ == r@,
        exists|ms: u64| r@ == "sess_"@ + dec(ms as nat),
        final(state).sessions@.last().name@ == name@,
        final(state).sessions@.last().messages == 0 && final(state).sessions@.last().tokens_used == 0,
        final(state).sessions@.last().status == SessionStatus::Active,
{
    let ms = now_millis();
    let digits = u64_to_string(ms);
    let id = cat("sess_", digits.as_str());
    let out = owned(id.as_str());
    state.sessions.push(Session {
        id,
        name: owned(name),
        created_at: now_secs(),
        messages: 0,
        tokens_used: 0,
        status: SessionStatus::Active,
    });
    assert(state.sessions@.drop_last() =~= old(state).sessions@);
    out
}

/// Every session.
pub fn list_sessions(state: &DevUtilsState) -> (r: &Vec<Session>)
    ensures
        *r == state.sessions,
{
    &state.sessions
}

/// The index of the first session with the id, if any.
pub open spec fn session_index(v: Seq<Session>, id: Seq<char>) -> Option<int>
    decreases v.len(),
{
    if v.len() == 0 {
        None
    } else if v[0].id@ == id {
        Some(0)
    } else {
        match session_index(v.drop_first(), id) {
            Some(i) => Some(i + 1),
            None => None,
        }
    }
}

proof fn lemma_session_index(v: Seq<Session>, id: Seq<char>, i: int)
    requires
        0 <= i <= v.len(),
        forall|j: int| 0 <= j < i ==> v[j].id@ != id,
    ensures
        i < v.len() && v[i].id@ == id ==> session_index(v, id) == Some(i),
        i == v.len() ==> session_index(v, id) is None,
    decreases i,
{
    if i > 0 {
        lemma_session_index(v.drop_first(), id, i - 1);
    }
}

/// Makes the first session with the id active.
pub fn switch_session(state: &mut DevUtilsState, id: &str) -> (r: Result<String, String>)
    ensures
        *final(state) == (DevUtilsState { sessions: final(state).sessions, ..*old(state) }),
        match session_index(old(state).sessions@, id@) {
            Some(i) => final(state).sessions@ == old(state).sessions@.update(i, Session { status: SessionStatus::Active, ..old(state).sessions@[i] })
                && r is Ok && r->Ok_0@ == "Switched to session: "@ + old(state).sessions@[i].name@,
            None => final(state).sessions@ == old(state).sessions@ && r is Err && r->Err_0@ == "Session not found"@,
        },
{
    let mut i: usize = 0;
    while i < state.sessions.len()
        invariant
            i <= state.sessions@.len(),
            state == old(state),
            forall|j: int| 0 <= j < i ==> state.sessions@[j].id@ != id@,
        decreases state.sessions.len() - i,
    {
        if str_eq(state.sessions[i].id.as_str(), id) {
            proof { lemma_session_index(state.sessions@, id@, i as int); }
            let msg = cat("Switched to session: ", state.sessions[i].name.as_str());
            let mut sessions: Vec<Session> = Vec::new();
            std::mem::swap(&mut sessions, &mut state.sessions);
            let mut s = sessions.remove(i);
            s.status = SessionStatus::Active;
            sessions.insert(i, s);
            state.sessions = sessions;
            assert(state.sessions@ =~= old(state).sessions@.update(i as int, Session { status: SessionStatus::Active, ..old(state).sessions@[i as int] }));
            return Ok(msg);
        }
        i = i + 1;
    }
    proof { lemma_session_index(state.sessions@, id@, i as int); }
    Err(owned("Session not found"))
}

/// Summarizes the context: with summaries enabled, the context shrinks to
/// half its budget.
pub fn summarize_context(state: &mut DevUtilsState) -> (r: String)
    ensures
        old(state).context.summary_enabled ==> *final(state) == (DevUtilsState {
            context: ContextBudget { current_tokens: (old(state).context.max_tokens / 2) as u64, ..old(state).context },
            ..*old(state)
        }) && r@ == "Context summarized"@,
        !old(state).context.summary_enabled ==> *final(state) == *old(state) && r@ == "Enable summary mode first"@,
{
    if state.context.summary_enabled {
        state.context.current_tokens = state.context.max_tokens / 2;
        owned("Context summarized")
    } else {
        owned("Enable summary mode first")
    }
}

/// Watches a directory for the events.
pub fn watch_directory(state: &mut DevUtilsState, path: &str, events: Vec<String>) -> (r: String)
    ensures
        *final(state) == (DevUtilsState { watchers: final(state).watchers, ..*old(state) }),
        final(state).watchers@.drop_last() == old(state).watchers@,
        final(state).watchers@.len() == old(state).watchers@.len() + 1,
        final(state).watchers@.last().path@ == path@,
        final(state).watchers@.last().events == events,
        r@ == "Watching "@ + path@ + " for events: "@ + debug_strings(views(events@)),
{
    let shown = debug_list(&events);
    let mut r = cat3("Watching ", path, " for events: ");
    push_str(&mut r, shown.as_str());
    state.watchers.push(FileWatcher { path: owned(path), events });
    assert(state.watchers@.drop_last() =~= old(state).watchers@);
    r
}

/// Every watcher.
pub fn list_watchers(state: &DevUtilsState) -> (r: &Vec<FileWatcher>)
    ensures
        *r == state.watchers,
{
    &state.watchers
}

/// Adds a notification, dropping the oldest ones beyond the last fifty.
pub fn send_notification(state: &mut DevUtilsState, message: &str, notification_type: NotificationType)
    requires
        old(state).notifications@.len() <= MAX_NOTIFICATIONS,
    ensures
        *final(state) == (DevUtilsState { notifications: final(state).notifications, ..*old(state) }),
        final(state).notifications@.len() <= MAX_NOTIFICATIONS,
        final(state).notifications@.len() == if old(state).notifications@.len() < MAX_NOTIFICATIONS {
            old(state).notifications@.len() + 1
        } else {
            MAX_NOTIFICATIONS as nat
        },
        final(state).notifications@.drop_last() == old(state).notifications@.subrange(
            old(state).notifications@.len() + 1 - final(state).notifications@.len(),
            old(state).notifications@.len() as int,
        ),
        final(state).notifications@.last().message@ == message@,
        final(state).notifications@.last().notification_type == notification_type,
        exists|ms: u64| final(state).notifications@.last().id@ == "notif_"@ + dec(ms as nat),
{
    let ms = now_millis();
    let digits = u64_to_string(ms);
    let n = Notification {
        id: cat("notif_", digits.as_str()),
        message: owned(message),
        notification_type,
        timestamp: now_secs(),
    };
    let ghost before = state.notifications@;
    state.notifications.push(n);
    let mut dropped: usize = 0;
    while state.notifications.len() > MAX_NOTIFICATIONS
        invariant
            state.notifications@ == before.push(n).subrange(dropped as int, before.len() + 1 as int),
            dropped <= 1,
            dropped == 1 ==> before.len() == MAX_NOTIFICATIONS,
            before.len() <= MAX_NOTIFICATIONS,
            *state == (DevUtilsState { notifications: state.notifications, ..*old(state) }),
        decreases state.notifications.len(),
    {
        state.notifications.remove(0);
        dropped = dropped + 1;
        assert(state.notifications@ =~= before.push(n).subrange(dropped as int, before.len() + 1 as int));
    }
    assert(state.notifications@.drop_last() =~= before.subrange(dropped as int, before.len() as int));
}

/// Every notification, oldest first.
pub fn get_notifications(state: &DevUtilsState) -> (r: &Vec<Notification>)
    ensures
        *r == state.notifications,
{
    &state.notifications
}

fn theme_mode_name(mode: ThemeMode) -> (r: &'static str)
    ensures
        r@ == theme_name(mode),
{
    match mode {
        ThemeMode::Dark => "Dark",
        ThemeMode::Light => "Light",
        ThemeMode::System => "System",
    }
}

/// Sets the theme mode.
pub fn set_theme(state: &mut DevUtilsState, mode: ThemeMode) -> (r: String)
    ensures
        *final(state) == (DevUtilsState { theme: Theme { mode, ..old(state).theme }, ..*old(state) }),
        r@ == "Theme set to: "@ + theme_name(mode),
{
    state.theme.mode = mode;
    cat("Theme set to: ", theme_mode_name(mode))
}

/// Creates a profile with the id `profile_` and the time in ms.
pub fn create_profile(state: &mut DevUtilsState, name: &str, provider: &str, model: &str) -> (r: String)
    ensures
        *final(state) == (DevUtilsState { profiles: final(state).profiles, ..*old(state) }),
        final(state).profiles@.drop_last() == old(state).profiles@,
        final(state).profiles@.len() == old(state).profiles@.len() + 1,
        exists|ms: u64| final(state).profiles@.last().id@ == "profile_"@ + dec(ms as nat),
        final(state).profiles@.last().name@ == name@,
        final(state).profiles@.last().provider@ == provider@,
        final(state).profiles@.last().model@ == model@,
        r@ == "Profile '"@ + name@ + "' created with "@ + provider@ + ":"@ + model@,
{
    let ms = now_millis();
    let digits = u64_to_string(ms);
    state.profiles.push(Profile {
        id: cat("profile_", digits.as_str()),
        name: owned(name),
        provider: owned(provider),
        model: owned(model),
    });
    assert(state.profiles@.drop_last() =~= old(state).profiles@);
    let mut r = cat3("Profile '", name, "' created with ");
    push_str(&mut r, provider);
    push_str(&mut r, ":");
    push_str(&mut r, model);
    r
}

/// Every profile.
pub fn list_profiles(state: &DevUtilsState) -> (r: &Vec<Profile>)
    ensures
        *r == state.profiles,
{
    &state.profiles
}

/// Sets an environment value.
pub fn set_env_var(state: &mut DevUtilsState, key: &str, value: &str) -> (r: String)
    ensures
        *final(state) == (DevUtilsState { env_vars: final(state).env_vars, ..*old(state) }),
        pair_list(final(state).env_vars@) == assoc_set(old(state).env_vars@, key@, value@),
        r@ == "Set "@ + key@ + "="@ + value@,
{
    set_key(&mut state.env_vars, key, value);
    let mut r = cat3("Set ", key, "=");
    push_str(&mut r, value);
    r
}

/// An environment value.
pub fn get_env_var(state: &DevUtilsState, key: &str) -> (r: Option<String>)
    ensures
        match key_index(state.env_vars@, key@) {
            Some(i) => r is Some && r->0@ == state.env_vars@[i].1@,
            None => r is None,
        },
{
    match find_key(&state.env_vars, key) {
        Some(i) => Some(owned(state.env_vars[i].1.as_str())),
        None => None,
    }
}

/// Stores an API key as the environment value `API_KEY_<NAME>`.
pub fn add_api_key(state: &mut DevUtilsState, name: &str, key: &str) -> (r: String)
    ensures
        *final(state) == (DevUtilsState { env_vars: final(state).env_vars, ..*old(state) }),
        pair_list(final(state).env_vars@) == assoc_set(old(state).env_vars@, "API_KEY_"@ + uppercase(name@), key@),
        r@ == "Set "@ + "API_KEY_"@ + uppercase(name@) + "="@ + key@,
{
    let upper = to_upper(name);
    let var = cat("API_KEY_", upper.as_str());
    set_env_var(state, var.as_str(), key)
}

/// The names of the stored API keys.
pub open spec fn api_key_names(v: Seq<(String, String)>) -> Seq<Seq<char>>
    decreases v.len(),
{
    if v.len() == 0 {
        seq![]
    } else {
        let rest = api_key_names(v.drop_last());
        if is_prefix("API_KEY_"@, v.last().0@) {
            rest.push(replace_all(v.last().0@, "API_KEY_"@, Seq::<char>::empty()))
        } else {
            rest
        }
    }
}

/// The names of the stored API keys: each environment key that starts with
/// `API_KEY_`, with `API_KEY_` removed.
pub fn list_api_keys(state: &DevUtilsState) -> (r: Vec<String>)
    ensures
        views(r@) == api_key_names(state.env_vars@),
{
    let mut out: Vec<String> = Vec::new();
    let mut i: usize = 0;
    while i < state.env_vars.len()
        invariant
            i <= state.env_vars@.len(),
            views(out@) == api_key_names(state.env_vars@.subrange(0, i as int)),
        decreases state.env_vars.len() - i,
    {
        assert(state.env_vars@.subrange(0, i + 1).drop_last() =~= state.env_vars@.subrange(0, i as int));
        assert(state.env_vars@.subrange(0, i + 1).last() == state.env_vars@[i as int]);
        let k = state.env_vars[i].0.as_str();
        let ghost before = out@;
        if starts_with(k, "API_KEY_") {
            proof {
                reveal_strlit("");
                assert(""@ =~= Seq::<char>::empty());
            }
            out.push(replace(k, "API_KEY_", ""));
            assert(views(out@) =~= views(before).push(out@.last()@));
        } else {
            assert(views(out@) =~= views(before));
        }
        i = i + 1;
    }
    assert(state.env_vars@.subrange(0, state.env_vars@.len() as int) =~= state.env_vars@);
    out
}

/// Syncs settings to the cloud, when enabled.
pub fn sync_to_cloud(state: &DevUtilsState) -> (r: String)
    ensures
        r@ == if state.settings.sync_to_cloud {
            "Syncing to cloud..."@
        } else {
            "Enable cloud sync first: devutils settings sync enable"@
        },
{
    if state.settings.sync_to_cloud {
        owned("Syncing to cloud...")
    } else {
        owned("Enable cloud sync first: devutils settings sync enable")
    }
}

} // verus!

verus! {

/// What a slash command leaves to its caller, beyond the change it makes to
/// the state.
#[derive(Debug)]
pub enum SlashOutcome {
    /// Print this reply.
    Reply(String),
    /// Write `content` to the project notes file, then print `reply`.
    WriteNotes { content: String, reply: String },
    /// Print at most `limit` web results for `query`, one per line.
    WebSearch { query: String, limit: usize },
    /// Shrink the context's token count to three tenths of it, then print `reply`.
    CompactContext { reply: String },
    /// Print the usage report.
    UsageReport,
}

/// The command word of a slash command line: its first word once the leading
/// slashes are gone.
pub open spec fn slash_word(input: Seq<char>) -> Option<Seq<char>> {
    first_word(strip_prefix_all(input, "/"@))
}

/// The words of `input` after its first, joined by single spaces; `default`
/// where `input` has no word at all.
pub open spec fn slash_rest(input: Seq<char>, default: Seq<char>) -> Seq<char> {
    let ws = words(input);
    if ws.len() >= 1 { join(ws.skip(1), " "@) } else { default }
}

/// The think mode that a word names; any other word means `Normal`.
pub open spec fn think_of_word(w: Seq<char>) -> ThinkMode {
    if w == "quick"@ {
        ThinkMode::Quick
    } else if w == "extensive"@ {
        ThinkMode::Extensive
    } else if w == "deep"@ {
        ThinkMode::Deep
    } else {
        ThinkMode::Normal
    }
}

/// The second word of `input`, or `normal` where there is none.
pub open spec fn think_word(input: Seq<char>) -> Seq<char> {
    let ws = words(input);
    if ws.len() >= 2 { ws[1] } else { "normal"@ }
}

/// The help listing: one `name - description` line per command.
pub open spec fn slash_help_text(v: Seq<SlashCommand>) -> Seq<char> {
    join(Seq::new(v.len(), |i: int| v[i].name@ + " - "@ + v[i].description@), "\n"@)
}

/// The outline written by `/init`.
pub open spec fn notes_template() -> Seq<char> {
    "# Project Context\n\n## Overview\nThis project is for...\n"@
}

/// Whether `r` is a plain reply with the text `t`.
pub open spec fn replies(r: SlashOutcome, t: Seq<char>) -> bool {
    r matches SlashOutcome::Reply(x) && x@ == t
}

/// What running the slash command line `input` does: the state after it and
/// the outcome handed back.
pub open spec fn slash_effect(before: DevUtilsState, after: DevUtilsState, input: Seq<char>, r: SlashOutcome) -> bool {
    let w = slash_word(input);
    if w == Some("plan"@) {
        let task = slash_rest(input, "task"@);
        &&& after == (DevUtilsState { planning_active: true, ..before })
        &&& replies(r, "📋 Planning Mode started for: "@ + task
            + "\n\nThis task will be analyzed and decomposed into steps.\nUse /execute to run the plan once approved."@)
    } else if w == Some("think"@) {
        let m = think_of_word(think_word(input));
        &&& after == (DevUtilsState { think_mode: m, ..before })
        &&& replies(r, "Think mode: "@ + think_name(m))
    } else {
        &&& after == before
        &&& if w == Some("help"@) {
            exists|v: Seq<SlashCommand>| builtin_slash_commands(v) && #[trigger] replies(r, slash_help_text(v))
        } else if w == Some("init"@) {
            r matches SlashOutcome::WriteNotes { content, reply }
                && content@ == notes_template() && reply@ == "Created PROJECT.md"@
        } else if w == Some("commit"@) {
            let msg = slash_rest(input, "Auto commit"@);
            replies(r, "Would commit: "@ + msg + "\nRun: git commit -m \""@ + msg + "\""@)
        } else if w == Some("test"@) {
            replies(r, "Running tests..."@)
        } else if w == Some("bug"@) {
            replies(r, "Analyzing code for bugs..."@)
        } else if w == Some("review"@) {
            replies(r, "Reviewing changes..."@)
        } else if w == Some("undo"@) {
            replies(r, "Reverting last change..."@)
        } else if w == Some("vim"@) {
            replies(r, "Vim mode: use h j k l for navigation"@)
        } else if w == Some("compact"@) {
            r matches SlashOutcome::CompactContext { reply } && reply@ == "Context compacted - kept important context"@
        } else if w == Some("websearch"@) {
            r matches SlashOutcome::WebSearch { query, limit } && query@ == slash_rest(input, "search"@) && limit == 5
        } else if w == Some("usage"@) {
            r is UsageReport
        } else {
            replies(r, "Unknown command: /"@ + strip_prefix_all(input, "/"@) + "\nType /help for available commands"@)
        }
    }
}

/// The help listing of the given commands.
fn slash_help(v: &Vec<SlashCommand>) -> (r: String)
    ensures
        r@ == slash_help_text(v@),
{
    let mut lines: Vec<String> = Vec::new();
    let mut i: usize = 0;
    while i < v.len()
        invariant
            i <= v@.len(),
            views(lines@) == Seq::new(v@.len(), |k: int| v@[k].name@ + " - "@ + v@[k].description@).subrange(0, i as int),
        decreases v.len() - i,
    {
        let line = cat3(v[i].name.as_str(), " - ", v[i].description.as_str());
        let ghost before = lines@;
        lines.push(line);
        assert(views(lines@) =~= views(before).push(line@));
        i = i + 1;
    }
    assert(Seq::new(v@.len(), |k: int| v@[k].name@ + " - "@ + v@[k].description@).subrange(0, v@.len() as int)
        =~= Seq::new(v@.len(), |k: int| v@[k].name@ + " - "@ + v@[k].description@));
    join_strings(&lines, "\n")
}

/// The words after the first, joined by single spaces; `default` where
/// there are no words.
fn rest_words(parts: &Vec<String>, default: &str) -> (r: String)
    ensures
        r@ == if views(parts@).len() >= 1 { join(views(parts@).skip(1), " "@) } else { default@ },
{
    if parts.len() == 0 {
        return owned(default);
    }
    let mut rest: Vec<String> = Vec::new();
    let mut i: usize = 1;
    while i < parts.len()
        invariant
            1 <= i <= parts@.len(),
            views(rest@) == views(parts@).subrange(1, i as int),
        decreases parts.len() - i,
    {
        let ghost before = rest@;
        rest.push(owned(parts[i].as_str()));
        assert(views(rest@) =~= views(before).push(parts@[i as int]@));
        assert(views(parts@).subrange(1, i + 1) =~= views(parts@).subrange(1, i as int).push(parts@[i as int]@));
        i = i + 1;
    }
    assert(views(parts@).subrange(1, parts@.len() as int) =~= views(parts@).skip(1));
    join_strings(&rest, " ")
}

/// The think mode that a word names.
fn think_mode_of(w: &str) -> (m: ThinkMode)
    ensures
        m == think_of_word(w@),
{
    if str_eq(w, "quick") {
        ThinkMode::Quick
    } else if str_eq(w, "extensive") {
        ThinkMode::Extensive
    } else if str_eq(w, "deep") {
        ThinkMode::Deep
    } else {
        ThinkMode::Normal
    }
}

/// Runs a slash command line of the interactive prompt: `/plan` and `/think`
/// change the state, the others reply with a fixed text or hand the caller
/// the file write, web search, context compaction or usage report to do.
pub fn run_slash_command(state: &mut DevUtilsState, input: &str) -> (r: SlashOutcome)
    ensures
        slash_effect(*old(state), *final(state), input@, r),
{
    let parts = split_whitespace(input);
    let cmd = trim_start_matches(input, "/");
    let word = first_word_of(cmd.as_str());
    let w: &str = match &word {
        Some(x) => x.as_str(),
        None => "",
    };
    let known = word.is_some();
    proof {
        reveal_strlit("plan");
        reveal_strlit("think");
        reveal_strlit("help");
        reveal_strlit("init");
        reveal_strlit("commit");
        reveal_strlit("test");
        reveal_strlit("bug");
        reveal_strlit("review");
        reveal_strlit("undo");
        reveal_strlit("vim");
        reveal_strlit("compact");
        reveal_strlit("websearch");
        reveal_strlit("usage");
        reveal_strlit("");
    }
    if known && str_eq(w, "plan") {
        let task = rest_words(&parts, "task");
        return SlashOutcome::Reply(start_planning_mode(state, task.as_str()));
    }
    if known && str_eq(w, "think") {
        proof {
            reveal_strlit("normal");
            reveal_strlit("quick");
            reveal_strlit("extensive");
            reveal_strlit("deep");
        }
        let mode = if parts.len() >= 2 {
            assert(views(parts@)[1] == parts@[1]@);
            think_mode_of(parts[1].as_str())
        } else {
            assert("normal"@[0] == 'n' && "quick"@[0] == 'q' && "extensive"@[0] == 'e' && "deep"@[0] == 'd');
            ThinkMode::Normal
        };
        assert(views(parts@) == words(input@));
        assert(mode == think_of_word(think_word(input@)));
        return SlashOutcome::Reply(set_think_mode(state, mode));
    }
    if known && str_eq(w, "help") {
        let v = list_slash_commands();
        let t = slash_help(&v);
        let r = SlashOutcome::Reply(t);
        assert(replies(r, slash_help_text(v@)));
        return r;
    }
    if known && str_eq(w, "init") {
        return SlashOutcome::WriteNotes {
            content: owned("# Project Context\n\n## Overview\nThis project is for...\n"),
            reply: owned("Created PROJECT.md"),
        };
    }
    if known && str_eq(w, "commit") {
        let msg = rest_words(&parts, "Auto commit");
        let mut t = cat3("Would commit: ", msg.as_str(), "\nRun: git commit -m \"");
        push_str(&mut t, msg.as_str());
        push_str(&mut t, "\"");
        return SlashOutcome::Reply(t);
    }
    if known && str_eq(w, "test") {
        return SlashOutcome::Reply(owned("Running tests..."));
    }
    if known && str_eq(w, "bug") {
        return SlashOutcome::Reply(owned("Analyzing code for bugs..."));
    }
    if known && str_eq(w, "review") {
        return SlashOutcome::Reply(owned("Reviewing changes..."));
    }
    if known && str_eq(w, "undo") {
        return SlashOutcome::Reply(owned("Reverting last change..."));
    }
    if known && str_eq(w, "vim") {
        return SlashOutcome::Reply(owned("Vim mode: use h j k l for navigation"));
    }
    if known && str_eq(w, "compact") {
        return SlashOutcome::CompactContext { reply: owned("Context compacted - kept important context") };
    }
    if known && str_eq(w, "websearch") {
        let query = rest_words(&parts, "search");
        return SlashOutcome::WebSearch { query, limit: 5 };
    }
    if known && str_eq(w, "usage") {
        return SlashOutcome::UsageReport;
    }
    SlashOutcome::Reply(cat3("Unknown command: /", cmd.as_str(), "\nType /help for available commands"))
}

} // verus!
