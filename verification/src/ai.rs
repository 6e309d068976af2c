//! The model client: which provider is configured, how a request to it is
//! put together, and what is made of its reply.

use vstd::prelude::*;
use vstd::string::StringSliceAdditionalSpecFns;
use crate::text::{
    before_char, before_first, before_first_str, cat, cat3, contains, copy_opt_string, dec,
    is_prefix, join, join_strings, lines, lines_of, lowercase, opt_string_view, owned, push_str,
    replace, replace_all, split_char, split_on, split_whitespace, starts_with, str_contains,
    str_eq, to_lower, to_upper, trim, trim_matches, trim_matches_char, trim_str, u64_to_string,
    upto_char, uppercase, views, words,
};
use crate::browser::first_lines;

verus! {

/// Tokens a model call used.
#[derive(Debug, Clone, Copy, PartialEq, Eq, Structural)]
pub struct TokenUsage {
    pub prompt_tokens: usize,
    pub completion_tokens: usize,
    pub total_tokens: usize,
}

impl Default for TokenUsage {
    fn default() -> (r: Self)
        ensures
            r == (TokenUsage { prompt_tokens: 0, completion_tokens: 0, total_tokens: 0 }),
    {
        TokenUsage { prompt_tokens: 0, completion_tokens: 0, total_tokens: 0 }
    }
}

/// The environment variables that choose the provider, each `None` when unset.
#[derive(Debug, Clone)]
pub struct ProviderEnv {
    pub gemini_api_key: Option<String>,
    pub gemini_model: Option<String>,
    pub nvidia_api_key: Option<String>,
    pub nvidia_model: Option<String>,
    pub nvidia_base_url: Option<String>,
    pub openai_api_key: Option<String>,
    pub deepseek_api_key: Option<String>,
}

/// A variable that is set and not empty.
pub open spec fn is_set(o: Option<String>) -> bool {
    match o {
        Some(k) => k@.len() > 0,
        None => false,
    }
}

/// The value of a variable, or `d` when it is unset.
pub open spec fn or_default(o: Option<String>, d: Seq<char>) -> Seq<char> {
    match o {
        Some(v) => v@,
        None => d,
    }
}

/// The key, model and base URL of the provider chosen by the environment:
/// Gemini, then NVIDIA, then OpenAI, then DeepSeek, the first whose key is
/// set and not empty; with no key, OpenAI's defaults and an empty key.
pub open spec fn active_provider(env: ProviderEnv) -> (Seq<char>, Seq<char>, Seq<char>) {
    if is_set(env.gemini_api_key) {
        (
            or_default(env.gemini_api_key, seq![]),
            or_default(env.gemini_model, "gemini-2.5-flash"@),
            "https://generativelanguage.googleapis.com/v1beta"@,
        )
    } else if is_set(env.nvidia_api_key) {
        (
            or_default(env.nvidia_api_key, seq![]),
            or_default(env.nvidia_model, "nvidia/deepseek-coder-6.7b-instruct"@),
            or_default(env.nvidia_base_url, "https://integrate.api.nvidia.com/v1"@),
        )
    } else if is_set(env.openai_api_key) {
        (or_default(env.openai_api_key, seq![]), "gpt-4"@, "https://api.openai.com/v1"@)
    } else if is_set(env.deepseek_api_key) {
        (or_default(env.deepseek_api_key, seq![]), "deepseek-chat"@, "https://api.deepseek.com/v1"@)
    } else {
        (seq![], "gpt-4"@, "https://api.openai.com/v1"@)
    }
}

/// The provider's settings come from the chosen provider's own variables:
/// Gemini's key with `GEMINI_MODEL` when it is set; else NVIDIA's key with
/// `NVIDIA_MODEL` and `NVIDIA_BASE_URL` whenever they are set (their defaults
/// only when they are unset); the other providers' variables play no part.
pub proof fn lemma_provider_uses_its_variables(env: ProviderEnv)
    ensures
        is_set(env.gemini_api_key) ==> {
            &&& active_provider(env).0 == env.gemini_api_key->0@
            &&& env.gemini_model is Some ==> active_provider(env).1 == env.gemini_model->0@
            &&& env.gemini_model is None ==> active_provider(env).1 == "gemini-2.5-flash"@
        },
        !is_set(env.gemini_api_key) && is_set(env.nvidia_api_key) ==> {
            &&& active_provider(env).0 == env.nvidia_api_key->0@
            &&& env.nvidia_model is Some ==> active_provider(env).1 == env.nvidia_model->0@
            &&& env.nvidia_model is None ==> active_provider(env).1 == "nvidia/deepseek-coder-6.7b-instruct"@
            &&& env.nvidia_base_url is Some ==> active_provider(env).2 == env.nvidia_base_url->0@
            &&& env.nvidia_base_url is None ==> active_provider(env).2 == "https://integrate.api.nvidia.com/v1"@
        },
        !is_set(env.gemini_api_key) && !is_set(env.nvidia_api_key) && is_set(env.openai_api_key) ==>
            active_provider(env) == (env.openai_api_key->0@, "gpt-4"@, "https://api.openai.com/v1"@),
        !is_set(env.gemini_api_key) && !is_set(env.nvidia_api_key) && !is_set(env.openai_api_key)
            && is_set(env.deepseek_api_key) ==>
            active_provider(env) == (env.deepseek_api_key->0@, "deepseek-chat"@, "https://api.deepseek.com/v1"@),
        !is_set(env.gemini_api_key) && !is_set(env.nvidia_api_key) && !is_set(env.openai_api_key)
            && !is_set(env.deepseek_api_key) ==> active_provider(env).0.len() == 0,
        forall|o: Option<String>, d: Option<String>|
            (is_set(env.gemini_api_key) || is_set(env.nvidia_api_key)) ==>
            #[trigger] active_provider(ProviderEnv { openai_api_key: o, deepseek_api_key: d, ..env }) == active_provider(env),
{
}

fn set_value(o: &Option<String>) -> (r: Option<String>)
    ensures
        match r {
            Some(v) => is_set(*o) && v@ == or_default(*o, seq![]),
            None => !is_set(*o),
        },
{
    match o {
        Some(k) => {
            let cs = crate::text::chars_of(k.as_str());
            if cs.len() == 0 {
                None
            } else {
                Some(owned(k.as_str()))
            }
        },
        None => None,
    }
}

fn value_or(o: &Option<String>, d: &str) -> (r: String)
    ensures
        r@ == or_default(*o, d@),
{
    match o {
        Some(v) => owned(v.as_str()),
        None => owned(d),
    }
}

/// The key, model and base URL of the provider that the environment chooses.
pub fn active_provider_config(env: &ProviderEnv) -> (r: (String, String, String))
    ensures
        (r.0@, r.1@, r.2@) == active_provider(*env),
{
    if let Some(key) = set_value(&env.gemini_api_key) {
        return (key, value_or(&env.gemini_model, "gemini-2.5-flash"), owned("https://generativelanguage.googleapis.com/v1beta"));
    }
    if let Some(key) = set_value(&env.nvidia_api_key) {
        return (
            key,
            value_or(&env.nvidia_model, "nvidia/deepseek-coder-6.7b-instruct"),
            value_or(&env.nvidia_base_url, "https://integrate.api.nvidia.com/v1"),
        );
    }
    if let Some(key) = set_value(&env.openai_api_key) {
        return (key, owned("gpt-4"), owned("https://api.openai.com/v1"));
    }
    if let Some(key) = set_value(&env.deepseek_api_key) {
        return (key, owned("deepseek-chat"), owned("https://api.deepseek.com/v1"));
    }
    (String::new(), owned("gpt-4"), owned("https://api.openai.com/v1"))
}

/// The provider a base URL belongs to.
pub open spec fn provider_of(base_url: Seq<char>) -> Seq<char> {
    if contains(base_url, "nvidia"@) {
        "NVIDIA"@
    } else if contains(base_url, "deepseek"@) {
        "DeepSeek"@
    } else if contains(base_url, "openai"@) {
        "OpenAI"@
    } else if contains(base_url, "anthropic"@) {
        "Anthropic"@
    } else if contains(base_url, "generativelanguage"@) {
        "Gemini"@
    } else {
        "Unknown"@
    }
}

/// A client of one model provider.
#[derive(Debug, Clone)]
pub struct AIClient {
    pub api_key: String,
    pub model: String,
    pub base_url: String,
}

impl AIClient {
    /// The client of the provider that the environment chooses.
    pub fn new(env: &ProviderEnv) -> (r: Self)
        ensures
            (r.api_key@, r.model@, r.base_url@) == active_provider(*env),
    {
        let (api_key, model, base_url) = active_provider_config(env);
        AIClient { api_key, model, base_url }
    }

    /// The client of the provider that the environment chooses, with `model`.
    pub fn with_model(env: &ProviderEnv, model: &str) -> (r: Self)
        ensures
            r.api_key@ == active_provider(*env).0,
            r.model@ == model@,
            r.base_url@ == active_provider(*env).2,
    {
        let (api_key, _m, base_url) = active_provider_config(env);
        AIClient { api_key, model: owned(model), base_url }
    }

    /// Whether an API key is set.
    pub fn is_configured(&self) -> (r: bool)
        ensures
            r == (self.api_key@.len() > 0),
    {
        let k = crate::text::chars_of(self.api_key.as_str());
        k.len() > 0
    }

    /// The name of the provider the client talks to.
    pub fn provider_name(&self) -> (r: String)
        ensures
            r@ == provider_of(self.base_url@),
    {
        let u = self.base_url.as_str();
        if str_contains(u, "nvidia") {
            owned("NVIDIA")
        } else if str_contains(u, "deepseek") {
            owned("DeepSeek")
        } else if str_contains(u, "openai") {
            owned("OpenAI")
        } else if str_contains(u, "anthropic") {
            owned("Anthropic")
        } else if str_contains(u, "generativelanguage") {
            owned("Gemini")
        } else {
            owned("Unknown")
        }
    }
}

} // verus!

verus! {

/// Options of one generation request. The sampling temperature is held in
/// thousandths (700 stands for 0.7).
#[derive(Debug, Clone)]
pub struct GenerateOptions {
    pub system_instruction: Option<String>,
    pub grounding: bool,
    pub files: Vec<String>,
    pub cache_id: Option<String>,
    pub temperature_milli: u32,
    pub max_tokens: usize,
}

impl Default for GenerateOptions {
    fn default() -> (r: Self)
        ensures
            r.system_instruction is None,
            !r.grounding,
            r.files@.len() == 0,
            r.cache_id is None,
            r.temperature_milli == 700,
            r.max_tokens == 4096,
    {
        GenerateOptions {
            system_instruction: None,
            grounding: false,
            files: Vec::new(),
            cache_id: None,
            temperature_milli: 700,
            max_tokens: 4096,
        }
    }
}

/// Where a generation request goes.
#[derive(Debug, Clone, Copy, PartialEq, Eq, Structural)]
pub enum GenerateRoute {
    /// Gemini's native `generateContent` endpoint.
    Gemini,
    /// A local Ollama server.
    Ollama,
    /// An OpenAI-compatible `chat/completions` endpoint.
    OpenAiCompatible,
}

/// The route of a generation request by the client's base URL.
pub open spec fn route_of(base_url: Seq<char>) -> GenerateRoute {
    if contains(base_url, "generativelanguage"@) {
        GenerateRoute::Gemini
    } else if contains(base_url, "localhost:11434"@) || contains(base_url, "ollama"@) {
        GenerateRoute::Ollama
    } else {
        GenerateRoute::OpenAiCompatible
    }
}

/// Where a generation request goes, or the error when no key is set.
pub fn generate_route(client: &AIClient) -> (r: Result<GenerateRoute, String>)
    ensures
        client.api_key@.len() == 0 <==> r is Err,
        match r {
            Ok(route) => route == route_of(client.base_url@),
            Err(e) => e@ == "ERROR: OPENAI_API_KEY / GEMINI_API_KEY is not set."@,
        },
{
    if !client.is_configured() {
        return Err(owned("ERROR: OPENAI_API_KEY / GEMINI_API_KEY is not set."));
    }
    let u = client.base_url.as_str();
    if str_contains(u, "generativelanguage") {
        Ok(GenerateRoute::Gemini)
    } else if str_contains(u, "localhost:11434") || str_contains(u, "ollama") {
        Ok(GenerateRoute::Ollama)
    } else {
        Ok(GenerateRoute::OpenAiCompatible)
    }
}

/// One message of a chat request.
#[derive(Debug, Clone)]
pub struct Message {
    pub role: String,
    pub content: String,
}

/// The prompt of a grounded request, with the results of a web search before it.
pub open spec fn grounded(prompt: Seq<char>, results: Seq<char>) -> Seq<char> {
    "Background Context from Web:\n"@ + results + "\n\nUser Request: "@ + prompt
}

/// The prompt sent to an OpenAI-compatible endpoint: grounded when the options
/// ask for it and a web search gave `search_results`.
pub fn final_prompt(prompt: &str, opts: &GenerateOptions, search_results: Option<&str>) -> (r: String)
    ensures
        r@ == (match search_results {
            Some(res) => if opts.grounding { grounded(prompt@, res@) } else { prompt@ },
            None => prompt@,
        }),
{
    match search_results {
        Some(res) => {
            if opts.grounding {
                let head = cat3("Background Context from Web:\n", res, "\n\nUser Request: ");
                cat(head.as_str(), prompt)
            } else {
                owned(prompt)
            }
        },
        None => owned(prompt),
    }
}

/// The (role, content) pairs of some messages.
pub open spec fn message_views(v: Seq<Message>) -> Seq<(Seq<char>, Seq<char>)> {
    v.map_values(|m: Message| (m.role@, m.content@))
}

/// The messages of an OpenAI-compatible request: the system instruction, if
/// any, then the user's prompt.
pub fn chat_messages(prompt: &str, opts: &GenerateOptions) -> (r: Vec<Message>)
    ensures
        message_views(r@) == (match opts.system_instruction {
            Some(s) => seq![("system"@, s@), ("user"@, prompt@)],
            None => seq![("user"@, prompt@)],
        }),
{
    let mut messages: Vec<Message> = Vec::new();
    if let Some(sys) = &opts.system_instruction {
        messages.push(Message { role: owned("system"), content: owned(sys.as_str()) });
    }
    messages.push(Message { role: owned("user"), content: owned(prompt) });
    proof {
        if opts.system_instruction is Some {
            let s = opts.system_instruction->0;
            assert(message_views(messages@) =~= seq![("system"@, s@), ("user"@, prompt@)]);
        } else {
            assert(message_views(messages@) =~= seq![("user"@, prompt@)]);
        }
    }
    messages
}

/// The URL of the chat endpoint below `base_url`.
pub fn chat_completions_url(base_url: &str) -> (r: String)
    ensures
        r@ == base_url@ + "/chat/completions"@,
{
    cat(base_url, "/chat/completions")
}

/// The URL of Ollama's generate endpoint below `base_url`.
pub fn ollama_url(base_url: &str) -> (r: String)
    ensures
        r@ == base_url@ + (if contains(base_url@, "/v1"@) { "/generate"@ } else { "/api/generate"@ }),
{
    if str_contains(base_url, "/v1") {
        cat(base_url, "/generate")
    } else {
        cat(base_url, "/api/generate")
    }
}

/// The URL of Gemini's `generateContent` for `model`.
pub fn gemini_url(base_url: &str, model: &str, key: &str) -> (r: String)
    ensures
        r@ == base_url@ + "/models/"@ + model@ + ":generateContent?key="@ + key@,
{
    let a = cat3(base_url, "/models/", model);
    cat3(a.as_str(), ":generateContent?key=", key)
}

/// The URL of Gemini's streaming endpoint for `model`.
pub fn gemini_stream_url(base_url: &str, model: &str, key: &str) -> (r: String)
    ensures
        r@ == base_url@ + "/models/"@ + model@ + ":streamGenerateContent?alt=sse&key="@ + key@,
{
    let a = cat3(base_url, "/models/", model);
    cat3(a.as_str(), ":streamGenerateContent?alt=sse&key=", key)
}

/// One part of a Gemini request: a text or a reference to an uploaded file.
#[derive(Debug, Clone)]
pub struct GeminiPart {
    pub text: Option<String>,
    pub file_uri: Option<String>,
}

/// A Gemini `generateContent` request.
#[derive(Debug, Clone)]
pub struct GeminiRequest {
    pub parts: Vec<GeminiPart>,
    pub system_instruction: Option<String>,
    pub search_tool: bool,
    pub cached_content: Option<String>,
}

/// The (text, file) pairs of some parts.
pub open spec fn part_views(v: Seq<GeminiPart>) -> Seq<(Option<Seq<char>>, Option<Seq<char>>)> {
    v.map_values(|p: GeminiPart| (opt_string_view(p.text), opt_string_view(p.file_uri)))
}

/// The parts of a Gemini request: one per file, in order, then the prompt.
pub open spec fn gemini_parts(files: Seq<Seq<char>>, prompt: Seq<char>) -> Seq<(Option<Seq<char>>, Option<Seq<char>>)> {
    files.map_values(|f: Seq<char>| (None::<Seq<char>>, Some(f))).push((Some(prompt), None::<Seq<char>>))
}

/// The Gemini request for `prompt` with the options.
pub fn gemini_request(prompt: &str, opts: &GenerateOptions) -> (r: GeminiRequest)
    ensures
        part_views(r.parts@) == gemini_parts(views(opts.files@), prompt@),
        opt_string_view(r.system_instruction) == opt_string_view(opts.system_instruction),
        r.search_tool == opts.grounding,
        opt_string_view(r.cached_content) == opt_string_view(opts.cache_id),
{
    let mut parts: Vec<GeminiPart> = Vec::new();
    let mut i: usize = 0;
    while i < opts.files.len()
        invariant
            i <= opts.files@.len(),
            part_views(parts@) == views(opts.files@).subrange(0, i as int).map_values(
                |f: Seq<char>| (None::<Seq<char>>, Some(f)),
            ),
        decreases opts.files.len() - i,
    {
        let ghost before = parts@;
        parts.push(GeminiPart { text: None, file_uri: Some(owned(opts.files[i].as_str())) });
        assert(part_views(parts@) =~= part_views(before).push((None::<Seq<char>>, Some(opts.files@[i as int]@))));
        assert(views(opts.files@).subrange(0, i + 1).map_values(|f: Seq<char>| (None::<Seq<char>>, Some(f)))
            =~= views(opts.files@).subrange(0, i as int).map_values(|f: Seq<char>| (None::<Seq<char>>, Some(f))).push(
            (None::<Seq<char>>, Some(opts.files@[i as int]@)),
        ));
        i = i + 1;
    }
    let ghost before = parts@;
    parts.push(GeminiPart { text: Some(owned(prompt)), file_uri: None });
    assert(part_views(parts@) =~= part_views(before).push((Some(prompt@), None::<Seq<char>>)));
    assert(views(opts.files@).subrange(0, opts.files@.len() as int) =~= views(opts.files@));
    GeminiRequest {
        parts,
        system_instruction: copy_opt_string(&opts.system_instruction),
        search_tool: opts.grounding,
        cached_content: copy_opt_string(&opts.cache_id),
    }
}

} // verus!

verus! {

/// The error of a request that was not answered.
pub open spec fn request_failed() -> Seq<char> {
    "ERROR: API request failed"@
}

/// The fields of an OpenAI-style reply body that the reply is read from:
/// each choice's `message.role` and `message.content` (when the body has a
/// `choices` array), and its `usage` (`None` when absent or `null`, else the
/// three counts when it is an object).
#[derive(Debug, Clone)]
pub struct OpenAIFields {
    pub choices: Option<Vec<(Option<String>, Option<String>)>>,
    pub usage: Option<Option<(Option<u64>, Option<u64>, Option<u64>)>>,
}

/// The texts of one choice's role and content.
pub open spec fn choice_view(c: (Option<String>, Option<String>)) -> (Option<Seq<char>>, Option<Seq<char>>) {
    (opt_string_view(c.0), opt_string_view(c.1))
}

/// The fields as plain values.
pub open spec fn openai_fields_view(f: OpenAIFields) -> (Option<Seq<(Option<Seq<char>>, Option<Seq<char>>)>>, Option<Option<(Option<u64>, Option<u64>, Option<u64>)>>) {
    (match f.choices {
        Some(v) => Some(v@.map_values(|c: (Option<String>, Option<String>)| choice_view(c))),
        None => None,
    }, f.usage)
}

/// A count that reads as a `usize`.
pub open spec fn count_fits(c: Option<u64>) -> bool {
    c matches Some(n) && n <= usize::MAX
}

/// The usage reads: absent, or an object with all three counts.
pub open spec fn usage_reads(u: Option<Option<(Option<u64>, Option<u64>, Option<u64>)>>) -> bool {
    match u {
        None => true,
        Some(None) => false,
        Some(Some((p, c, t))) => count_fits(p) && count_fits(c) && count_fits(t),
    }
}

/// The usage that was read, all zero when there is none.
pub open spec fn usage_read(u: Option<Option<(Option<u64>, Option<u64>, Option<u64>)>>) -> TokenUsage {
    match u {
        Some(Some((Some(p), Some(c), Some(t)))) =>
            TokenUsage { prompt_tokens: p as usize, completion_tokens: c as usize, total_tokens: t as usize },
        _ => TokenUsage { prompt_tokens: 0, completion_tokens: 0, total_tokens: 0 },
    }
}

/// The body reads as a reply: it has a `choices` array whose every choice has
/// a role and a content, and its usage reads.
pub open spec fn openai_reads(f: (Option<Seq<(Option<Seq<char>>, Option<Seq<char>>)>>, Option<Option<(Option<u64>, Option<u64>, Option<u64>)>>)) -> bool {
    &&& f.0 is Some
    &&& forall|i: int| 0 <= i < f.0->0.len() ==> (#[trigger] f.0->0[i]).0 is Some && f.0->0[i].1 is Some
    &&& usage_reads(f.1)
}

/// What the reply comes to: the parse error when the body is not JSON or
/// does not read as a reply; the empty-response error when it has no choice;
/// else the first choice's content and the usage.
pub open spec fn openai_outcome(f: Option<(Option<Seq<(Option<Seq<char>>, Option<Seq<char>>)>>, Option<Option<(Option<u64>, Option<u64>, Option<u64>)>>)>) -> Result<(Seq<char>, TokenUsage), Seq<char>> {
    match f {
        None => Err("ERROR: Failed to parse response"@),
        Some(v) => if !openai_reads(v) {
            Err("ERROR: Failed to parse response"@)
        } else if v.0->0.len() == 0 {
            Err("ERROR: Empty response from AI"@)
        } else {
            Ok((v.0->0[0].1->0, usage_read(v.1)))
        },
    }
}

/// `r` is the outcome `o`, texts compared by their characters.
pub open spec fn is_outcome(r: Result<(String, TokenUsage), String>, o: Result<(Seq<char>, TokenUsage), Seq<char>>) -> bool {
    match o {
        Ok((t, u)) => r matches Ok((text, usage)) && text@ == t && usage == u,
        Err(e) => r matches Err(m) && m@ == e,
    }
}

/// The reply of an OpenAI-compatible endpoint: `None` when the request was
/// not answered, else the fields read from the body (`None` when it was not
/// JSON).
pub fn openai_reply(reply: Option<Option<OpenAIFields>>) -> (r: Result<(String, TokenUsage), String>)
    ensures
        match reply {
            None => r matches Err(e) && e@ == request_failed(),
            Some(None) => is_outcome(r, openai_outcome(None)),
            Some(Some(f)) => is_outcome(r, openai_outcome(Some(openai_fields_view(f)))),
        },
{
    let ghost g = reply;
    let f = match reply {
        None => return Err(owned("ERROR: API request failed")),
        Some(None) => return Err(owned("ERROR: Failed to parse response")),
        Some(Some(f)) => f,
    };
    let ghost v = openai_fields_view(f);
    assert(g == Some(Some(f)));
    let choices = match f.choices {
        None => return Err(owned("ERROR: Failed to parse response")),
        Some(c) => c,
    };
    let mut i: usize = 0;
    while i < choices.len()
        invariant
            g == reply,
            g matches Some(Some(ff)) && openai_fields_view(ff) == v,
            v.0 == Some(choices@.map_values(|c: (Option<String>, Option<String>)| choice_view(c))),
            i <= choices@.len(),
            forall|k: int| 0 <= k < i ==> (#[trigger] v.0->0[k]).0 is Some && v.0->0[k].1 is Some,
        decreases choices.len() - i,
    {
        if choices[i].0.is_none() || choices[i].1.is_none() {
            assert(v.0->0[i as int] == choice_view(choices@[i as int]));
            return Err(owned("ERROR: Failed to parse response"));
        }
        assert(v.0->0[i as int] == choice_view(choices@[i as int]));
        i = i + 1;
    }
    let u = match f.usage {
        None => TokenUsage::default(),
        Some(None) => return Err(owned("ERROR: Failed to parse response")),
        Some(Some((p, c, t))) => {
            if p.is_none() || c.is_none() || t.is_none() {
                return Err(owned("ERROR: Failed to parse response"));
            }
            let (p, c, t) = (p.unwrap(), c.unwrap(), t.unwrap());
            if p > usize::MAX as u64 || c > usize::MAX as u64 || t > usize::MAX as u64 {
                return Err(owned("ERROR: Failed to parse response"));
            }
            TokenUsage { prompt_tokens: p as usize, completion_tokens: c as usize, total_tokens: t as usize }
        },
    };
    if choices.len() == 0 {
        return Err(owned("ERROR: Empty response from AI"));
    }
    assert(v.0->0[0] == choice_view(choices@[0]));
    let text = match &choices[0].1 {
        Some(t) => owned(t.as_str()),
        None => String::new(),
    };
    Ok((text, u))
}

/// What was read from a Gemini reply: the raw body, the text of the first
/// part of the first candidate, and the usage counts when the body has them.
#[derive(Debug, Clone)]
pub struct GeminiResponse {
    pub body: String,
    pub text: Option<String>,
    pub usage: Option<(Option<u64>, Option<u64>, Option<u64>)>,
}

/// A count read from a reply, 0 when missing.
pub open spec fn count_or_zero(c: Option<u64>) -> usize {
    match c {
        Some(n) => n as usize,
        None => 0,
    }
}

fn count_of(c: Option<u64>) -> (r: usize)
    ensures
        r == count_or_zero(c),
{
    match c {
        Some(n) => n as usize,
        None => 0,
    }
}

/// The usage of a Gemini reply from its `usageMetadata` counts.
pub open spec fn gemini_usage(u: Option<(Option<u64>, Option<u64>, Option<u64>)>) -> TokenUsage {
    match u {
        Some((p, c, t)) => TokenUsage {
            prompt_tokens: count_or_zero(p),
            completion_tokens: count_or_zero(c),
            total_tokens: count_or_zero(t),
        },
        None => TokenUsage { prompt_tokens: 0, completion_tokens: 0, total_tokens: 0 },
    }
}

/// The result of a Gemini request: the error of a request that failed, the
/// text and usage of a reply that has a text, else an error with the body.
pub fn gemini_reply(response: Result<GeminiResponse, String>) -> (r: Result<(String, TokenUsage), String>)
    ensures
        match response {
            Err(e) => r matches Err(m) && m@ == "ERROR: Gemini request failed: "@ + e@,
            Ok(g) => match g.text {
                Some(t) => r matches Ok((text, u)) && text@ == t@ && u == gemini_usage(g.usage),
                None => r matches Err(m) && m@ == "ERROR: Failed to parse Gemini response. Raw: "@ + g.body@,
            },
        },
{
    match response {
        Err(e) => Err(cat("ERROR: Gemini request failed: ", e.as_str())),
        Ok(g) => match g.text {
            Some(t) => {
                let u = match g.usage {
                    Some((p, c, tt)) => TokenUsage {
                        prompt_tokens: count_of(p),
                        completion_tokens: count_of(c),
                        total_tokens: count_of(tt),
                    },
                    None => TokenUsage::default(),
                };
                Ok((t, u))
            },
            None => Err(cat("ERROR: Failed to parse Gemini response. Raw: ", g.body.as_str())),
        },
    }
}

/// What was read from an Ollama reply: its `response` text and its two counts.
#[derive(Debug, Clone)]
pub struct OllamaResponse {
    pub response: Option<String>,
    pub prompt_eval_count: Option<u64>,
    pub eval_count: Option<u64>,
}

/// The sum of two counts read from a reply, each 0 when missing.
pub open spec fn count_sum(a: Option<u64>, b: Option<u64>) -> int {
    (match a { Some(n) => n as int, None => 0int }) + (match b { Some(n) => n as int, None => 0int })
}

/// The result of an Ollama request: `Err` when it was not answered, `Ok(None)`
/// when the body did not parse.
pub fn ollama_reply(response: Result<Option<OllamaResponse>, String>) -> (r: Result<(String, TokenUsage), String>)
    requires
        response matches Ok(Some(o)) ==> count_sum(o.prompt_eval_count, o.eval_count) <= u64::MAX,
    ensures
        match response {
            Err(_) => r matches Err(m) && m@ == "ERROR: Ollama connection failed"@,
            Ok(None) => r matches Err(m) && m@ == "ERROR: Failed to parse Ollama response"@,
            Ok(Some(o)) => r matches Ok((text, u)) && text@ == (match o.response {
                Some(t) => t@,
                None => Seq::<char>::empty(),
            }) && u.prompt_tokens == count_or_zero(o.prompt_eval_count) && u.completion_tokens
                == count_or_zero(o.eval_count) && u.total_tokens == (count_sum(o.prompt_eval_count, o.eval_count) as u64) as usize,
        },
{
    match response {
        Err(_) => Err(owned("ERROR: Ollama connection failed")),
        Ok(None) => Err(owned("ERROR: Failed to parse Ollama response")),
        Ok(Some(o)) => {
            let text = match o.response {
                Some(t) => t,
                None => String::new(),
            };
            let p: u64 = match o.prompt_eval_count {
                Some(n) => n,
                None => 0,
            };
            let e: u64 = match o.eval_count {
                Some(n) => n,
                None => 0,
            };
            let total: u64 = p + e;
            Ok((
                text,
                TokenUsage {
                    prompt_tokens: count_of(o.prompt_eval_count),
                    completion_tokens: count_of(o.eval_count),
                    total_tokens: total as usize,
                },
            ))
        },
    }
}

/// A line of a server-sent event stream.
#[derive(Debug, Clone, PartialEq, Eq)]
pub enum SseLine {
    /// The end marker `data: [DONE]`.
    Done,
    /// The payload of a `data: ` line.
    Data(String),
    /// Any other line.
    Other,
}

/// Reads one line of a server-sent event stream.
pub fn sse_line(line: &str) -> (r: SseLine)
    ensures
        match r {
            SseLine::Done => is_prefix("data: "@, line@) && line@.skip(6) == "[DONE]"@,
            SseLine::Data(d) => is_prefix("data: "@, line@) && d@ == line@.skip(6) && d@ != "[DONE]"@,
            SseLine::Other => !is_prefix("data: "@, line@),
        },
{
    match crate::text::strip_prefix(line, "data: ") {
        Some(d) => {
            proof {
                reveal_strlit("data: ");
            }
            if str_eq(d.as_str(), "[DONE]") {
                SseLine::Done
            } else {
                SseLine::Data(d)
            }
        },
        None => SseLine::Other,
    }
}

/// The error of a call that needs a key when none is set.
pub open spec fn key_missing() -> Seq<char> {
    "ERROR: OPENAI_API_KEY is not set."@
}

/// A prompt that wraps `code` in a fenced block after `head`.
pub open spec fn fenced(head: Seq<char>, code: Seq<char>) -> Seq<char> {
    head + "\n```\n"@ + code + "\n```"@
}

fn fenced_prompt(head: &str, code: &str) -> (r: String)
    ensures
        r@ == fenced(head@, code@),
{
    let a = cat3(head, "\n```\n", code);
    cat(a.as_str(), "\n```")
}

/// The prompt that asks to explain `code`, or the error when no key is set.
pub fn explain_prompt(client: &AIClient, code: &str) -> (r: Result<String, String>)
    ensures
        match r {
            Ok(p) => client.api_key@.len() > 0 && p@ == fenced("Explain this code:"@, code@),
            Err(e) => client.api_key@.len() == 0 && e@ == key_missing(),
        },
{
    if !client.is_configured() {
        return Err(owned("ERROR: OPENAI_API_KEY is not set."));
    }
    Ok(fenced_prompt("Explain this code:", code))
}

/// The prompt that asks for code, or the error when no key is set.
pub fn generate_code_prompt(client: &AIClient, prompt: &str) -> (r: Result<String, String>)
    ensures
        match r {
            Ok(p) => client.api_key@.len() > 0 && p@ == "Generate code: "@ + prompt@,
            Err(e) => client.api_key@.len() == 0 && e@ == key_missing(),
        },
{
    if !client.is_configured() {
        return Err(owned("ERROR: OPENAI_API_KEY is not set."));
    }
    Ok(cat("Generate code: ", prompt))
}

/// The prompt that asks to find bugs in `code`.
pub fn debug_prompt(code: &str) -> (r: String)
    ensures
        r@ == fenced("Find bugs:"@, code@),
{
    fenced_prompt("Find bugs:", code)
}

/// The prompt that asks to refactor `code`.
pub fn refactor_prompt(code: &str) -> (r: String)
    ensures
        r@ == fenced("Refactor:"@, code@),
{
    fenced_prompt("Refactor:", code)
}

/// The prompt that asks for tests of `code`.
pub fn tests_prompt(code: &str) -> (r: String)
    ensures
        r@ == fenced("Generate tests for:"@, code@),
{
    fenced_prompt("Generate tests for:", code)
}

/// The prompt that asks to refactor `code` with the named pattern.
pub fn pattern_prompt(pattern: &str, code: &str) -> (r: String)
    ensures
        r@ == fenced("Refactor using '"@ + pattern@ + "':"@, code@),
{
    let head = cat3("Refactor using '", pattern, "':");
    fenced_prompt(head.as_str(), code)
}

/// The URL that uploads a file to Gemini with `key`.
pub fn upload_url(key: &str) -> (r: String)
    ensures
        r@ == "https://generativelanguage.googleapis.com/upload/v1beta/files?key="@ + key@,
{
    cat("https://generativelanguage.googleapis.com/upload/v1beta/files?key=", key)
}

/// Whether the client talks to Gemini, which alone takes uploads and caches.
pub fn is_gemini(client: &AIClient) -> (r: bool)
    ensures
        r == contains(client.base_url@, "generativelanguage"@),
{
    str_contains(client.base_url.as_str(), "generativelanguage")
}

/// The result of an upload: the URI of the uploaded file, else an error with the body.
pub fn upload_reply(body: &str, uri: Option<String>) -> (r: Result<String, String>)
    ensures
        match uri {
            Some(u) => r matches Ok(x) && x@ == u@,
            None => r matches Err(e) && e@ == "Upload failed. Raw: "@ + body@,
        },
{
    match uri {
        Some(u) => Ok(u),
        None => Err(cat("Upload failed. Raw: ", body)),
    }
}

/// A request to cache content at Gemini.
#[derive(Debug, Clone)]
pub struct CacheRequest {
    pub model: String,
    pub file_uris: Vec<String>,
    pub system_instruction: Option<String>,
    pub ttl: String,
}

/// The request that caches the files for `ttl_minutes`, or the error for a
/// provider other than Gemini.
pub fn cache_request(client: &AIClient, file_uris: Vec<String>, ttl_minutes: u32, system_instruction: Option<String>) -> (r: Result<CacheRequest, String>)
    requires
        ttl_minutes * 60 <= u32::MAX,
    ensures
        match r {
            Ok(c) => contains(client.base_url@, "generativelanguage"@) && c.model@ == "models/"@ + client.model@
                && views(c.file_uris@) == views(file_uris@) && opt_string_view(c.system_instruction)
                == opt_string_view(system_instruction) && c.ttl@ == crate::text::dec((ttl_minutes * 60) as nat) + "s"@,
            Err(e) => !contains(client.base_url@, "generativelanguage"@)
                && e@ == "ERROR: Context Caching is currently only supported natively via Gemini API."@,
        },
{
    if !is_gemini(client) {
        return Err(owned("ERROR: Context Caching is currently only supported natively via Gemini API."));
    }
    let secs: u32 = ttl_minutes * 60;
    let n = crate::text::u64_to_string(secs as u64);
    Ok(CacheRequest {
        model: cat("models/", client.model.as_str()),
        file_uris,
        system_instruction,
        ttl: cat(n.as_str(), "s"),
    })
}

/// The result of a cache request: the name of the cache, else an error with the body.
pub fn cache_reply(body: &str, name: Option<String>) -> (r: Result<String, String>)
    ensures
        match name {
            Some(n) => r matches Ok(x) && x@ == n@,
            None => r matches Err(e) && e@ == "Cache creation failed. Raw: "@ + body@,
        },
{
    match name {
        Some(n) => Ok(n),
        None => Err(cat("Cache creation failed. Raw: ", body)),
    }
}

} // verus!

verus! {

/// The notes of the bug check on one trimmed line numbered `n`.
pub open spec fn line_issues(t: Seq<char>, n: nat) -> Seq<Seq<char>> {
    (if contains(t, "TODO"@) || contains(t, "FIXME"@) {
        seq!["Line "@ + dec(n) + ": TODO/FIXME"@]
    } else {
        seq![]
    }) + (if contains(t, "password"@) && contains(t, "="@) && !contains(t, "env"@) && !contains(t, "getenv"@) {
        seq!["Line "@ + dec(n) + ": Possible hardcoded secret!"@]
    } else {
        seq![]
    })
}

/// The notes of the bug check on the first `k` lines.
pub open spec fn issues_upto(ls: Seq<Seq<char>>, k: nat) -> Seq<Seq<char>>
    decreases k,
{
    if k == 0 || k > ls.len() {
        seq![]
    } else {
        issues_upto(ls, (k - 1) as nat) + line_issues(trim(ls[k - 1]), k)
    }
}

/// The report of the offline bug check on `code`.
pub open spec fn debug_report(code: Seq<char>) -> Seq<char> {
    let is = issues_upto(lines(code), lines(code).len());
    if is.len() == 0 {
        "No obvious issues found."@
    } else {
        join(is, "\n"@)
    }
}

/// The offline bug check: lines with TODO/FIXME notes and lines that look
/// like a hard-coded password.
pub fn mock_debug(code: &str) -> (r: String)
    ensures
        r@ == debug_report(code@),
{
    let ls = lines_of(code);
    let mut issues: Vec<String> = Vec::new();
    let mut i: usize = 0;
    while i < ls.len()
        invariant
            views(ls@) == lines(code@),
            i <= ls@.len(),
            views(issues@) == issues_upto(lines(code@), i as nat),
        decreases ls.len() - i,
    {
        let t = trim_str(ls[i].as_str());
        let ts = t.as_str();
        let n = u64_to_string((i + 1) as u64);
        let ghost before = views(issues@);
        let todo = str_contains(ts, "TODO") || str_contains(ts, "FIXME");
        if todo {
            issues.push(cat3("Line ", n.as_str(), ": TODO/FIXME"));
        }
        let ghost mid = views(issues@);
        let secret = str_contains(ts, "password") && str_contains(ts, "=") && !str_contains(ts, "env")
            && !str_contains(ts, "getenv");
        if secret {
            issues.push(cat3("Line ", n.as_str(), ": Possible hardcoded secret!"));
        }
        proof {
            let first: Seq<Seq<char>> = if todo { seq!["Line "@ + dec((i + 1) as nat) + ": TODO/FIXME"@] } else { seq![] };
            let second: Seq<Seq<char>> = if secret { seq!["Line "@ + dec((i + 1) as nat) + ": Possible hardcoded secret!"@] } else { seq![] };
            assert(mid =~= before + first);
            assert(views(issues@) =~= mid + second);
            assert(line_issues(t@, (i + 1) as nat) =~= first + second);
            assert(views(issues@) =~= before + line_issues(trim(lines(code@)[i as int]), (i + 1) as nat));
        }
        i = i + 1;
    }
    if issues.len() == 0 {
        owned("No obvious issues found.")
    } else {
        join_strings(&issues, "\n")
    }
}

/// A line that the offline refactoring keeps: not a `//` or `#` comment.
pub open spec fn keeps_line(l: Seq<char>) -> bool {
    !is_prefix("//"@, trim(l)) && !is_prefix("#"@, trim(l))
}

/// The kept lines among the first `k`.
pub open spec fn kept_upto(ls: Seq<Seq<char>>, k: nat) -> Seq<Seq<char>>
    decreases k,
{
    if k == 0 || k > ls.len() {
        seq![]
    } else {
        kept_upto(ls, (k - 1) as nat) + (if keeps_line(ls[k - 1]) { seq![ls[k - 1]] } else { seq![] })
    }
}

/// The offline refactoring: `code` without its comment lines.
pub fn mock_refactor(code: &str) -> (r: String)
    ensures
        r@ == join(kept_upto(lines(code@), lines(code@).len()), "\n"@),
{
    let ls = lines_of(code);
    let mut kept: Vec<String> = Vec::new();
    let mut i: usize = 0;
    while i < ls.len()
        invariant
            views(ls@) == lines(code@),
            i <= ls@.len(),
            views(kept@) == kept_upto(lines(code@), i as nat),
        decreases ls.len() - i,
    {
        let t = trim_str(ls[i].as_str());
        let ghost before = views(kept@);
        if !starts_with(t.as_str(), "//") && !starts_with(t.as_str(), "#") {
            kept.push(owned(ls[i].as_str()));
            assert(views(kept@) =~= before + seq![ls@[i as int]@]);
        } else {
            assert(views(kept@) =~= before + Seq::<Seq<char>>::empty());
        }
        i = i + 1;
    }
    join_strings(&kept, "\n")
}

/// The language that the lower-cased code `c` looks like.
pub open spec fn language_of(c: Seq<char>) -> Seq<char> {
    if contains(c, "fn "@) && contains(c, "->"@) {
        "rust"@
    } else if contains(c, "def "@) && contains(c, ":"@) {
        "python"@
    } else if contains(c, "function "@) || contains(c, "=>"@) {
        "javascript"@
    } else if contains(c, "func "@) && contains(c, "package "@) {
        "go"@
    } else if contains(c, "public class"@) {
        "java"@
    } else {
        "unknown"@
    }
}

/// The language that `code` looks like.
pub fn detect_language(code: &str) -> (r: String)
    ensures
        r@ == language_of(lowercase(code@)),
{
    let c = to_lower(code);
    let cs = c.as_str();
    if str_contains(cs, "fn ") && str_contains(cs, "->") {
        owned("rust")
    } else if str_contains(cs, "def ") && str_contains(cs, ":") {
        owned("python")
    } else if str_contains(cs, "function ") || str_contains(cs, "=>") {
        owned("javascript")
    } else if str_contains(cs, "func ") && str_contains(cs, "package ") {
        owned("go")
    } else if str_contains(cs, "public class") {
        owned("java")
    } else {
        owned("unknown")
    }
}

/// The second word of `t`, if it has one.
pub open spec fn second_word(t: Seq<char>) -> Option<Seq<char>> {
    if words(t).len() >= 2 {
        Some(words(t)[1])
    } else {
        None
    }
}

fn second_word_of(t: &str) -> (r: Option<String>)
    ensures
        opt_string_view(r) == second_word(t@),
{
    let ws = split_whitespace(t);
    if ws.len() >= 2 {
        Some(owned(ws[1].as_str()))
    } else {
        None
    }
}

/// The test stub for one trimmed line: a Python test for a `def`, a Rust test
/// for a `fn` or `pub fn`.
pub open spec fn stub_of(t: Seq<char>, python: bool) -> Seq<Seq<char>> {
    if python {
        if is_prefix("def "@, t) && second_word(t) is Some {
            seq!["def test_"@ + trim_matches_char(second_word(t)->0, '(') + "():\n    pass"@]
        } else {
            seq![]
        }
    } else {
        if (is_prefix("fn "@, t) || is_prefix("pub fn "@, t)) && second_word(t) is Some {
            seq!["#[test]\nfn "@ + trim_matches_char(second_word(t)->0, '(') + "() {}"@]
        } else {
            seq![]
        }
    }
}

/// The test stubs for the first `k` lines.
pub open spec fn stubs_upto(ls: Seq<Seq<char>>, k: nat, python: bool) -> Seq<Seq<char>>
    decreases k,
{
    if k == 0 || k > ls.len() {
        seq![]
    } else {
        stubs_upto(ls, (k - 1) as nat, python) + stub_of(trim(ls[k - 1]), python)
    }
}

fn stubs(code: &str, python: bool) -> (r: Vec<String>)
    ensures
        views(r@) == stubs_upto(lines(code@), lines(code@).len(), python),
{
    let ls = lines_of(code);
    let mut out: Vec<String> = Vec::new();
    let mut i: usize = 0;
    while i < ls.len()
        invariant
            views(ls@) == lines(code@),
            i <= ls@.len(),
            views(out@) == stubs_upto(lines(code@), i as nat, python),
        decreases ls.len() - i,
    {
        let t = trim_str(ls[i].as_str());
        let ts = t.as_str();
        let ghost before = views(out@);
        let opens = if python { starts_with(ts, "def ") } else { starts_with(ts, "fn ") || starts_with(ts, "pub fn ") };
        if opens {
            match second_word_of(ts) {
                Some(w) => {
                    let name = trim_matches(w.as_str(), '(');
                    if python {
                        out.push(cat3("def test_", name.as_str(), "():\n    pass"));
                    } else {
                        out.push(cat3("#[test]\nfn ", name.as_str(), "() {}"));
                    }
                    assert(views(out@) =~= before + stub_of(t@, python));
                },
                None => {
                    assert(views(out@) =~= before + stub_of(t@, python));
                },
            }
        } else {
            assert(views(out@) =~= before + stub_of(t@, python));
        }
        i = i + 1;
    }
    out
}

/// The offline test generation for code in the language `lang`.
pub open spec fn tests_for(code: Seq<char>, lang: Seq<char>) -> Seq<char> {
    if lang == "python"@ {
        "import pytest\n\n"@ + join(stubs_upto(lines(code), lines(code).len(), true), "\n\n"@)
    } else if lang == "javascript"@ {
        "describe('test', () => {\n  test('works', () => {\n    expect(true).toBe(true);\n  });\n});"@
    } else if lang == "rust"@ {
        join(stubs_upto(lines(code), lines(code).len(), false), "\n\n"@)
    } else {
        "// No tests generated\n// Set OPENAI_API_KEY for AI-powered test generation"@
    }
}

/// The offline test generation: stubs for the functions that `code` defines.
pub fn mock_tests(code: &str) -> (r: String)
    ensures
        r@ == tests_for(code@, language_of(lowercase(code@))),
{
    let lang = detect_language(code);
    let l = lang.as_str();
    if str_eq(l, "python") {
        let ts = stubs(code, true);
        let body = join_strings(&ts, "\n\n");
        cat("import pytest\n\n", body.as_str())
    } else if str_eq(l, "javascript") {
        owned("describe('test', () => {\n  test('works', () => {\n    expect(true).toBe(true);\n  });\n});")
    } else if str_eq(l, "rust") {
        let ts = stubs(code, false);
        join_strings(&ts, "\n\n")
    } else {
        owned("// No tests generated\n// Set OPENAI_API_KEY for AI-powered test generation")
    }
}

} // verus!

verus! {

/// A trimmed line that opens a definition.
pub open spec fn is_definition(t: Seq<char>) -> bool {
    is_prefix("fn "@, t) || is_prefix("def "@, t) || is_prefix("function "@, t) || is_prefix("pub fn"@, t)
        || is_prefix("class "@, t) || is_prefix("struct "@, t)
}

/// The trimmed definition lines among the first `k` lines.
pub open spec fn defs_upto(ls: Seq<Seq<char>>, k: nat) -> Seq<Seq<char>>
    decreases k,
{
    if k == 0 || k > ls.len() {
        seq![]
    } else {
        defs_upto(ls, (k - 1) as nat) + (if is_definition(trim(ls[k - 1])) { seq![trim(ls[k - 1])] } else { seq![] })
    }
}

/// The first five definitions of `code`, joined with `, `, or `(none)`.
pub open spec fn definitions(code: Seq<char>) -> Seq<char> {
    let d = first_lines(defs_upto(lines(code), lines(code).len()), 5);
    if d.len() == 0 {
        "(none)"@
    } else {
        join(d, ", "@)
    }
}

/// The first five definitions of `code`, joined with `, `, or `(none)`.
pub fn extract_definitions(code: &str) -> (r: String)
    ensures
        r@ == definitions(code@),
{
    let ls = lines_of(code);
    let mut defs: Vec<String> = Vec::new();
    let mut i: usize = 0;
    while i < ls.len()
        invariant
            views(ls@) == lines(code@),
            i <= ls@.len(),
            views(defs@) == defs_upto(lines(code@), i as nat),
        decreases ls.len() - i,
    {
        let t = trim_str(ls[i].as_str());
        let ts = t.as_str();
        let ghost before = views(defs@);
        if starts_with(ts, "fn ") || starts_with(ts, "def ") || starts_with(ts, "function ") || starts_with(ts, "pub fn")
            || starts_with(ts, "class ") || starts_with(ts, "struct ") {
            defs.push(t);
            assert(views(defs@) =~= before + seq![trim(lines(code@)[i as int])]);
        } else {
            assert(views(defs@) =~= before + Seq::<Seq<char>>::empty());
        }
        i = i + 1;
    }
    if defs.len() == 0 {
        return owned("(none)");
    }
    let mut first: Vec<String> = Vec::new();
    let mut k: usize = 0;
    while k < defs.len() && k < 5
        invariant
            k <= defs@.len(),
            k <= 5,
            views(first@) == views(defs@).subrange(0, k as int),
        decreases defs.len() - k,
    {
        let ghost before = views(first@);
        first.push(owned(defs[k].as_str()));
        assert(views(first@) =~= before.push(defs@[k as int]@));
        assert(views(first@) =~= views(defs@).subrange(0, k + 1));
        k = k + 1;
    }
    assert(views(first@) =~= first_lines(views(defs@), 5));
    join_strings(&first, ", ")
}

/// The prompt of a chat with its history: one `role: content` line per message.
pub open spec fn history_lines(v: Seq<crate::chat::ChatMessage>) -> Seq<Seq<char>> {
    v.map_values(|m: crate::chat::ChatMessage| m.role@ + ": "@ + m.content@)
}

/// The prompt that carries a chat's history.
pub fn history_prompt(messages: &Vec<crate::chat::ChatMessage>) -> (r: String)
    ensures
        r@ == join(history_lines(messages@), "\n"@),
{
    let mut ls: Vec<String> = Vec::new();
    let mut i: usize = 0;
    while i < messages.len()
        invariant
            i <= messages@.len(),
            views(ls@) == history_lines(messages@).subrange(0, i as int),
        decreases messages.len() - i,
    {
        let ghost before = views(ls@);
        ls.push(cat3(messages[i].role.as_str(), ": ", messages[i].content.as_str()));
        assert(views(ls@) =~= before.push(messages@[i as int].role@ + ": "@ + messages@[i as int].content@));
        assert(views(ls@) =~= history_lines(messages@).subrange(0, i + 1));
        i = i + 1;
    }
    assert(history_lines(messages@).subrange(0, messages@.len() as int) =~= history_lines(messages@));
    join_strings(&ls, "\n")
}

/// The lines of `ls`, each indented by four spaces.
pub open spec fn indented(ls: Seq<Seq<char>>) -> Seq<Seq<char>> {
    ls.map_values(|l: Seq<char>| "    "@ + l)
}

/// The extract-method refactoring: code of fewer than three lines is kept; else
/// its first five lines, indented, become the body of a function named after
/// its first definition.
pub open spec fn extracted_method(code: Seq<char>) -> Seq<char> {
    let ls = lines(code);
    if ls.len() < 3 {
        code
    } else {
        "fn "@ + trim(upto_char(definitions(code), ',')) + "(x: Type) -> Type {\n    "@
            + join(indented(first_lines(ls, 5)), "\n"@) + "\n}"@
    }
}

/// The extract-method refactoring of `code`.
pub fn extract_method(code: &str) -> (r: String)
    ensures
        r@ == extracted_method(code@),
{
    let ls = lines_of(code);
    if ls.len() < 3 {
        return owned(code);
    }
    let defs = extract_definitions(code);
    let first = before_char(defs.as_str(), ',');
    let name = trim_str(first.as_str());
    let mut body: Vec<String> = Vec::new();
    let mut k: usize = 0;
    while k < ls.len() && k < 5
        invariant
            views(ls@) == lines(code@),
            k <= ls@.len(),
            k <= 5,
            views(body@) == indented(views(ls@).subrange(0, k as int)),
        decreases ls.len() - k,
    {
        let ghost before = views(body@);
        body.push(cat("    ", ls[k].as_str()));
        assert(views(body@) =~= before.push("    "@ + ls@[k as int]@));
        assert(views(body@) =~= indented(views(ls@).subrange(0, k + 1)));
        k = k + 1;
    }
    assert(views(ls@).subrange(0, k as int) =~= first_lines(views(ls@), 5));
    let b = join_strings(&body, "\n");
    let head = cat3("fn ", name.as_str(), "(x: Type) -> Type {\n    ");
    cat3(head.as_str(), b.as_str(), "\n}")
}

/// Applies `f` to each line of `code` and joins the results with `\n`.
pub open spec fn map_lines(ls: Seq<Seq<char>>, f: spec_fn(Seq<char>) -> Seq<char>) -> Seq<char> {
    join(ls.map_values(f), "\n"@)
}

/// One line of the inline-variable refactoring.
pub open spec fn inline_line(line: Seq<char>) -> Seq<char> {
    let t = trim(line);
    if is_prefix("let "@, t) && contains(t, " = "@) {
        replace_all(line, "let "@ + trim(before_first(t, " = "@)) + " = "@, seq![])
    } else {
        line
    }
}

/// The function that rewrites one line for the inline-variable refactoring.
pub open spec fn inline_fn() -> spec_fn(Seq<char>) -> Seq<char> {
    |l: Seq<char>| inline_line(l)
}

/// The inline-variable refactoring of `code`.
pub fn inline_variable(code: &str) -> (r: String)
    ensures
        r@ == map_lines(lines(code@), inline_fn()),
{
    let ls = lines_of(code);
    let mut out: Vec<String> = Vec::new();
    let mut i: usize = 0;
    while i < ls.len()
        invariant
            views(ls@) == lines(code@),
            i <= ls@.len(),
            views(out@) == lines(code@).subrange(0, i as int).map_values(inline_fn()),
        decreases ls.len() - i,
    {
        let line = ls[i].as_str();
        let t = trim_str(line);
        let ts = t.as_str();
        let piece = if starts_with(ts, "let ") && str_contains(ts, " = ") {
            let before = before_first_str(ts, " = ");
            let name = trim_str(before.as_str());
            let pat = cat3("let ", name.as_str(), " = ");
            replace(line, pat.as_str(), "")
        } else {
            owned(line)
        };
        proof {
            reveal_strlit("");
            assert(""@ =~= Seq::<char>::empty());
            assert(lines(code@)[i as int] == ls@[i as int]@);
        }
        assert(piece@ == inline_line(line@));
        let ghost before = views(out@);
        out.push(piece);
        assert(views(out@) =~= before.push(inline_line(line@)));
        assert(views(out@) =~= lines(code@).subrange(0, i + 1).map_values(inline_fn()));
        i = i + 1;
    }
    assert(lines(code@).subrange(0, ls@.len() as int) =~= lines(code@));
    join_strings(&out, "\n")
}

/// One line of the rename refactoring: the variable of a `let` that is one
/// byte long or all upper case is written in lower case.
pub open spec fn rename_line(line: Seq<char>) -> Seq<char> {
    let t = trim(line);
    if is_prefix("let "@, t) && second_word(t) is Some {
        let var = second_word(t)->0;
        if (vstd::utf8::encode_utf8(var).len() as usize) == 1 || var == uppercase(var) {
            replace_all(line, var, lowercase(var))
        } else {
            line
        }
    } else {
        line
    }
}

/// The function that rewrites one line for the rename refactoring.
pub open spec fn rename_fn() -> spec_fn(Seq<char>) -> Seq<char> {
    |l: Seq<char>| rename_line(l)
}

/// The rename refactoring of `code`.
pub fn rename_variables(code: &str) -> (r: String)
    ensures
        r@ == map_lines(lines(code@), rename_fn()),
{
    let ls = lines_of(code);
    let mut out: Vec<String> = Vec::new();
    let mut i: usize = 0;
    while i < ls.len()
        invariant
            views(ls@) == lines(code@),
            i <= ls@.len(),
            views(out@) == lines(code@).subrange(0, i as int).map_values(rename_fn()),
        decreases ls.len() - i,
    {
        let line = ls[i].as_str();
        let t = trim_str(line);
        let ts = t.as_str();
        let mut piece = owned(line);
        if starts_with(ts, "let ") {
            match second_word_of(ts) {
                Some(var) => {
                    let v = var.as_str();
                    let up = to_upper(v);
                    if v.len() == 1 || str_eq(v, up.as_str()) {
                        let low = to_lower(v);
                        piece = replace(line, v, low.as_str());
                    }
                },
                None => {},
            }
        }
        assert(lines(code@)[i as int] == ls@[i as int]@);
        assert(piece@ == rename_line(line@));
        let ghost before = views(out@);
        out.push(piece);
        assert(views(out@) =~= before.push(rename_line(line@)));
        assert(views(out@) =~= lines(code@).subrange(0, i + 1).map_values(rename_fn()));
        i = i + 1;
    }
    assert(lines(code@).subrange(0, ls@.len() as int) =~= lines(code@));
    join_strings(&out, "\n")
}

/// One line of the split-loop refactoring, at index `i`.
pub open spec fn split_loop_line(line: Seq<char>, i: int) -> Seq<char> {
    if contains(line, "for "@) && i > 0 {
        "    "@ + trim(line)
    } else {
        line
    }
}

/// The split-loop refactoring: loop lines after the first re-indented.
pub open spec fn split_loop_lines(ls: Seq<Seq<char>>) -> Seq<Seq<char>> {
    Seq::new(ls.len(), |i: int| split_loop_line(ls[i], i))
}

/// The split-loop refactoring of `code`.
pub fn split_loop(code: &str) -> (r: String)
    ensures
        r@ == join(split_loop_lines(lines(code@)), "\n"@),
{
    let ls = lines_of(code);
    let mut out: Vec<String> = Vec::new();
    let mut i: usize = 0;
    while i < ls.len()
        invariant
            views(ls@) == lines(code@),
            i <= ls@.len(),
            views(out@) == split_loop_lines(lines(code@)).subrange(0, i as int),
        decreases ls.len() - i,
    {
        let line = ls[i].as_str();
        let piece = if str_contains(line, "for ") && i > 0 {
            let t = trim_str(line);
            cat("    ", t.as_str())
        } else {
            owned(line)
        };
        assert(lines(code@)[i as int] == ls@[i as int]@);
        assert(piece@ == split_loop_line(line@, i as int));
        let ghost before = views(out@);
        out.push(piece);
        assert(views(out@) =~= before.push(split_loop_line(line@, i as int)));
        assert(views(out@) =~= split_loop_lines(lines(code@)).subrange(0, i + 1));
        i = i + 1;
    }
    assert(split_loop_lines(lines(code@)).subrange(0, ls@.len() as int) =~= split_loop_lines(lines(code@)));
    join_strings(&out, "\n")
}

/// The variable that an `if let` line matches on: the text between its first
/// `(` and the next `)`, or `x`.
pub open spec fn matched_var(t: Seq<char>) -> Seq<char> {
    if split_char(t, '(').len() >= 2 {
        upto_char(split_char(t, '(')[1], ')')
    } else {
        "x"@
    }
}

/// The lines that one line becomes in the use-match refactoring.
pub open spec fn match_lines(line: Seq<char>) -> Seq<Seq<char>> {
    let t = trim(line);
    if contains(t, "if let Some("@) || contains(t, "if let Ok("@) {
        seq!["match "@ + matched_var(t) + " {"@, "    Some(x) => {{ }},"@, "    None => {{ }},"@, "}"@]
    } else {
        seq![line]
    }
}

/// The use-match lines of the first `k` lines.
pub open spec fn match_upto(ls: Seq<Seq<char>>, k: nat) -> Seq<Seq<char>>
    decreases k,
{
    if k == 0 || k > ls.len() {
        seq![]
    } else {
        match_upto(ls, (k - 1) as nat) + match_lines(ls[k - 1])
    }
}

/// The use-match refactoring of `code`: each `if let Some(..)` or
/// `if let Ok(..)` line becomes a `match` skeleton.
pub fn use_match_pattern(code: &str) -> (r: String)
    ensures
        r@ == join(match_upto(lines(code@), lines(code@).len()), "\n"@),
{
    let ls = lines_of(code);
    let mut out: Vec<String> = Vec::new();
    let mut i: usize = 0;
    while i < ls.len()
        invariant
            views(ls@) == lines(code@),
            i <= ls@.len(),
            views(out@) == match_upto(lines(code@), i as nat),
        decreases ls.len() - i,
    {
        let line = ls[i].as_str();
        let t = trim_str(line);
        let ts = t.as_str();
        let ghost before = views(out@);
        if str_contains(ts, "if let Some(") || str_contains(ts, "if let Ok(") {
            let parts = split_on(ts, '(');
            let var = if parts.len() >= 2 {
                before_char(parts[1].as_str(), ')')
            } else {
                owned("x")
            };
            out.push(cat3("match ", var.as_str(), " {"));
            out.push(owned("    Some(x) => {{ }},"));
            out.push(owned("    None => {{ }},"));
            out.push(owned("}"));
            assert(views(out@) =~= before + match_lines(line@));
        } else {
            out.push(owned(line));
            assert(views(out@) =~= before + match_lines(line@));
        }
        i = i + 1;
    }
    join_strings(&out, "\n")
}

/// What a refactoring request comes to.
#[derive(Debug, Clone)]
pub enum RefactorOutcome {
    /// The refactored code.
    Code(String),
    /// The prompt to send to the model, whose answer is the refactored code.
    Ask(String),
}

/// The refactoring named `pattern` of `code`, and whether it is a prompt for
/// the model (an unknown pattern with a key set) rather than the code itself.
pub open spec fn refactoring(configured: bool, code: Seq<char>, pattern: Seq<char>) -> (bool, Seq<char>) {
    if pattern == "extract-method"@ {
        (false, extracted_method(code))
    } else if pattern == "inline"@ {
        (false, map_lines(lines(code), inline_fn()))
    } else if pattern == "rename"@ {
        (false, map_lines(lines(code), rename_fn()))
    } else if pattern == "split-loop"@ {
        (false, join(split_loop_lines(lines(code)), "\n"@))
    } else if pattern == "use-match"@ {
        (false, join(match_upto(lines(code), lines(code).len()), "\n"@))
    } else if configured {
        (true, fenced("Refactor using '"@ + pattern + "':"@, code))
    } else {
        (false, join(kept_upto(lines(code), lines(code).len()), "\n"@))
    }
}

fn refactor_with(configured: bool, code: &str, pattern: &str) -> (r: RefactorOutcome)
    ensures
        match r {
            RefactorOutcome::Code(c) => !refactoring(configured, code@, pattern@).0 && c@ == refactoring(configured, code@, pattern@).1,
            RefactorOutcome::Ask(p) => refactoring(configured, code@, pattern@).0 && p@ == refactoring(configured, code@, pattern@).1,
        },
{
    if str_eq(pattern, "extract-method") {
        RefactorOutcome::Code(extract_method(code))
    } else if str_eq(pattern, "inline") {
        RefactorOutcome::Code(inline_variable(code))
    } else if str_eq(pattern, "rename") {
        RefactorOutcome::Code(rename_variables(code))
    } else if str_eq(pattern, "split-loop") {
        RefactorOutcome::Code(split_loop(code))
    } else if str_eq(pattern, "use-match") {
        RefactorOutcome::Code(use_match_pattern(code))
    } else if configured {
        RefactorOutcome::Ask(pattern_prompt(pattern, code))
    } else {
        RefactorOutcome::Code(mock_refactor(code))
    }
}

} // verus!

verus! {

/// A completion offered at the cursor. The score is held in hundredths (95
/// stands for 0.95).
#[derive(Debug, Clone)]
pub struct Completion {
    pub label: String,
    pub insert_text: String,
    pub detail: String,
    pub score_hundredths: u32,
}

/// The keyword templates, each offered when its keyword occurs near the cursor.
pub open spec fn templates() -> Seq<(Seq<char>, Seq<char>)> {
    seq![
        ("pub fn"@, " pub fn name() {\n    \n}"@),
        ("pub struct"@, " pub struct Name {\n    \n}"@),
        ("impl"@, " impl Type {\n    \n}"@),
        ("async fn"@, " async fn name() {\n    \n}"@),
        ("match"@, " match expr {\n    _ => { }\n}"@),
        ("if let"@, " if let Some(x) = expr {\n    \n}"@),
        ("for"@, " for item in items {\n    \n}"@),
        ("test"@, " #[test]\n fn test_name() {\n    assert_eq!(, );\n}"@),
    ]
}

/// The completions offered when no template applies.
pub open spec fn default_completions() -> Seq<(Seq<char>, Seq<char>)> {
    seq![
        ("true"@, "true"@),
        ("false"@, "false"@),
        ("None"@, "None"@),
        ("Some"@, "Some()"@),
        ("Ok"@, "Ok()"@),
        ("Err"@, "Err()"@),
    ]
}

/// The (keyword, template) pairs of a list.
pub open spec fn pair_views(v: Seq<(String, String)>) -> Seq<(Seq<char>, Seq<char>)> {
    v.map_values(|p: (String, String)| (p.0@, p.1@))
}

fn pairs(a: &str, b: &str, out: &mut Vec<(String, String)>)
    ensures
        pair_views(final(out)@) == pair_views(old(out)@).push((a@, b@)),
{
    let ghost v = pair_views(out@);
    out.push((owned(a), owned(b)));
    assert(pair_views(out@) =~= v.push((a@, b@)));
}

fn template_table() -> (r: Vec<(String, String)>)
    ensures
        pair_views(r@) == templates(),
{
    let mut t: Vec<(String, String)> = Vec::new();
    assert(pair_views(t@) =~= Seq::<(Seq<char>, Seq<char>)>::empty());
    pairs("pub fn", " pub fn name() {\n    \n}", &mut t);
    pairs("pub struct", " pub struct Name {\n    \n}", &mut t);
    pairs("impl", " impl Type {\n    \n}", &mut t);
    pairs("async fn", " async fn name() {\n    \n}", &mut t);
    pairs("match", " match expr {\n    _ => { }\n}", &mut t);
    pairs("if let", " if let Some(x) = expr {\n    \n}", &mut t);
    pairs("for", " for item in items {\n    \n}", &mut t);
    pairs("test", " #[test]\n fn test_name() {\n    assert_eq!(, );\n}", &mut t);
    assert(pair_views(t@) =~= templates());
    t
}

fn default_table() -> (r: Vec<(String, String)>)
    ensures
        pair_views(r@) == default_completions(),
{
    let mut t: Vec<(String, String)> = Vec::new();
    assert(pair_views(t@) =~= Seq::<(Seq<char>, Seq<char>)>::empty());
    pairs("true", "true", &mut t);
    pairs("false", "false", &mut t);
    pairs("None", "None", &mut t);
    pairs("Some", "Some()", &mut t);
    pairs("Ok", "Ok()", &mut t);
    pairs("Err", "Err()", &mut t);
    assert(pair_views(t@) =~= default_completions());
    t
}

/// The (label, text, detail, score) of some completions.
pub open spec fn completion_views(v: Seq<Completion>) -> Seq<(Seq<char>, Seq<char>, Seq<char>, u32)> {
    v.map_values(|c: Completion| (c.label@, c.insert_text@, c.detail@, c.score_hundredths))
}

/// The templates among the first `k` whose keyword, lower-cased, occurs in
/// the lower-cased context `ctx`, as completions with the detail `detail`.
pub open spec fn hits_upto(ctx: Seq<char>, detail: Seq<char>, k: nat) -> Seq<(Seq<char>, Seq<char>, Seq<char>, u32)>
    decreases k,
{
    if k == 0 || k > templates().len() {
        seq![]
    } else {
        hits_upto(ctx, detail, (k - 1) as nat) + (if contains(ctx, lowercase(templates()[k - 1].0)) {
            seq![(templates()[k - 1].0, templates()[k - 1].1, detail, 95u32)]
        } else {
            seq![]
        })
    }
}

/// The completions for the context `ctx` of code in the language `lang`: the
/// matching templates, else the defaults.
pub open spec fn completions_for(ctx: Seq<char>, lang: Seq<char>) -> Seq<(Seq<char>, Seq<char>, Seq<char>, u32)> {
    let hits = hits_upto(lowercase(ctx), lang + " completion"@, templates().len());
    if hits.len() > 0 {
        hits
    } else {
        default_completions().map_values(|p: (Seq<char>, Seq<char>)| (p.0, p.1, "default"@, 80u32))
    }
}

/// The bytes of the text around the cursor: from 200 bytes before it to 50
/// bytes after it, when both ends fall on character boundaries within the
/// text; else nothing.
pub open spec fn context_bytes(b: Seq<u8>, cursor: usize) -> Seq<u8> {
    let start: int = if cursor >= 200 { cursor - 200 } else { 0 };
    let end: int = if cursor + 50 <= usize::MAX { cursor + 50 } else { usize::MAX as int };
    if end <= b.len() && vstd::utf8::is_char_boundary(b, end)
        && vstd::utf8::is_char_boundary(b.subrange(0, end), start) {
        b.subrange(start, end)
    } else {
        seq![]
    }
}

/// The text around byte offset `cursor` of `code`.
pub fn extract_context(code: &str, cursor: usize) -> (r: String)
    ensures
        vstd::utf8::encode_utf8(r@) == context_bytes(code.spec_bytes(), cursor),
{
    let start = cursor.saturating_sub(200);
    let end = cursor.saturating_add(50);
    let n = code.as_bytes().len();
    proof {
        assert(vstd::utf8::encode_utf8(Seq::<char>::empty()) =~= Seq::<u8>::empty());
    }
    if end > n {
        return String::new();
    }
    if !code.is_char_boundary(end) {
        return String::new();
    }
    let (a, _rest) = code.split_at(end);
    if !a.is_char_boundary(start) {
        return String::new();
    }
    let (_pre, m) = a.split_at(start);
    proof {
        assert(a.spec_bytes().subrange(start as int, a.spec_bytes().len() as int) =~= code.spec_bytes().subrange(start as int, end as int));
    }
    m.to_owned()
}

/// Offers completions from keyword templates.
#[derive(Debug, Clone)]
pub struct CodeCompleter {
    pub client: AIClient,
}

impl CodeCompleter {
    /// A completer with the client that the environment chooses.
    pub fn new(env: &ProviderEnv) -> (r: Self)
        ensures
            (r.client.api_key@, r.client.model@, r.client.base_url@) == active_provider(*env),
    {
        CodeCompleter { client: AIClient::new(env) }
    }

    /// The completions at byte offset `cursor` of `code`.
    pub fn complete(&self, code: &str, cursor: usize) -> (r: Vec<Completion>)
        ensures
            exists|ctx: Seq<char>| vstd::utf8::encode_utf8(ctx) == context_bytes(code.spec_bytes(), cursor)
                && completion_views(r@) == completions_for(ctx, language_of(lowercase(code@))),
    {
        completions_at(code, cursor)
    }
}

fn completions_at(code: &str, cursor: usize) -> (r: Vec<Completion>)
    ensures
        exists|ctx: Seq<char>| vstd::utf8::encode_utf8(ctx) == context_bytes(code.spec_bytes(), cursor)
            && completion_views(r@) == completions_for(ctx, language_of(lowercase(code@))),
{
    let ctx = extract_context(code, cursor);
    let lang = detect_language(code);
    let ctx_lower = to_lower(ctx.as_str());
    let detail = cat(lang.as_str(), " completion");
    let table = template_table();
    let mut out: Vec<Completion> = Vec::new();
    let mut i: usize = 0;
    while i < table.len()
        invariant
            pair_views(table@) == templates(),
            i <= table@.len(),
            completion_views(out@) == hits_upto(ctx_lower@, detail@, i as nat),
        decreases table.len() - i,
    {
        let kw = to_lower(table[i].0.as_str());
        let ghost before = completion_views(out@);
        if str_contains(ctx_lower.as_str(), kw.as_str()) {
            out.push(Completion {
                label: owned(table[i].0.as_str()),
                insert_text: owned(table[i].1.as_str()),
                detail: owned(detail.as_str()),
                score_hundredths: 95,
            });
            assert(completion_views(out@) =~= before.push((table@[i as int].0@, table@[i as int].1@, detail@, 95u32)));
        }
        assert(templates()[i as int] == (table@[i as int].0@, table@[i as int].1@));
        i = i + 1;
    }
    if out.len() == 0 {
        let d = default_table();
        let mut j: usize = 0;
        while j < d.len()
            invariant
                pair_views(d@) == default_completions(),
                j <= d@.len(),
                completion_views(out@) == default_completions().subrange(0, j as int).map_values(
                    |p: (Seq<char>, Seq<char>)| (p.0, p.1, "default"@, 80u32),
                ),
            decreases d.len() - j,
        {
            let ghost before = completion_views(out@);
            out.push(Completion {
                label: owned(d[j].0.as_str()),
                insert_text: owned(d[j].1.as_str()),
                detail: owned("default"),
                score_hundredths: 80,
            });
            assert(completion_views(out@) =~= before.push((d@[j as int].0@, d@[j as int].1@, "default"@, 80u32)));
            assert(default_completions().subrange(0, j + 1).map_values(|p: (Seq<char>, Seq<char>)| (p.0, p.1, "default"@, 80u32))
                =~= default_completions().subrange(0, j as int).map_values(|p: (Seq<char>, Seq<char>)| (p.0, p.1, "default"@, 80u32)).push(
                (d@[j as int].0@, d@[j as int].1@, "default"@, 80u32),
            ));
            j = j + 1;
        }
        assert(default_completions().subrange(0, d@.len() as int) =~= default_completions());
    }
    out
}

/// Applies named refactorings to code.
#[derive(Debug, Clone)]
pub struct CodeRefactorer {
    pub client: AIClient,
}

impl CodeRefactorer {
    /// A refactorer with the client that the environment chooses.
    pub fn new(env: &ProviderEnv) -> (r: Self)
        ensures
            (r.client.api_key@, r.client.model@, r.client.base_url@) == active_provider(*env),
    {
        CodeRefactorer { client: AIClient::new(env) }
    }

    /// The refactoring named `pattern` of `code`; an unknown pattern goes to
    /// the model when a key is set, else only comment lines are dropped.
    pub fn apply_pattern(&self, code: &str, pattern: &str) -> (r: RefactorOutcome)
        ensures
            match r {
                RefactorOutcome::Code(c) => !refactoring(self.client.api_key@.len() > 0, code@, pattern@).0
                    && c@ == refactoring(self.client.api_key@.len() > 0, code@, pattern@).1,
                RefactorOutcome::Ask(p) => refactoring(self.client.api_key@.len() > 0, code@, pattern@).0
                    && p@ == refactoring(self.client.api_key@.len() > 0, code@, pattern@).1,
            },
    {
        refactor_with(self.client.is_configured(), code, pattern)
    }
}

} // verus!

verus! {

/// The text at `candidates[0].content.parts[0].text` of a Gemini reply body
/// read as JSON by `serde_json::from_str` (a body that is not JSON reads as
/// `null`), if it is a string.
pub uninterp spec fn gemini_text(body: Seq<char>) -> Option<Seq<char>>;

/// The `promptTokenCount`, `candidatesTokenCount` and `totalTokenCount` of
/// the `usageMetadata` of a Gemini reply body read as JSON, each if it is an
/// unsigned integer; none when there is no `usageMetadata`.
pub uninterp spec fn gemini_counts(body: Seq<char>) -> Option<(Option<u64>, Option<u64>, Option<u64>)>;

/// The `response` text, `prompt_eval_count` and `eval_count` of an Ollama
/// reply body read as JSON by `serde_json::from_str`; none when the body is
/// not JSON.
pub uninterp spec fn ollama_fields(body: Seq<char>) -> Option<(Option<Seq<char>>, Option<u64>, Option<u64>)>;

/// The fields of an OpenAI-style reply body read as JSON by
/// `serde_json::from_str`, as `openai_fields_view` gives them: none when the
/// body is not JSON.
pub uninterp spec fn openai_fields(body: Seq<char>) -> Option<(Option<Seq<(Option<Seq<char>>, Option<Seq<char>>)>>, Option<Option<(Option<u64>, Option<u64>, Option<u64>)>>)>;

/// Reads a Gemini reply body with `serde_json::from_str`; claimed: the body is
/// kept, and the text and counts are those named `gemini_text` and
/// `gemini_counts`.
#[verifier::external_body]
fn parse_gemini(body: String) -> (r: GeminiResponse)
    ensures
        r.body@ == body@,
        opt_string_view(r.text) == gemini_text(body@),
        r.usage == gemini_counts(body@),
{
    let v: serde_json::Value = serde_json::from_str(&body).unwrap_or_default();
    let text = v["candidates"][0]["content"]["parts"][0]["text"].as_str().map(|s| s.to_string());
    let usage = v.get("usageMetadata").map(|m| {
        (m["promptTokenCount"].as_u64(), m["candidatesTokenCount"].as_u64(), m["totalTokenCount"].as_u64())
    });
    GeminiResponse { body, text, usage }
}

/// Reads an Ollama reply body with `serde_json::from_str`; claimed: the
/// fields named `ollama_fields`.
#[verifier::external_body]
fn parse_ollama(body: &str) -> (r: Option<OllamaResponse>)
    ensures
        match ollama_fields(body@) {
            Some((t, p, e)) => r matches Some(o) && opt_string_view(o.response) == t && o.prompt_eval_count == p
                && o.eval_count == e,
            None => r is None,
        },
{
    serde_json::from_str::<serde_json::Value>(body).ok().map(|v| OllamaResponse {
        response: v["response"].as_str().map(|s| s.to_string()),
        prompt_eval_count: v["prompt_eval_count"].as_u64(),
        eval_count: v["eval_count"].as_u64(),
    })
}

/// Reads an OpenAI-style reply body with `serde_json::from_str` into a
/// `serde_json::Value`; claimed: none when that fails, else its fields as
/// named by `openai_fields`: `choices` when it is an array, each element's
/// `message.role` and `message.content` when they are strings; `usage` absent
/// when missing or `null`, else its three counts (when it is an object) each
/// when it is an unsigned integer. A body that is a JSON array rather than an
/// object has no fields here.
#[verifier::external_body]
fn parse_openai(body: &str) -> (r: Option<OpenAIFields>)
    ensures
        match r {
            Some(f) => openai_fields(body@) == Some(openai_fields_view(f)),
            None => openai_fields(body@) is None,
        },
{
    let v: serde_json::Value = serde_json::from_str(body).ok()?;
    let text = |x: &serde_json::Value| x.as_str().map(|s| s.to_string());
    let choices = v["choices"].as_array().map(|a| a.iter().map(|c| (text(&c["message"]["role"]), text(&c["message"]["content"]))).collect());
    let usage = match &v["usage"] {
        serde_json::Value::Null => None,
        u => Some(u.as_object().map(|_| (u["prompt_tokens"].as_u64(), u["completion_tokens"].as_u64(), u["total_tokens"].as_u64()))),
    };
    Some(OpenAIFields { choices, usage })
}

/// The result of a Gemini request from the reply body (or the request's
/// error): its text and usage, read as `gemini_text` and `gemini_counts`.
pub fn gemini_answer(reply: Result<String, String>) -> (r: Result<(String, TokenUsage), String>)
    ensures
        match reply {
            Err(e) => r matches Err(m) && m@ == "ERROR: Gemini request failed: "@ + e@,
            Ok(b) => match gemini_text(b@) {
                Some(t) => r matches Ok((text, u)) && text@ == t && u == gemini_usage(gemini_counts(b@)),
                None => r matches Err(m) && m@ == "ERROR: Failed to parse Gemini response. Raw: "@ + b@,
            },
        },
{
    match reply {
        Err(e) => gemini_reply(Err(e)),
        Ok(b) => gemini_reply(Ok(parse_gemini(b))),
    }
}

/// The result of an Ollama request from the reply body (or the request's
/// error), read as `ollama_fields`; `None` when its two counts add up to more
/// than a `u64` holds.
pub fn ollama_answer(reply: Result<String, String>) -> (r: Option<Result<(String, TokenUsage), String>>)
    ensures
        match reply {
            Err(_) => r matches Some(Err(m)) && m@ == "ERROR: Ollama connection failed"@,
            Ok(b) => match ollama_fields(b@) {
                None => r matches Some(Err(m)) && m@ == "ERROR: Failed to parse Ollama response"@,
                Some((t, p, e)) => if count_sum(p, e) > u64::MAX {
                    r is None
                } else {
                    r matches Some(Ok((text, u))) && text@ == (match t { Some(x) => x, None => Seq::<char>::empty() })
                        && u.prompt_tokens == count_or_zero(p) && u.completion_tokens == count_or_zero(e)
                        && u.total_tokens == (count_sum(p, e) as u64) as usize
                },
            },
        },
{
    match reply {
        Err(e) => Some(ollama_reply(Err(e))),
        Ok(b) => {
            let parsed = parse_ollama(b.as_str());
            match parsed {
                None => Some(ollama_reply(Ok(None))),
                Some(o) => {
                    let p: u64 = match o.prompt_eval_count { Some(n) => n, None => 0 };
                    let e: u64 = match o.eval_count { Some(n) => n, None => 0 };
                    if p > u64::MAX - e {
                        None
                    } else {
                        Some(ollama_reply(Ok(Some(o))))
                    }
                },
            }
        },
    }
}

/// The result of an OpenAI-style request from the reply body (`None` when
/// the request failed), read as `openai_fields`.
pub fn openai_answer(reply: Option<String>) -> (r: Result<(String, TokenUsage), String>)
    ensures
        match reply {
            None => r matches Err(e) && e@ == request_failed(),
            Some(b) => is_outcome(r, openai_outcome(openai_fields(b@))),
        },
{
    match reply {
        None => openai_reply(None),
        Some(b) => openai_reply(Some(parse_openai(b.as_str()))),
    }
}

} // verus!
