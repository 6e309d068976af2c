//! Terminal chat: the conversation history, the learned command patterns,
//! the prompts sent to the model, task chains, and the chat prompt's
//! commands.

use vstd::prelude::*;
use crate::text::{cat, cat3, dec, debug_list, debug_strings, is_prefix, join, join_strings, owned, push_str,
    starts_with, str_eq, trim, trim_str, u64_to_string, views};

verus! {

/// Messages and patterns kept at most.
pub const MAX_HISTORY: usize = 100;

/// A message of the conversation.
#[derive(Debug, Clone)]
pub struct ChatMessage {
    pub role: String,
    pub content: String,
    pub timestamp: u64,
    pub context_files: Vec<String>,
}

/// A command the user keeps using.
#[derive(Debug, Clone)]
pub struct UserPattern {
    pub command: String,
    pub frequency: u32,
    pub last_used: u64,
    pub project: Option<String>,
}

/// A task broken into steps, run one after another.
#[derive(Debug, Clone)]
pub struct TaskChain {
    pub steps: Vec<TaskStep>,
    pub current_step: usize,
    pub results: Vec<String>,
}

/// A step of a task chain.
#[derive(Debug, Clone)]
pub struct TaskStep {
    pub description: String,
    pub command: String,
    pub status: StepStatus,
    pub output: Option<String>,
}

/// Where a step stands.
#[derive(Debug, Clone, Copy, PartialEq, Eq, Structural)]
pub enum StepStatus {
    Pending,
    Running,
    Completed,
    Failed,
}

/// The chat session: what the project holds, the task under way, and
/// whether the next line is to be translated into a command.
pub struct AIChat {
    pub project_context: Vec<String>,
    pub current_task: Option<TaskChain>,
    pub translate_mode: bool,
}

impl AIChat {
    /// A session over a project whose file types are `project_context`.
    pub fn new(project_context: Vec<String>) -> (r: Self)
        ensures
            r.project_context == project_context,
            r.current_task is None,
            !r.translate_mode,
    {
        AIChat { project_context, current_task: None, translate_mode: false }
    }
}

/// `m` is a message of `role` with `content` at `ts`, with no context files.
pub open spec fn plain_message(m: ChatMessage, role: Seq<char>, content: Seq<char>, ts: u64) -> bool {
    m.role@ == role && m.content@ == content && m.timestamp == ts && m.context_files@.len() == 0
}

fn message(role: &str, content: &str, ts: u64) -> (m: ChatMessage)
    ensures
        plain_message(m, role@, content@, ts),
{
    ChatMessage { role: owned(role), content: owned(content), timestamp: ts, context_files: Vec::new() }
}

/// `a` and `b` hold the same message.
pub open spec fn same_message(a: ChatMessage, b: ChatMessage) -> bool {
    a.role@ == b.role@ && a.content@ == b.content@ && a.timestamp == b.timestamp
        && views(a.context_files@) == views(b.context_files@)
}

fn copy_strings(v: &Vec<String>) -> (r: Vec<String>)
    ensures
        views(r@) == views(v@),
{
    let mut out: Vec<String> = Vec::new();
    let mut i: usize = 0;
    while i < v.len()
        invariant
            i <= v@.len(),
            out@.len() == i,
            forall|k: int| 0 <= k < i ==> out@[k]@ == v@[k]@,
        decreases v.len() - i,
    {
        out.push(owned(v[i].as_str()));
        i = i + 1;
    }
    assert(views(out@) =~= views(v@));
    out
}

fn copy_message(m: &ChatMessage) -> (r: ChatMessage)
    ensures
        same_message(r, *m),
{
    ChatMessage {
        role: owned(m.role.as_str()),
        content: owned(m.content.as_str()),
        timestamp: m.timestamp,
        context_files: copy_strings(&m.context_files),
    }
}

/// The opening of the system prompt.
pub open spec fn system_intro() -> Seq<char> {
    "You are DevUtils AI - an advanced AI coding assistant integrated into a developer CLI tool. \n\nCapabilities:\n- Write, explain, debug, and refactor code\n- Execute shell commands safely\n- Search and analyze codebases\n- Run tests and builds\n- Work with Git\n\nBe concise, helpful, and think step-by-step for complex tasks.\n"@
}

/// The line of a learned pattern in the system prompt.
pub open spec fn pattern_line(p: UserPattern) -> Seq<char> {
    "- "@ + p.command@ + " (used "@ + dec(p.frequency as nat) + " times)\n"@
}

/// The lines of the patterns, in order.
pub open spec fn pattern_lines(ps: Seq<UserPattern>) -> Seq<char>
    decreases ps.len(),
{
    if ps.len() == 0 { seq![] } else { pattern_lines(ps.drop_last()) + pattern_line(ps.last()) }
}

/// The first `n` patterns (all of them when there are fewer).
pub open spec fn first_patterns(ps: Seq<UserPattern>, n: nat) -> Seq<UserPattern> {
    if ps.len() <= n { ps } else { ps.subrange(0, n as int) }
}

/// The system prompt: the introduction, the first five learned patterns,
/// and the file types of the project.
pub open spec fn system_prompt(patterns: Seq<UserPattern>, context: Seq<Seq<char>>) -> Seq<char> {
    let top = first_patterns(patterns, 5);
    let with_patterns = if top.len() > 0 {
        system_intro() + "\n\nUser patterns I'm learning:\n"@ + pattern_lines(top)
    } else {
        system_intro()
    };
    if context.len() > 0 {
        with_patterns + "\nProject file types: "@ + debug_strings(context) + "\n"@
    } else {
        with_patterns
    }
}

/// The system prompt for a session with these patterns.
pub fn build_system_prompt(chat: &AIChat, patterns: &Vec<UserPattern>) -> (r: String)
    ensures
        r@ == system_prompt(patterns@, views(chat.project_context@)),
{
    let mut prompt = owned("You are DevUtils AI - an advanced AI coding assistant integrated into a developer CLI tool. \n\nCapabilities:\n- Write, explain, debug, and refactor code\n- Execute shell commands safely\n- Search and analyze codebases\n- Run tests and builds\n- Work with Git\n\nBe concise, helpful, and think step-by-step for complex tasks.\n");
    let n: usize = if patterns.len() <= 5 { patterns.len() } else { 5 };
    let ghost top = first_patterns(patterns@, 5);
    assert(top =~= patterns@.subrange(0, n as int));
    if n > 0 {
        push_str(&mut prompt, "\n\nUser patterns I'm learning:\n");
        let ghost base = prompt@;
        let mut i: usize = 0;
        while i < n
            invariant
                n <= patterns@.len(),
                i <= n,
                prompt@ == base + pattern_lines(patterns@.subrange(0, i as int)),
            decreases n - i,
        {
            assert(patterns@.subrange(0, i + 1).drop_last() =~= patterns@.subrange(0, i as int));
            let p = &patterns[i];
            push_str(&mut prompt, "- ");
            push_str(&mut prompt, p.command.as_str());
            push_str(&mut prompt, " (used ");
            push_str(&mut prompt, u64_to_string(p.frequency as u64).as_str());
            push_str(&mut prompt, " times)\n");
            i = i + 1;
        }
    }
    if chat.project_context.len() > 0 {
        push_str(&mut prompt, "\nProject file types: ");
        push_str(&mut prompt, debug_list(&chat.project_context).as_str());
        push_str(&mut prompt, "\n");
    }
    prompt
}

/// The last `n` messages of the history (all of them when there are fewer).
pub open spec fn last_messages(h: Seq<ChatMessage>, n: nat) -> Seq<ChatMessage> {
    if h.len() <= n { h } else { h.subrange(h.len() - n, h.len() as int) }
}

/// The messages sent for one turn: the system prompt, the last ten
/// messages of the history, and the user's input.
pub fn chat_messages(chat: &AIChat, history: &Vec<ChatMessage>, patterns: &Vec<UserPattern>, input: &str, now: u64) -> (r: Vec<ChatMessage>)
    ensures
        r@.len() == last_messages(history@, 10).len() + 2,
        r@[0].role@ == "system"@ && r@[0].content@ == system_prompt(patterns@, views(chat.project_context@))
            && r@[0].timestamp == 0 && views(r@[0].context_files@) == views(chat.project_context@),
        forall|k: int| 0 <= k < last_messages(history@, 10).len() ==> same_message(r@[k + 1], last_messages(history@, 10)[k]),
        plain_message(r@.last(), "user"@, input@, now),
{
    let n = history.len();
    let start: usize = if n <= 10 { 0 } else { n - 10 };
    let ghost last = last_messages(history@, 10);
    assert(last =~= history@.subrange(start as int, n as int));
    let mut out: Vec<ChatMessage> = Vec::new();
    out.push(ChatMessage {
        role: owned("system"),
        content: build_system_prompt(chat, patterns),
        timestamp: 0,
        context_files: copy_strings(&chat.project_context),
    });
    let mut i: usize = start;
    while i < n
        invariant
            n == history@.len(),
            start <= i <= n,
            last == history@.subrange(start as int, n as int),
            out@.len() == i - start + 1,
            out@[0].role@ == "system"@ && out@[0].content@ == system_prompt(patterns@, views(chat.project_context@))
                && out@[0].timestamp == 0 && views(out@[0].context_files@) == views(chat.project_context@),
            forall|k: int| 0 <= k < i - start ==> same_message(out@[k + 1], last[k]),
        decreases n - i,
    {
        out.push(copy_message(&history[i]));
        i = i + 1;
    }
    out.push(message("user", input, now));
    out
}

/// Records one turn: the user's input, then the model's reply.
pub fn record_exchange(history: &mut Vec<ChatMessage>, input: &str, response: &str, now: u64)
    ensures
        final(history)@.len() == old(history)@.len() + 2,
        final(history)@.subrange(0, old(history)@.len() as int) == old(history)@,
        plain_message(final(history)@[old(history)@.len() as int], "user"@, input@, now),
        plain_message(final(history)@[old(history)@.len() as int + 1], "assistant"@, response@, now),
{
    history.push(message("user", input, now));
    history.push(message("assistant", response, now));
    assert(history@.subrange(0, old(history)@.len() as int) =~= old(history)@);
}

/// The prompt that turns a request into shell commands.
pub fn translate_prompt(natural_language: &str) -> (r: String)
    ensures
        r@ == "Translate this natural language request into a shell command or series of shell commands.\nReturn ONLY the command(s) to execute, no explanation. For multiple commands, use && to chain.\nIf the request is ambiguous or impossible, return exactly: \"IMPOSSIBLE: <reason>\"\n\nRequest: "@ + natural_language@,
{
    cat("Translate this natural language request into a shell command or series of shell commands.\nReturn ONLY the command(s) to execute, no explanation. For multiple commands, use && to chain.\nIf the request is ambiguous or impossible, return exactly: \"IMPOSSIBLE: <reason>\"\n\nRequest: ", natural_language)
}

/// The prompt that breaks a task into steps.
pub fn task_chain_prompt(task: &str) -> (r: String)
    ensures
        r@ == "Break down the following task into executable steps. Return a JSON array of steps.\nEach step should have: description (what to do) and command (shell command to run).\n\nTask: "@ + task@ + "\n\nRespond with JSON like: [{\"description\": \"step 1\", \"command\": \"echo test\"}, ...]"@,
{
    cat3("Break down the following task into executable steps. Return a JSON array of steps.\nEach step should have: description (what to do) and command (shell command to run).\n\nTask: ", task, "\n\nRespond with JSON like: [{\"description\": \"step 1\", \"command\": \"echo test\"}, ...]")
}

/// The prompt that asks about the codebase.
pub fn codebase_prompt(context: &str, question: &str) -> (r: String)
    ensures
        r@ == "Based on this codebase context:\n\n"@ + context@ + "\n\nAnswer: "@ + question@,
{
    let mut r = cat3("Based on this codebase context:\n\n", context, "\n\nAnswer: ");
    push_str(&mut r, question);
    r
}

/// The single step used when the model's plan cannot be read: echo the task.
pub fn fallback_steps(task: &str) -> (r: Vec<TaskStep>)
    ensures
        r@.len() == 1,
        r@[0].description@ == task@,
        r@[0].command@ == "echo "@ + task@,
        r@[0].status == StepStatus::Pending,
        r@[0].output is None,
{
    let mut v: Vec<TaskStep> = Vec::new();
    v.push(TaskStep { description: owned(task), command: cat("echo ", task), status: StepStatus::Pending, output: None });
    v
}

/// Starts a task chain over `steps`.
pub fn start_task_chain(chat: &mut AIChat, steps: Vec<TaskStep>)
    ensures
        final(chat).project_context == old(chat).project_context,
        final(chat).translate_mode == old(chat).translate_mode,
        final(chat).current_task matches Some(t) && t.steps == steps && t.current_step == 0 && t.results@.len() == 0,
{
    chat.current_task = Some(TaskChain { steps, current_step: 0, results: Vec::new() });
}

/// The command of the next step of the task chain, if there is a step left.
pub fn next_step_command(chat: &AIChat) -> (r: Option<String>)
    ensures
        match chat.current_task {
            Some(t) => if t.current_step < t.steps@.len() {
                r matches Some(c) && c@ == t.steps@[t.current_step as int].command@
            } else {
                r is None
            },
            None => r is None,
        },
{
    match &chat.current_task {
        Some(t) => {
            if t.current_step < t.steps.len() {
                Some(owned(t.steps[t.current_step].command.as_str()))
            } else {
                None
            }
        },
        None => None,
    }
}

/// Records what the current step's command gave: its output, its status,
/// and the move to the next step. A failed step gives the message that
/// stops the chain.
pub fn record_step_outcome(chat: &mut AIChat, success: bool, stdout: &str) -> (r: Option<String>)
    requires
        old(chat).current_task matches Some(t) && t.current_step < t.steps@.len(),
    ensures
        final(chat).project_context == old(chat).project_context,
        final(chat).translate_mode == old(chat).translate_mode,
        ({
            let t = old(chat).current_task->0;
            let i = t.current_step as int;
            &&& final(chat).current_task matches Some(u)
            &&& u.current_step == t.current_step + 1
            &&& u.steps@.len() == t.steps@.len()
            &&& forall|k: int| 0 <= k < t.steps@.len() && k != i ==> u.steps@[k] == t.steps@[k]
            &&& u.steps@[i].description == t.steps@[i].description
            &&& u.steps@[i].command == t.steps@[i].command
            &&& u.steps@[i].status == (if success { StepStatus::Completed } else { StepStatus::Failed })
            &&& (u.steps@[i].output matches Some(o) && o@ == stdout@)
            &&& u.results@.drop_last() == t.results@ && u.results@.len() == t.results@.len() + 1
            &&& u.results@.last()@ == stdout@
            &&& if success {
                r is None
            } else {
                r matches Some(m) && m@ == "Step "@ + dec((i + 1) as nat) + " failed: "@ + t.steps@[i].description@
                    + "\nStopping task chain."@
            }
        }),
{
    let mut task = match chat.current_task.take() {
        Some(t) => t,
        None => {
            return None;
        },
    };
    assert(task == old(chat).current_task->0);
    let i = task.current_step;
    let n = task.steps.len();
    assert(i < n);
    let ghost before = task;
    let mut step = task.steps.remove(i);
    step.status = if success { StepStatus::Completed } else { StepStatus::Failed };
    step.output = Some(owned(stdout));
    let description = owned(step.description.as_str());
    task.steps.insert(i, step);
    assert forall|k: int| 0 <= k < before.steps@.len() && k != i implies task.steps@[k] == before.steps@[k] by {
        if k < i {
            assert(task.steps@[k] == before.steps@[k]);
        } else {
            assert(task.steps@[k] == before.steps@[k]);
        }
    }
    let ghost results_before = task.results@;
    task.results.push(owned(stdout));
    assert(task.results@.drop_last() =~= results_before);
    task.current_step = i + 1;
    chat.current_task = Some(task);
    if success {
        None
    } else {
        let mut m = cat3("Step ", u64_to_string((i + 1) as u64).as_str(), " failed: ");
        push_str(&mut m, description.as_str());
        push_str(&mut m, "\nStopping task chain.");
        Some(m)
    }
}

/// The message that ends a task chain whose steps all ran: the outputs,
/// separated by rules.
pub fn chain_summary(chat: &AIChat) -> (r: String)
    ensures
        r@ == match chat.current_task {
            Some(t) => "Task chain completed!\n\n"@ + join(views(t.results@), "\n---\n"@),
            None => "No active task chain"@,
        },
{
    match &chat.current_task {
        Some(t) => {
            let s = join_strings(&t.results, "\n---\n");
            cat("Task chain completed!\n\n", s.as_str())
        },
        None => owned("No active task chain"),
    }
}

/// The position of the pattern for `command`.
pub open spec fn pattern_index(ps: Seq<UserPattern>, command: Seq<char>) -> Option<int>
    decreases ps.len(),
{
    if ps.len() == 0 {
        None
    } else {
        match pattern_index(ps.drop_last(), command) {
            Some(i) => Some(i),
            None => if ps.last().command@ == command { Some(ps.len() - 1) } else { None },
        }
    }
}

proof fn lemma_pattern_index(s: Seq<UserPattern>, c: Seq<char>)
    ensures
        match pattern_index(s, c) {
            Some(i) => 0 <= i < s.len() && s[i].command@ == c && forall|k: int| 0 <= k < i ==> s[k].command@ != c,
            None => forall|k: int| 0 <= k < s.len() ==> s[k].command@ != c,
        },
    decreases s.len(),
{
    if s.len() > 0 {
        lemma_pattern_index(s.drop_last(), c);
        assert forall|k: int| 0 <= k < s.len() - 1 implies s.drop_last()[k] == s[k] by {}
    }
}

/// Records one use of `command` at `now`: one more use of its pattern, or a
/// new pattern for it (in project `project`); beyond a hundred patterns the
/// oldest goes.
pub fn record_pattern(patterns: &mut Vec<UserPattern>, command: &str, now: u64, project: Option<String>)
    requires
        forall|k: int| 0 <= k < old(patterns)@.len() ==> old(patterns)@[k].frequency < u32::MAX,
    ensures
        match pattern_index(old(patterns)@, command@) {
            Some(i) => final(patterns)@ == old(patterns)@.update(i, UserPattern {
                frequency: (old(patterns)@[i].frequency + 1) as u32,
                last_used: now,
                ..old(patterns)@[i]
            }),
            None => {
                let grown_len = old(patterns)@.len() + 1;
                let drop: int = if grown_len > MAX_HISTORY { 1 } else { 0 };
                &&& final(patterns)@.len() == grown_len - drop
                &&& forall|k: int| 0 <= k < old(patterns)@.len() - drop ==> final(patterns)@[k] == old(patterns)@[k + drop]
                &&& final(patterns)@.last().command@ == command@
                &&& final(patterns)@.last().frequency == 1
                &&& final(patterns)@.last().last_used == now
                &&& final(patterns)@.last().project == project
            },
        },
{
    proof { lemma_pattern_index(patterns@, command@); }
    let mut i: usize = 0;
    while i < patterns.len()
        invariant
            patterns@ == old(patterns)@,
            i <= patterns@.len(),
            forall|k: int| 0 <= k < i ==> patterns@[k].command@ != command@,
            match pattern_index(old(patterns)@, command@) {
                Some(j) => 0 <= j < old(patterns)@.len() && old(patterns)@[j].command@ == command@
                    && forall|k: int| 0 <= k < j ==> old(patterns)@[k].command@ != command@,
                None => forall|k: int| 0 <= k < old(patterns)@.len() ==> old(patterns)@[k].command@ != command@,
            },
            forall|k: int| 0 <= k < old(patterns)@.len() ==> old(patterns)@[k].frequency < u32::MAX,
        decreases patterns.len() - i,
    {
        if str_eq(patterns[i].command.as_str(), command) {
            let ghost before = patterns@;
            let mut p = patterns.remove(i);
            p.frequency = p.frequency + 1;
            p.last_used = now;
            patterns.insert(i, p);
            assert(patterns@ =~= before.update(i as int, UserPattern {
                frequency: (before[i as int].frequency + 1) as u32,
                last_used: now,
                ..before[i as int]
            }));
            return;
        }
        i = i + 1;
    }
    let ghost before = patterns@;
    patterns.push(UserPattern { command: owned(command), frequency: 1, last_used: now, project });
    if patterns.len() > MAX_HISTORY {
        patterns.remove(0);
    }
}

/// The commands used more than twice, the first five of them.
pub open spec fn suggestions(ps: Seq<UserPattern>) -> Seq<Seq<char>>
    decreases ps.len(),
{
    if ps.len() == 0 {
        seq![]
    } else {
        let rest = suggestions(ps.drop_last());
        if rest.len() < 5 && ps.last().frequency > 2 { rest.push(ps.last().command@) } else { rest }
    }
}

/// The learned suggestions: the first five commands used more than twice.
pub fn get_suggestions(patterns: &Vec<UserPattern>) -> (r: Vec<String>)
    ensures
        views(r@) == suggestions(patterns@),
{
    let mut out: Vec<String> = Vec::new();
    let mut i: usize = 0;
    while i < patterns.len()
        invariant
            i <= patterns@.len(),
            views(out@) == suggestions(patterns@.subrange(0, i as int)),
        decreases patterns.len() - i,
    {
        assert(patterns@.subrange(0, i + 1).drop_last() =~= patterns@.subrange(0, i as int));
        let ghost before = out@;
        if out.len() < 5 && patterns[i].frequency > 2 {
            out.push(owned(patterns[i].command.as_str()));
            assert(views(out@) =~= views(before).push(patterns@[i as int].command@));
        }
        i = i + 1;
    }
    assert(patterns@.subrange(0, patterns@.len() as int) =~= patterns@);
    out
}

/// What a line typed at the chat prompt asks for.
#[derive(Debug, Clone)]
pub enum ChatAction {
    /// An empty line: nothing.
    Nothing,
    /// Leave the chat.
    Quit,
    /// Show the commands.
    Help,
    /// Take the next line as a request for a command.
    EnterTranslate,
    /// Show the learned suggestions.
    Suggest,
    /// Clear the history.
    Clear,
    /// Turn this request into a command.
    Translate { request: String },
    /// Run the given task as a chain of steps.
    Task { task: String },
    /// Ask this about the codebase.
    Search { question: String },
    /// Send this to the model.
    Chat { text: String },
}

/// What a line typed at the chat prompt asks for, the session being in
/// translate mode or not; the line is trimmed first. The keywords win over
/// translate mode; translate mode wins over `task ` and `search `.
pub open spec fn chat_action_spec(translate_mode: bool, line: Seq<char>) -> (Seq<char>, Seq<char>) {
    let t = trim(line);
    if t.len() == 0 {
        ("nothing"@, seq![])
    } else if t == "quit"@ || t == "exit"@ || t == "q"@ {
        ("quit"@, seq![])
    } else if t == "help"@ || t == "?"@ {
        ("help"@, seq![])
    } else if t == "translate"@ {
        ("enter-translate"@, seq![])
    } else if t == "suggest"@ {
        ("suggest"@, seq![])
    } else if t == "clear"@ {
        ("clear"@, seq![])
    } else if translate_mode {
        ("translate"@, t)
    } else if is_prefix("task "@, t) {
        ("task"@, t.subrange(5, t.len() as int))
    } else if is_prefix("search "@, t) {
        ("search"@, t.subrange(7, t.len() as int))
    } else {
        ("chat"@, t)
    }
}

/// The kind and the text of an action.
pub open spec fn action_view(a: ChatAction) -> (Seq<char>, Seq<char>) {
    match a {
        ChatAction::Nothing => ("nothing"@, seq![]),
        ChatAction::Quit => ("quit"@, seq![]),
        ChatAction::Help => ("help"@, seq![]),
        ChatAction::EnterTranslate => ("enter-translate"@, seq![]),
        ChatAction::Suggest => ("suggest"@, seq![]),
        ChatAction::Clear => ("clear"@, seq![]),
        ChatAction::Translate { request } => ("translate"@, request@),
        ChatAction::Task { task } => ("task"@, task@),
        ChatAction::Search { question } => ("search"@, question@),
        ChatAction::Chat { text } => ("chat"@, text@),
    }
}

/// Reads a line typed at the chat prompt; a translation request ends
/// translate mode.
pub fn chat_action(chat: &mut AIChat, line: &str) -> (r: ChatAction)
    ensures
        action_view(r) == chat_action_spec(old(chat).translate_mode, line@),
        final(chat).project_context == old(chat).project_context,
        final(chat).current_task == old(chat).current_task,
        final(chat).translate_mode == (match r {
            ChatAction::EnterTranslate => true,
            ChatAction::Translate { .. } => false,
            _ => old(chat).translate_mode,
        }),
{
    proof {
        reveal_strlit("nothing");
        reveal_strlit("quit");
        reveal_strlit("help");
        reveal_strlit("enter-translate");
        reveal_strlit("suggest");
        reveal_strlit("clear");
        reveal_strlit("translate");
        reveal_strlit("task");
        reveal_strlit("search");
        reveal_strlit("chat");
        reveal_strlit("task ");
        reveal_strlit("search ");
    }
    let t = trim_str(line);
    let s = t.as_str();
    if s.is_empty() {
        return ChatAction::Nothing;
    }
    if str_eq(s, "quit") || str_eq(s, "exit") || str_eq(s, "q") {
        return ChatAction::Quit;
    }
    if str_eq(s, "help") || str_eq(s, "?") {
        return ChatAction::Help;
    }
    if str_eq(s, "translate") {
        chat.translate_mode = true;
        return ChatAction::EnterTranslate;
    }
    if str_eq(s, "suggest") {
        return ChatAction::Suggest;
    }
    if str_eq(s, "clear") {
        return ChatAction::Clear;
    }
    if chat.translate_mode {
        chat.translate_mode = false;
        return ChatAction::Translate { request: owned(s) };
    }
    if starts_with(s, "task ") {
        return ChatAction::Task { task: crate::text::string_of_range(&crate::text::chars_of(s), 5, crate::text::chars_of(s).len()) };
    }
    if starts_with(s, "search ") {
        return ChatAction::Search { question: crate::text::string_of_range(&crate::text::chars_of(s), 7, crate::text::chars_of(s).len()) };
    }
    ChatAction::Chat { text: owned(s) }
}

/// The help text of the chat prompt.
pub open spec fn chat_help() -> Seq<char> {
    "Commands:\n  translate <nl> - Convert natural language to shell command\n  task <desc>  - Execute multi-step task\n  search <q>  - Ask about codebase\n  suggest    - Show learned suggestions\n  clear      - Clear chat history\n"@
}

/// The help text of the chat prompt.
pub fn chat_help_text() -> (r: String)
    ensures
        r@ == chat_help(),
{
    owned("Commands:\n  translate <nl> - Convert natural language to shell command\n  task <desc>  - Execute multi-step task\n  search <q>  - Ask about codebase\n  suggest    - Show learned suggestions\n  clear      - Clear chat history\n")
}

/// The suggestions shown at the chat prompt.
pub open spec fn suggestions_text(s: Seq<Seq<char>>) -> Seq<char>
    decreases s.len(),
{
    if s.len() == 0 {
        seq![]
    } else {
        suggestions_text(s.drop_last()) + "  - "@ + s.last() + "\n"@
    }
}

/// How the learned suggestions are shown.
pub fn show_suggestions(patterns: &Vec<UserPattern>) -> (r: String)
    ensures
        r@ == if suggestions(patterns@).len() == 0 {
            "No suggestions yet - use commands to build patterns\n"@
        } else {
            "\x1b[33m\u{1f4dd} Suggestions:\x1b[0m\n"@ + suggestions_text(suggestions(patterns@))
        },
{
    let s = get_suggestions(patterns);
    if s.len() == 0 {
        return owned("No suggestions yet - use commands to build patterns\n");
    }
    let mut out = owned("\x1b[33m\u{1f4dd} Suggestions:\x1b[0m\n");
    let mut i: usize = 0;
    while i < s.len()
        invariant
            i <= s@.len(),
            out@ == "\x1b[33m\u{1f4dd} Suggestions:\x1b[0m\n"@ + suggestions_text(views(s@).subrange(0, i as int)),
        decreases s.len() - i,
    {
        assert(views(s@).subrange(0, i + 1).drop_last() =~= views(s@).subrange(0, i as int));
        push_str(&mut out, "  - ");
        push_str(&mut out, s[i].as_str());
        push_str(&mut out, "\n");
        i = i + 1;
    }
    assert(views(s@).subrange(0, s@.len() as int) =~= views(s@));
    out
}

} // verus!
