//! Terminal debugger session: breakpoints, watch points, leveled logs, the
//! session status, and the commands of the debug prompt.

use vstd::prelude::*;
use crate::text::{parse_u32, parse_u32_spec, split_once, split_once_spec, split_whitespace, words, before_char, is_prefix, lines, lines_of, starts_with, trim, trim_str, upto_char,
    bool_text, bool_to_string, cat, cat3, debug_opt_str, debug_opt_text, dec, join, join_strings,
    lowercase, all_ascii, ascii_lowered, lemma_ascii_lowered_idempotent, opt_string_view, owned, push_str, str_eq, to_lower, u64_to_string, views};

verus! {

/// Log levels, from the most verbose to the most severe.
#[derive(Debug, Clone, Copy, PartialEq, Eq, Structural)]
pub enum LogLevel {
    Trace,
    Debug,
    Info,
    Warn,
    Error,
}

/// Debug events.
#[derive(Debug, Clone)]
pub enum DebugEvent {
    BreakpointHit { file: String, line: u32, id: u64 },
    Log { level: LogLevel, message: String, file: String, line: u32 },
    Error { message: String, stack: Vec<String> },
    Watch { name: String, old_value: String, new_value: String },
}

/// A breakpoint.
#[derive(Debug, Clone)]
pub struct Breakpoint {
    pub id: u64,
    pub file: String,
    pub line: u32,
    pub condition: Option<String>,
    pub enabled: bool,
    pub hit_count: u64,
}

/// A watch point on an expression.
#[derive(Debug, Clone)]
pub struct WatchPoint {
    pub id: u64,
    pub expression: String,
    pub old_value: Option<String>,
    pub enabled: bool,
}

/// The state of a debug session.
pub struct DebugSession {
    pub breakpoints: Vec<Breakpoint>,
    pub watchpoints: Vec<WatchPoint>,
    pub log_level: LogLevel,
    pub logs: Vec<DebugEvent>,
    pub running: bool,
    pub current_file: Option<String>,
}

/// `s` is a fresh session: nothing set, level `Debug`, not running.
pub open spec fn fresh_session(s: DebugSession) -> bool {
    &&& s.breakpoints@.len() == 0
    &&& s.watchpoints@.len() == 0
    &&& s.log_level == LogLevel::Debug
    &&& s.logs@.len() == 0
    &&& !s.running
    &&& s.current_file is None
}

impl Default for DebugSession {
    fn default() -> (r: Self)
        ensures
            fresh_session(r),
    {
        DebugSession {
            breakpoints: Vec::new(),
            watchpoints: Vec::new(),
            log_level: LogLevel::Debug,
            logs: Vec::new(),
            running: false,
            current_file: None,
        }
    }
}

/// The level that a lower-case name gives; an unknown name gives `Debug`.
pub open spec fn name_level(t: Seq<char>) -> LogLevel {
    if t == "trace"@ {
        LogLevel::Trace
    } else if t == "debug"@ {
        LogLevel::Debug
    } else if t == "info"@ {
        LogLevel::Info
    } else if t == "warn"@ {
        LogLevel::Warn
    } else if t == "error"@ {
        LogLevel::Error
    } else {
        LogLevel::Debug
    }
}

/// The level that a name gives, case aside; an unknown name gives `Debug`.
pub open spec fn level_of(s: Seq<char>) -> LogLevel {
    name_level(lowercase(s))
}

/// The upper-case name of a level.
pub open spec fn level_name(l: LogLevel) -> Seq<char> {
    match l {
        LogLevel::Trace => "TRACE"@,
        LogLevel::Debug => "DEBUG"@,
        LogLevel::Info => "INFO"@,
        LogLevel::Warn => "WARN"@,
        LogLevel::Error => "ERROR"@,
    }
}

/// The rank of a level: 0 for `Trace` up to 4 for `Error`.
pub open spec fn level_rank(l: LogLevel) -> nat {
    match l {
        LogLevel::Trace => 0,
        LogLevel::Debug => 1,
        LogLevel::Info => 2,
        LogLevel::Warn => 3,
        LogLevel::Error => 4,
    }
}

fn rank(l: LogLevel) -> (r: u8)
    ensures
        r == level_rank(l),
{
    match l {
        LogLevel::Trace => 0,
        LogLevel::Debug => 1,
        LogLevel::Info => 2,
        LogLevel::Warn => 3,
        LogLevel::Error => 4,
    }
}

impl LogLevel {
    /// The level named `s`, case aside; `Debug` for any other name.
    pub fn from_str(s: &str) -> (r: Self)
        ensures
            r == level_of(s@),
            all_ascii(s@) ==> r == name_level(ascii_lowered(s@)),
    {
        let l = to_lower(s);
        let t = l.as_str();
        if str_eq(t, "trace") {
            LogLevel::Trace
        } else if str_eq(t, "debug") {
            LogLevel::Debug
        } else if str_eq(t, "info") {
            LogLevel::Info
        } else if str_eq(t, "warn") {
            LogLevel::Warn
        } else if str_eq(t, "error") {
            LogLevel::Error
        } else {
            LogLevel::Debug
        }
    }

    /// The upper-case name of this level.
    pub fn to_str(&self) -> (r: &'static str)
        ensures
            r@ == level_name(*self),
    {
        match self {
            LogLevel::Trace => "TRACE",
            LogLevel::Debug => "DEBUG",
            LogLevel::Info => "INFO",
            LogLevel::Warn => "WARN",
            LogLevel::Error => "ERROR",
        }
    }
}

/// Reading a level's name back gives the level: each name is ASCII, and its
/// lower-case form is the name that `from_str` maps to that level.
pub proof fn lemma_level_name_round_trip(l: LogLevel)
    ensures
        all_ascii(level_name(l)),
        name_level(ascii_lowered(level_name(l))) == l,
{
    reveal_strlit("TRACE");
    reveal_strlit("DEBUG");
    reveal_strlit("INFO");
    reveal_strlit("WARN");
    reveal_strlit("ERROR");
    reveal_strlit("trace");
    reveal_strlit("debug");
    reveal_strlit("info");
    reveal_strlit("warn");
    reveal_strlit("error");
    let n = level_name(l);
    match l {
        LogLevel::Trace => {
            assert(ascii_lowered(n) =~= "trace"@);
        },
        LogLevel::Debug => {
            assert(ascii_lowered(n) =~= "debug"@);
            assert("debug"@ != "trace"@) by { assert("debug"@[0] != "trace"@[0]); }
        },
        LogLevel::Info => {
            assert(ascii_lowered(n) =~= "info"@);
            assert("info"@ != "trace"@ && "info"@ != "debug"@) by {
                assert("info"@.len() != "trace"@.len());
            }
        },
        LogLevel::Warn => {
            assert(ascii_lowered(n) =~= "warn"@);
            assert("warn"@ != "trace"@ && "warn"@ != "debug"@ && "warn"@ != "info"@) by {
                assert("warn"@.len() != "trace"@.len());
                assert("warn"@[0] != "info"@[0]);
            }
        },
        LogLevel::Error => {
            assert(ascii_lowered(n) =~= "error"@);
            assert("error"@ != "trace"@ && "error"@ != "debug"@ && "error"@ != "info"@ && "error"@ != "warn"@) by {
                assert("error"@[0] != "trace"@[0]);
                assert("error"@[0] != "debug"@[0]);
                assert("error"@.len() != "info"@.len());
            }
        },
    }
}

/// On ASCII text the level does not change when the text is lowered first.
pub proof fn lemma_level_ignores_case(s: Seq<char>)
    requires
        all_ascii(s),
    ensures
        all_ascii(ascii_lowered(s)),
        name_level(ascii_lowered(ascii_lowered(s))) == name_level(ascii_lowered(s)),
{
    lemma_ascii_lowered_idempotent(s);
}

/// The two events hold the same values, texts compared by their characters.
pub open spec fn same_event(a: DebugEvent, b: DebugEvent) -> bool {
    match (a, b) {
        (DebugEvent::BreakpointHit { file: f1, line: l1, id: i1 }, DebugEvent::BreakpointHit { file: f2, line: l2, id: i2 }) =>
            f1@ == f2@ && l1 == l2 && i1 == i2,
        (DebugEvent::Log { level: v1, message: m1, file: f1, line: l1 }, DebugEvent::Log { level: v2, message: m2, file: f2, line: l2 }) =>
            v1 == v2 && m1@ == m2@ && f1@ == f2@ && l1 == l2,
        (DebugEvent::Error { message: m1, stack: s1 }, DebugEvent::Error { message: m2, stack: s2 }) =>
            m1@ == m2@ && views(s1@) == views(s2@),
        (DebugEvent::Watch { name: n1, old_value: o1, new_value: w1 }, DebugEvent::Watch { name: n2, old_value: o2, new_value: w2 }) =>
            n1@ == n2@ && o1@ == o2@ && w1@ == w2@,
        _ => false,
    }
}

fn copy_strings(v: &Vec<String>) -> (r: Vec<String>)
    ensures
        views(r@) == views(v@),
{
    let mut out: Vec<String> = Vec::new();
    let mut i: usize = 0;
    while i < v.len()
        invariant
            i <= v@.len(),
            out@.len() == i,
            forall|k: int| 0 <= k < i ==> out@[k]@ == v@[k]@,
        decreases v.len() - i,
    {
        out.push(owned(v[i].as_str()));
        i = i + 1;
    }
    assert(views(out@) =~= views(v@));
    out
}

fn copy_event(e: &DebugEvent) -> (r: DebugEvent)
    ensures
        same_event(r, *e),
{
    match e {
        DebugEvent::BreakpointHit { file, line, id } =>
            DebugEvent::BreakpointHit { file: owned(file.as_str()), line: *line, id: *id },
        DebugEvent::Log { level, message, file, line } =>
            DebugEvent::Log { level: *level, message: owned(message.as_str()), file: owned(file.as_str()), line: *line },
        DebugEvent::Error { message, stack } =>
            DebugEvent::Error { message: owned(message.as_str()), stack: copy_strings(stack) },
        DebugEvent::Watch { name, old_value, new_value } =>
            DebugEvent::Watch { name: owned(name.as_str()), old_value: owned(old_value.as_str()), new_value: owned(new_value.as_str()) },
    }
}

/// Starts a fresh debug session, replacing any earlier one.
pub fn init_session(session: &mut Option<DebugSession>)
    ensures
        *final(session) matches Some(s) && fresh_session(s),
{
    *session = Some(DebugSession::default());
}

/// `after` is `before` with an enabled breakpoint at `file:line` appended
/// under `id`, one more than the breakpoints before it; without a session
/// nothing changes and `id` is 0.
pub open spec fn breakpoint_added(before: Option<DebugSession>, after: Option<DebugSession>, file: Seq<char>, line: u32, condition: Option<Seq<char>>, id: u64) -> bool {
    match before {
        Some(s) => {
            &&& id == s.breakpoints@.len() + 1
            &&& after matches Some(t)
            &&& t.breakpoints@.drop_last() == s.breakpoints@
            &&& t.breakpoints@.len() == s.breakpoints@.len() + 1
            &&& t.breakpoints@.last().id == id
            &&& t.breakpoints@.last().file@ == file
            &&& t.breakpoints@.last().line == line
            &&& opt_string_view(t.breakpoints@.last().condition) == condition
            &&& t.breakpoints@.last().enabled
            &&& t.breakpoints@.last().hit_count == 0
            &&& t.watchpoints == s.watchpoints && t.log_level == s.log_level && t.logs == s.logs
            &&& t.running == s.running && t.current_file == s.current_file
        },
        None => id == 0 && after == before,
    }
}

/// The view of an optional string slice.
pub open spec fn opt_str_view(o: Option<&str>) -> Option<Seq<char>> {
    match o {
        Some(c) => Some(c@),
        None => None,
    }
}

/// Adds an enabled breakpoint at `file:line`; its id is one more than the
/// number of breakpoints before it. Without a session nothing is added and
/// the id is 0.
pub fn add_breakpoint(session: &mut Option<DebugSession>, file: &str, line: u32, condition: Option<&str>) -> (r: u64)
    requires
        *old(session) matches Some(s) ==> s.breakpoints@.len() < u64::MAX,
    ensures
        breakpoint_added(*old(session), *final(session), file@, line, opt_str_view(condition), r),
{
    match session {
        Some(s) => {
            let id = s.breakpoints.len() as u64 + 1;
            let cond = match condition {
                Some(c) => Some(owned(c)),
                None => None,
            };
            let ghost before = s.breakpoints@;
            s.breakpoints.push(Breakpoint { id, file: owned(file), line, condition: cond, enabled: true, hit_count: 0 });
            assert(s.breakpoints@.drop_last() =~= before);
            id
        },
        None => 0,
    }
}

/// The position of the first breakpoint with id `id`.
pub open spec fn breakpoint_index(b: Seq<Breakpoint>, id: u64) -> Option<int>
    decreases b.len(),
{
    if b.len() == 0 {
        None
    } else {
        match breakpoint_index(b.drop_last(), id) {
            Some(i) => Some(i),
            None => if b.last().id == id { Some(b.len() - 1) } else { None },
        }
    }
}

proof fn lemma_breakpoint_index(b: Seq<Breakpoint>, id: u64)
    ensures
        match breakpoint_index(b, id) {
            Some(i) => 0 <= i < b.len() && b[i].id == id && forall|k: int| 0 <= k < i ==> b[k].id != id,
            None => forall|k: int| 0 <= k < b.len() ==> b[k].id != id,
        },
    decreases b.len(),
{
    if b.len() > 0 {
        lemma_breakpoint_index(b.drop_last(), id);
        assert forall|k: int| 0 <= k < b.len() - 1 implies b.drop_last()[k] == b[k] by {}
    }
}

fn find_breakpoint(b: &Vec<Breakpoint>, id: u64) -> (r: Option<usize>)
    ensures
        match r {
            Some(i) => i < b@.len() && breakpoint_index(b@, id) == Some(i as int),
            None => breakpoint_index(b@, id) is None,
        },
{
    proof { lemma_breakpoint_index(b@, id); }
    let mut i: usize = 0;
    while i < b.len()
        invariant
            i <= b@.len(),
            forall|k: int| 0 <= k < i ==> b@[k].id != id,
            match breakpoint_index(b@, id) {
                Some(j) => 0 <= j < b@.len() && b@[j].id == id && forall|k: int| 0 <= k < j ==> b@[k].id != id,
                None => forall|k: int| 0 <= k < b@.len() ==> b@[k].id != id,
            },
        decreases b.len() - i,
    {
        if b[i].id == id {
            return Some(i);
        }
        i = i + 1;
    }
    None
}

/// Removes the first breakpoint with id `id`; says whether there was one.
pub fn remove_breakpoint(session: &mut Option<DebugSession>, id: u64) -> (r: bool)
    ensures
        match *old(session) {
            Some(s) => match breakpoint_index(s.breakpoints@, id) {
                Some(i) => r && *final(session) == Some(DebugSession { breakpoints: (*final(session))->0.breakpoints, ..s })
                    && (*final(session))->0.breakpoints@ == s.breakpoints@.remove(i),
                None => !r && *final(session) == *old(session),
            },
            None => !r && *final(session) == *old(session),
        },
{
    match session {
        Some(s) => {
            match find_breakpoint(&s.breakpoints, id) {
                Some(i) => {
                    s.breakpoints.remove(i);
                    true
                },
                None => false,
            }
        },
        None => false,
    }
}

/// Enables or disables the first breakpoint with id `id`; says whether
/// there was one.
pub fn set_breakpoint_enabled(session: &mut Option<DebugSession>, id: u64, enabled: bool) -> (r: bool)
    ensures
        match *old(session) {
            Some(s) => match breakpoint_index(s.breakpoints@, id) {
                Some(i) => r && *final(session) == Some(DebugSession { breakpoints: (*final(session))->0.breakpoints, ..s })
                    && (*final(session))->0.breakpoints@ == s.breakpoints@.update(i, Breakpoint { enabled, ..s.breakpoints@[i] }),
                None => !r && *final(session) == *old(session),
            },
            None => !r && *final(session) == *old(session),
        },
{
    match session {
        Some(s) => {
            match find_breakpoint(&s.breakpoints, id) {
                Some(i) => {
                    let ghost before = s.breakpoints@;
                    let mut bp = s.breakpoints.remove(i);
                    bp.enabled = enabled;
                    s.breakpoints.insert(i, bp);
                    assert(s.breakpoints@ =~= before.update(i as int, Breakpoint { enabled, ..before[i as int] }));
                    true
                },
                None => false,
            }
        },
        None => false,
    }
}

/// `after` is `before` with an enabled watch point on `expression`
/// appended under `id`, one more than the watch points before it; without a
/// session nothing changes and `id` is 0.
pub open spec fn watch_added(before: Option<DebugSession>, after: Option<DebugSession>, expression: Seq<char>, id: u64) -> bool {
    match before {
        Some(s) => {
            &&& id == s.watchpoints@.len() + 1
            &&& after matches Some(t)
            &&& t.watchpoints@.drop_last() == s.watchpoints@
            &&& t.watchpoints@.len() == s.watchpoints@.len() + 1
            &&& t.watchpoints@.last().id == id
            &&& t.watchpoints@.last().expression@ == expression
            &&& t.watchpoints@.last().old_value is None
            &&& t.watchpoints@.last().enabled
            &&& t.breakpoints == s.breakpoints && t.log_level == s.log_level && t.logs == s.logs
            &&& t.running == s.running && t.current_file == s.current_file
        },
        None => id == 0 && after == before,
    }
}

/// Adds an enabled watch point on `expression`; its id is one more than the
/// number of watch points before it. Without a session the id is 0.
pub fn add_watch(session: &mut Option<DebugSession>, expression: &str) -> (r: u64)
    requires
        *old(session) matches Some(s) ==> s.watchpoints@.len() < u64::MAX,
    ensures
        watch_added(*old(session), *final(session), expression@, r),
{
    match session {
        Some(s) => {
            let id = s.watchpoints.len() as u64 + 1;
            let ghost before = s.watchpoints@;
            s.watchpoints.push(WatchPoint { id, expression: owned(expression), old_value: None, enabled: true });
            assert(s.watchpoints@.drop_last() =~= before);
            id
        },
        None => 0,
    }
}

/// Records a log message when its level is at least the session's level.
pub fn log(session: &mut Option<DebugSession>, level: LogLevel, message: &str, file: &str, line: u32)
    ensures
        match *old(session) {
            Some(s) => if level_rank(level) >= level_rank(s.log_level) {
                &&& *final(session) matches Some(t)
                &&& *final(session) == Some(DebugSession { logs: t.logs, ..s })
                &&& t.logs@.drop_last() == s.logs@
                &&& t.logs@.len() == s.logs@.len() + 1
                &&& t.logs@.last() matches DebugEvent::Log { level: lv, message: m, file: f, line: ln }
                &&& lv == level && m@ == message@ && f@ == file@ && ln == line
            } else {
                *final(session) == *old(session)
            },
            None => *final(session) == *old(session),
        },
{
    match session {
        Some(s) => {
            if rank(level) >= rank(s.log_level) {
                let ghost before = s.logs@;
                s.logs.push(DebugEvent::Log { level, message: owned(message), file: owned(file), line });
                assert(s.logs@.drop_last() =~= before);
            }
        },
        None => {},
    }
}

/// Sets the session's log level.
pub fn set_log_level(session: &mut Option<DebugSession>, level: LogLevel)
    ensures
        match *old(session) {
            Some(s) => *final(session) == Some(DebugSession { log_level: level, ..s }),
            None => *final(session) == *old(session),
        },
{
    match session {
        Some(s) => {
            s.log_level = level;
        },
        None => {},
    }
}

/// Drops the session's logs.
pub fn clear_logs(session: &mut Option<DebugSession>)
    ensures
        match *old(session) {
            Some(s) => *final(session) matches Some(t) && t.logs@.len() == 0
                && *final(session) == Some(DebugSession { logs: t.logs, ..s }),
            None => *final(session) == *old(session),
        },
{
    match session {
        Some(s) => {
            s.logs = Vec::new();
        },
        None => {},
    }
}

/// Copies of the session's logs; none without a session.
pub fn get_logs(session: &Option<DebugSession>) -> (r: Vec<DebugEvent>)
    ensures
        match *session {
            Some(s) => r@.len() == s.logs@.len() && forall|k: int| 0 <= k < r@.len() ==> same_event(r@[k], s.logs@[k]),
            None => r@.len() == 0,
        },
{
    match session {
        Some(s) => {
            let mut out: Vec<DebugEvent> = Vec::new();
            let mut i: usize = 0;
            while i < s.logs.len()
                invariant
                    i <= s.logs@.len(),
                    out@.len() == i,
                    forall|k: int| 0 <= k < i ==> same_event(out@[k], s.logs@[k]),
                decreases s.logs.len() - i,
            {
                out.push(copy_event(&s.logs[i]));
                i = i + 1;
            }
            out
        },
        None => Vec::new(),
    }
}

/// The backtrace line of a log event.
pub open spec fn trace_line(e: DebugEvent) -> Option<Seq<char>> {
    match e {
        DebugEvent::Log { file, line, message, .. } =>
            Some("  at "@ + file@ + ":"@ + dec(line as nat) + " - "@ + message@),
        _ => None,
    }
}

/// The backtrace lines of the log events among `events`, in order.
pub open spec fn trace_lines(events: Seq<DebugEvent>) -> Seq<Seq<char>>
    decreases events.len(),
{
    if events.len() == 0 {
        seq![]
    } else {
        match trace_line(events.last()) {
            Some(l) => trace_lines(events.drop_last()).push(l),
            None => trace_lines(events.drop_last()),
        }
    }
}

/// A backtrace made of the recorded log entries, one line each.
pub fn backtrace(session: &Option<DebugSession>) -> (r: Vec<String>)
    ensures
        views(r@) == match *session {
            Some(s) => trace_lines(s.logs@),
            None => seq![],
        },
{
    match session {
        Some(s) => {
            let mut out: Vec<String> = Vec::new();
            let mut i: usize = 0;
            while i < s.logs.len()
                invariant
                    i <= s.logs@.len(),
                    views(out@) == trace_lines(s.logs@.subrange(0, i as int)),
                decreases s.logs.len() - i,
            {
                assert(s.logs@.subrange(0, i + 1).drop_last() =~= s.logs@.subrange(0, i as int));
                let ghost before = out@;
                match &s.logs[i] {
                    DebugEvent::Log { file, line, message, .. } => {
                        let mut l = cat3("  at ", file.as_str(), ":");
                        push_str(&mut l, u64_to_string(*line as u64).as_str());
                        push_str(&mut l, " - ");
                        push_str(&mut l, message.as_str());
                        out.push(l);
                        assert(views(out@) =~= views(before).push(out@.last()@));
                    },
                    _ => {},
                }
                i = i + 1;
            }
            assert(s.logs@.subrange(0, s.logs@.len() as int) =~= s.logs@);
            out
        },
        None => Vec::new(),
    }
}

/// The status line of a breakpoint.
pub open spec fn breakpoint_line(b: Breakpoint) -> Seq<char> {
    "  #"@ + dec(b.id as nat) + " "@ + b.file@ + ":"@ + dec(b.line as nat) + " (hit: "@ + dec(b.hit_count as nat)
        + ", "@ + (if b.enabled { "enabled"@ } else { "disabled"@ }) + ")\n"@
}

/// The status lines of breakpoints, in order.
pub open spec fn breakpoint_lines(b: Seq<Breakpoint>) -> Seq<char>
    decreases b.len(),
{
    if b.len() == 0 { seq![] } else { breakpoint_lines(b.drop_last()) + breakpoint_line(b.last()) }
}

/// The status line of a watch point.
pub open spec fn watch_line(w: WatchPoint) -> Seq<char> {
    "  #"@ + dec(w.id as nat) + " '"@ + w.expression@ + "' (current: "@ + debug_opt_text(opt_string_view(w.old_value)) + ")\n"@
}

/// The status lines of watch points, in order.
pub open spec fn watch_lines(w: Seq<WatchPoint>) -> Seq<char>
    decreases w.len(),
{
    if w.len() == 0 { seq![] } else { watch_lines(w.drop_last()) + watch_line(w.last()) }
}

/// The status report of a session.
pub open spec fn status_text(s: DebugSession) -> Seq<char> {
    let head = "=== Debug Session Status ===\n"@ + "Running: "@ + bool_text(s.running) + "\n"@
        + "Log Level: "@ + level_name(s.log_level) + "\n"@
        + "Breakpoints: "@ + dec(s.breakpoints@.len()) + "\n"@
        + "Watchpoints: "@ + dec(s.watchpoints@.len()) + "\n"@
        + "Log entries: "@ + dec(s.logs@.len()) + "\n"@;
    let with_b = if s.breakpoints@.len() > 0 { head + "\nBreakpoints:\n"@ + breakpoint_lines(s.breakpoints@) } else { head };
    if s.watchpoints@.len() > 0 { with_b + "\nWatchpoints:\n"@ + watch_lines(s.watchpoints@) } else { with_b }
}

/// The reply when no session is active.
pub open spec fn no_session_text() -> Seq<char> {
    "No debug session active. Call init_session() first."@
}

/// The session status: counts, then each breakpoint and watch point.
pub fn status(session: &Option<DebugSession>) -> (r: String)
    ensures
        r@ == match *session {
            Some(s) => status_text(s),
            None => no_session_text(),
        },
{
    match session {
        Some(s) => {
            let mut out = owned("=== Debug Session Status ===\n");
            push_str(&mut out, "Running: ");
            push_str(&mut out, bool_to_string(s.running).as_str());
            push_str(&mut out, "\n");
            push_str(&mut out, "Log Level: ");
            push_str(&mut out, s.log_level.to_str());
            push_str(&mut out, "\n");
            push_str(&mut out, "Breakpoints: ");
            push_str(&mut out, u64_to_string(s.breakpoints.len() as u64).as_str());
            push_str(&mut out, "\n");
            push_str(&mut out, "Watchpoints: ");
            push_str(&mut out, u64_to_string(s.watchpoints.len() as u64).as_str());
            push_str(&mut out, "\n");
            push_str(&mut out, "Log entries: ");
            push_str(&mut out, u64_to_string(s.logs.len() as u64).as_str());
            push_str(&mut out, "\n");
            if s.breakpoints.len() > 0 {
                push_str(&mut out, "\nBreakpoints:\n");
                let ghost base = out@;
                let mut i: usize = 0;
                while i < s.breakpoints.len()
                    invariant
                        i <= s.breakpoints@.len(),
                        out@ == base + breakpoint_lines(s.breakpoints@.subrange(0, i as int)),
                    decreases s.breakpoints.len() - i,
                {
                    assert(s.breakpoints@.subrange(0, i + 1).drop_last() =~= s.breakpoints@.subrange(0, i as int));
                    let b = &s.breakpoints[i];
                    let ghost before = out@;
                    push_str(&mut out, "  #");
                    push_str(&mut out, u64_to_string(b.id).as_str());
                    push_str(&mut out, " ");
                    push_str(&mut out, b.file.as_str());
                    push_str(&mut out, ":");
                    push_str(&mut out, u64_to_string(b.line as u64).as_str());
                    push_str(&mut out, " (hit: ");
                    push_str(&mut out, u64_to_string(b.hit_count).as_str());
                    push_str(&mut out, ", ");
                    if b.enabled {
                        push_str(&mut out, "enabled");
                    } else {
                        push_str(&mut out, "disabled");
                    }
                    push_str(&mut out, ")\n");
                    assert(out@ =~= before + breakpoint_line(*b));
                    i = i + 1;
                }
                assert(s.breakpoints@.subrange(0, s.breakpoints@.len() as int) =~= s.breakpoints@);
            }
            if s.watchpoints.len() > 0 {
                push_str(&mut out, "\nWatchpoints:\n");
                let ghost base = out@;
                let mut i: usize = 0;
                while i < s.watchpoints.len()
                    invariant
                        i <= s.watchpoints@.len(),
                        out@ == base + watch_lines(s.watchpoints@.subrange(0, i as int)),
                    decreases s.watchpoints.len() - i,
                {
                    assert(s.watchpoints@.subrange(0, i + 1).drop_last() =~= s.watchpoints@.subrange(0, i as int));
                    let w = &s.watchpoints[i];
                    let ghost before = out@;
                    push_str(&mut out, "  #");
                    push_str(&mut out, u64_to_string(w.id).as_str());
                    push_str(&mut out, " '");
                    push_str(&mut out, w.expression.as_str());
                    push_str(&mut out, "' (current: ");
                    push_str(&mut out, debug_opt_str(&w.old_value).as_str());
                    push_str(&mut out, ")\n");
                    assert(out@ =~= before + watch_line(*w));
                    i = i + 1;
                }
                assert(s.watchpoints@.subrange(0, s.watchpoints@.len() as int) =~= s.watchpoints@);
            }
            out
        },
        None => owned("No debug session active. Call init_session() first."),
    }
}

/// How a recorded event is printed: log entries and errors each on a line
/// of their own (an error followed by its stack); other events not at all.
pub open spec fn event_text(e: DebugEvent) -> Seq<char> {
    match e {
        DebugEvent::Log { level, message, file, line } =>
            "["@ + level_name(level) + "] "@ + file@ + ":"@ + dec(line as nat) + " - "@ + message@ + "\n"@,
        DebugEvent::Error { message, stack } =>
            "[ERROR] "@ + message@ + "\n  Stack: "@ + join(views(stack@), "\n  "@) + "\n"@,
        _ => seq![],
    }
}

/// How the events are printed, in order.
pub open spec fn events_text(events: Seq<DebugEvent>) -> Seq<char>
    decreases events.len(),
{
    if events.len() == 0 { seq![] } else { events_text(events.drop_last()) + event_text(events.last()) }
}

/// The printed form of the session's log.
pub fn format_logs(session: &Option<DebugSession>) -> (r: String)
    ensures
        r@ == match *session {
            Some(s) => events_text(s.logs@),
            None => seq![],
        },
{
    let mut out = String::new();
    match session {
        Some(s) => {
            let mut i: usize = 0;
            while i < s.logs.len()
                invariant
                    i <= s.logs@.len(),
                    out@ == events_text(s.logs@.subrange(0, i as int)),
                decreases s.logs.len() - i,
            {
                assert(s.logs@.subrange(0, i + 1).drop_last() =~= s.logs@.subrange(0, i as int));
                let ghost before = out@;
                match &s.logs[i] {
                    DebugEvent::Log { level, message, file, line } => {
                        push_str(&mut out, "[");
                        push_str(&mut out, level.to_str());
                        push_str(&mut out, "] ");
                        push_str(&mut out, file.as_str());
                        push_str(&mut out, ":");
                        push_str(&mut out, u64_to_string(*line as u64).as_str());
                        push_str(&mut out, " - ");
                        push_str(&mut out, message.as_str());
                        push_str(&mut out, "\n");
                    },
                    DebugEvent::Error { message, stack } => {
                        push_str(&mut out, "[ERROR] ");
                        push_str(&mut out, message.as_str());
                        push_str(&mut out, "\n  Stack: ");
                        push_str(&mut out, join_strings(stack, "\n  ").as_str());
                        push_str(&mut out, "\n");
                    },
                    _ => {},
                }
                assert(out@ =~= before + event_text(s.logs@[i as int]));
                i = i + 1;
            }
            assert(s.logs@.subrange(0, s.logs@.len() as int) =~= s.logs@);
        },
        None => {},
    }
    out
}

/// A source line followed, when it opens a function (`fn ` or `pub fn ` at
/// its start), by a log statement that names the function on entry.
pub open spec fn instrumented_line(l: Seq<char>) -> Seq<char> {
    if is_prefix("fn "@, l) || is_prefix("pub fn "@, l) {
        l + "\n"@ + "    debug_log!(LogLevel::Debug, \"Entering "@ + trim(upto_char(l, '(')) + "\");\n"@
    } else {
        l + "\n"@
    }
}

/// The instrumented lines, in order.
pub open spec fn instrumented(ls: Seq<Seq<char>>) -> Seq<char>
    decreases ls.len(),
{
    if ls.len() == 0 { seq![] } else { instrumented(ls.drop_last()) + instrumented_line(ls.last()) }
}

/// Source text with an entry log statement after each function header.
pub fn instrument_source(content: &str) -> (r: String)
    ensures
        r@ == instrumented(lines(content@)),
{
    let ls = lines_of(content);
    let mut out = String::new();
    let mut i: usize = 0;
    while i < ls.len()
        invariant
            i <= ls@.len(),
            views(ls@) == lines(content@),
            out@ == instrumented(views(ls@).subrange(0, i as int)),
        decreases ls.len() - i,
    {
        assert(views(ls@).subrange(0, i + 1).drop_last() =~= views(ls@).subrange(0, i as int));
        let line = ls[i].as_str();
        let ghost before = out@;
        push_str(&mut out, line);
        push_str(&mut out, "\n");
        if starts_with(line, "fn ") || starts_with(line, "pub fn ") {
            let head = before_char(line, '(');
            let name = trim_str(head.as_str());
            push_str(&mut out, "    debug_log!(LogLevel::Debug, \"Entering ");
            push_str(&mut out, name.as_str());
            push_str(&mut out, "\");\n");
        }
        assert(out@ =~= before + instrumented_line(views(ls@)[i as int]));
        i = i + 1;
    }
    assert(views(ls@).subrange(0, ls@.len() as int) =~= views(ls@));
    out
}

/// The help text of the debug prompt.
pub open spec fn repl_help() -> Seq<char> {
    "Commands:\n"@ + "  break <file:line> - Set breakpoint\n"@ + "  watch <expr> - Set watchpoint\n"@
        + "  run - Start debug session\n"@ + "  continue - Continue execution\n"@
        + "  step - Step to next line\n"@ + "  print <expr> - Print variable\n"@
        + "  status - Show debug session status\n"@ + "  logs - Show log entries\n"@ + "  quit - Exit REPL\n"@
}

/// The line number that a breakpoint location gives: its number, or 1.
pub open spec fn location_line(l: Seq<char>) -> u32 {
    match parse_u32_spec(l) {
        Some(n) => n,
        None => 1,
    }
}

/// The id that the next breakpoint of a session gets.
pub open spec fn next_breakpoint_id(s: Option<DebugSession>) -> u64 {
    match s {
        Some(t) => (t.breakpoints@.len() + 1) as u64,
        None => 0,
    }
}

/// The id that the next watch point of a session gets.
pub open spec fn next_watch_id(s: Option<DebugSession>) -> u64 {
    match s {
        Some(t) => (t.watchpoints@.len() + 1) as u64,
        None => 0,
    }
}

/// One line of the debug prompt, read: the session after it, what is printed
/// (each printed line ending in a newline), and whether the prompt stops.
pub open spec fn repl_outcome(before: Option<DebugSession>, after: Option<DebugSession>, input: Seq<char>, out: Seq<char>, stop: bool) -> bool {
    let w = words(input);
    if w.len() == 0 {
        after == before && out.len() == 0 && !stop
    } else {
        let cmd = w[0];
        if cmd == "break"@ || cmd == "b"@ {
            !stop && if w.len() > 1 {
                match split_once_spec(w[1], ':') {
                    Some((f, l)) => {
                        let n = location_line(l);
                        let id = next_breakpoint_id(before);
                        breakpoint_added(before, after, f, n, None, id)
                            && out == "Breakpoint #"@ + dec(id as nat) + " set at "@ + f + ":"@ + dec(n as nat) + "\n"@
                    },
                    None => after == before && out.len() == 0,
                }
            } else {
                after == before && out.len() == 0
            }
        } else if cmd == "watch"@ || cmd == "w"@ {
            !stop && if w.len() > 1 {
                let id = next_watch_id(before);
                watch_added(before, after, w[1], id)
                    && out == "Watch #"@ + dec(id as nat) + " set for '"@ + w[1] + "'\n"@
            } else {
                after == before && out.len() == 0
            }
        } else {
            &&& after == before
            &&& stop == (cmd == "continue"@ || cmd == "c"@ || cmd == "quit"@ || cmd == "q"@)
            &&& out == if cmd == "run"@ {
                "Starting debug session...\n"@
            } else if cmd == "continue"@ || cmd == "c"@ {
                "Continuing execution...\n"@
            } else if cmd == "step"@ || cmd == "s"@ {
                "Stepping...\n"@
            } else if cmd == "print"@ || cmd == "p"@ {
                if w.len() > 1 { w[1] + " = (value unavailable without running program)\n"@ } else { seq![] }
            } else if cmd == "status"@ {
                (match before {
                    Some(t) => status_text(t),
                    None => no_session_text(),
                }) + "\n"@
            } else if cmd == "logs"@ || cmd == "l"@ {
                match before {
                    Some(t) => events_text(t.logs@),
                    None => seq![],
                }
            } else if cmd == "quit"@ || cmd == "q"@ {
                "Exiting debug REPL\n"@
            } else if cmd == "help"@ || cmd == "h"@ {
                repl_help()
            } else {
                "Unknown command: "@ + cmd + ". Type 'help' for commands.\n"@
            }
        }
    }
}

/// Reads one line of the debug prompt: carries out its command on the
/// session, and gives what to print and whether the prompt stops.
pub fn repl_step(session: &mut Option<DebugSession>, input: &str) -> (r: (String, bool))
    requires
        *old(session) matches Some(s) ==> s.breakpoints@.len() < u64::MAX && s.watchpoints@.len() < u64::MAX,
    ensures
        repl_outcome(*old(session), *final(session), input@, r.0@, r.1),
{
    let w = split_whitespace(input);
    if w.len() == 0 {
        return (String::new(), false);
    }
    let cmd = w[0].as_str();
    if str_eq(cmd, "break") || str_eq(cmd, "b") {
        if w.len() > 1 {
            match split_once(w[1].as_str(), ':') {
                Some((file, line)) => {
                    let n = match parse_u32(line.as_str()) {
                        Some(x) => x,
                        None => 1,
                    };
                    let id = add_breakpoint(session, file.as_str(), n, None);
                    let mut out = cat3("Breakpoint #", u64_to_string(id).as_str(), " set at ");
                    push_str(&mut out, file.as_str());
                    push_str(&mut out, ":");
                    push_str(&mut out, u64_to_string(n as u64).as_str());
                    push_str(&mut out, "\n");
                    return (out, false);
                },
                None => {
                    return (String::new(), false);
                },
            }
        }
        return (String::new(), false);
    }
    if str_eq(cmd, "watch") || str_eq(cmd, "w") {
        if w.len() > 1 {
            let id = add_watch(session, w[1].as_str());
            let mut out = cat3("Watch #", u64_to_string(id).as_str(), " set for '");
            push_str(&mut out, w[1].as_str());
            push_str(&mut out, "'\n");
            return (out, false);
        }
        return (String::new(), false);
    }
    let out = if str_eq(cmd, "run") {
        owned("Starting debug session...\n")
    } else if str_eq(cmd, "continue") || str_eq(cmd, "c") {
        owned("Continuing execution...\n")
    } else if str_eq(cmd, "step") || str_eq(cmd, "s") {
        owned("Stepping...\n")
    } else if str_eq(cmd, "print") || str_eq(cmd, "p") {
        if w.len() > 1 {
            cat(w[1].as_str(), " = (value unavailable without running program)\n")
        } else {
            String::new()
        }
    } else if str_eq(cmd, "status") {
        let st = status(session);
        cat(st.as_str(), "\n")
    } else if str_eq(cmd, "logs") || str_eq(cmd, "l") {
        format_logs(session)
    } else if str_eq(cmd, "quit") || str_eq(cmd, "q") {
        owned("Exiting debug REPL\n")
    } else if str_eq(cmd, "help") || str_eq(cmd, "h") {
        let mut h = owned("Commands:\n");
        push_str(&mut h, "  break <file:line> - Set breakpoint\n");
        push_str(&mut h, "  watch <expr> - Set watchpoint\n");
        push_str(&mut h, "  run - Start debug session\n");
        push_str(&mut h, "  continue - Continue execution\n");
        push_str(&mut h, "  step - Step to next line\n");
        push_str(&mut h, "  print <expr> - Print variable\n");
        push_str(&mut h, "  status - Show debug session status\n");
        push_str(&mut h, "  logs - Show log entries\n");
        push_str(&mut h, "  quit - Exit REPL\n");
        h
    } else {
        cat3("Unknown command: ", cmd, ". Type 'help' for commands.\n")
    };
    let stop = str_eq(cmd, "continue") || str_eq(cmd, "c") || str_eq(cmd, "quit") || str_eq(cmd, "q");
    (out, stop)
}

} // verus!
