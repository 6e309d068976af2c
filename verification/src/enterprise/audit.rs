//! Audit events: their construction, the selection of logged events by user,
//! type and time, newest first, and their statistics.

use vstd::prelude::*;
use crate::text::{cat, cat3, dec, now_secs, owned, push_str, str_eq, u64_to_string, views};

verus! {

/// Audit event types.
#[derive(Debug, Clone, Copy, PartialEq, Eq, Structural)]
pub enum AuditEventType {
    Login,
    Logout,
    FileCreate,
    FileModify,
    FileDelete,
    CodeGenerate,
    CodeExecute,
    AgentRun,
    PluginInstall,
    PluginExecute,
    ConfigChange,
    UserCreate,
    UserDelete,
    PermissionChange,
}

/// The name under which an event type is logged.
pub open spec fn event_type_name(t: AuditEventType) -> Seq<char> {
    match t {
        AuditEventType::Login => "login"@,
        AuditEventType::Logout => "logout"@,
        AuditEventType::FileCreate => "file.create"@,
        AuditEventType::FileModify => "file.modify"@,
        AuditEventType::FileDelete => "file.delete"@,
        AuditEventType::CodeGenerate => "code.generate"@,
        AuditEventType::CodeExecute => "code.execute"@,
        AuditEventType::AgentRun => "agent.run"@,
        AuditEventType::PluginInstall => "plugin.install"@,
        AuditEventType::PluginExecute => "plugin.execute"@,
        AuditEventType::ConfigChange => "config.change"@,
        AuditEventType::UserCreate => "user.create"@,
        AuditEventType::UserDelete => "user.delete"@,
        AuditEventType::PermissionChange => "permission.change"@,
    }
}

impl AuditEventType {
    /// The name under which this event type is logged.
    pub fn to_string(&self) -> (r: String)
        ensures
            r@ == event_type_name(*self),
    {
        match self {
            AuditEventType::Login => owned("login"),
            AuditEventType::Logout => owned("logout"),
            AuditEventType::FileCreate => owned("file.create"),
            AuditEventType::FileModify => owned("file.modify"),
            AuditEventType::FileDelete => owned("file.delete"),
            AuditEventType::CodeGenerate => owned("code.generate"),
            AuditEventType::CodeExecute => owned("code.execute"),
            AuditEventType::AgentRun => owned("agent.run"),
            AuditEventType::PluginInstall => owned("plugin.install"),
            AuditEventType::PluginExecute => owned("plugin.execute"),
            AuditEventType::ConfigChange => owned("config.change"),
            AuditEventType::UserCreate => owned("user.create"),
            AuditEventType::UserDelete => owned("user.delete"),
            AuditEventType::PermissionChange => owned("permission.change"),
        }
    }
}

/// Audit event.
#[derive(Debug, Clone)]
pub struct AuditEvent {
    pub timestamp: u64,
    pub event_type: String,
    pub user_id: String,
    pub action: String,
    pub resource: String,
    pub details: String,
    pub ip_address: Option<String>,
    pub success: bool,
    pub session_id: Option<String>,
}

impl AuditEvent {
    /// A successful event happening now, with no address or session.
    pub fn new(event_type: AuditEventType, user_id: &str, action: &str, resource: &str, details: &str) -> (r: Self)
        ensures
            r.event_type@ == event_type_name(event_type),
            r.user_id@ == user_id@,
            r.action@ == action@,
            r.resource@ == resource@,
            r.details@ == details@,
            r.ip_address is None,
            r.success,
            r.session_id is None,
    {
        let timestamp = now_secs();
        AuditEvent {
            timestamp,
            event_type: event_type.to_string(),
            user_id: owned(user_id),
            action: owned(action),
            resource: owned(resource),
            details: owned(details),
            ip_address: None,
            success: true,
            session_id: None,
        }
    }

    /// The same event, from the address `ip`.
    pub fn with_ip(self, ip: &str) -> (r: Self)
        ensures
            r == (AuditEvent { ip_address: r.ip_address, ..self }),
            r.ip_address is Some && r.ip_address->0@ == ip@,
    {
        let mut s = self;
        s.ip_address = Some(owned(ip));
        s
    }

    /// The same event, in the session `session_id`.
    pub fn with_session(self, session_id: &str) -> (r: Self)
        ensures
            r == (AuditEvent { session_id: r.session_id, ..self }),
            r.session_id is Some && r.session_id->0@ == session_id@,
    {
        let mut s = self;
        s.session_id = Some(owned(session_id));
        s
    }

    /// The same event, marked as failed.
    pub fn failed(self) -> (r: Self)
        ensures
            r == (AuditEvent { success: false, ..self }),
    {
        let mut s = self;
        s.success = false;
        s
    }
}

/// Audit logger settings: where events are logged, when the log is rotated,
/// and how long logs are kept.
pub struct AuditLogger {
    pub log_path: String,
    pub max_size_mb: u64,
    pub retention_days: u32,
}

impl AuditLogger {
    /// A logger writing to `log_path`, rotating past 100 MB and keeping logs 90 days.
    pub fn new(log_path: String) -> (r: Self)
        ensures
            r.log_path == log_path,
            r.max_size_mb == 100,
            r.retention_days == 90,
    {
        AuditLogger { log_path, max_size_mb: 100, retention_days: 90 }
    }

    /// Statistics over the logged events.
    pub fn stats(&self, events: &Vec<AuditEvent>) -> (r: AuditStats)
        ensures
            r.total_events == events@.len(),
            r.successful == count_success(events@),
            r.failed + r.successful == events@.len(),
    {
        let mut stats = AuditStats { total_events: events.len(), successful: 0, failed: 0 };
        let mut i: usize = 0;
        while i < events.len()
            invariant
                i <= events@.len(),
                stats.total_events == events@.len(),
                stats.successful == count_success(events@.subrange(0, i as int)),
                stats.successful + stats.failed == i,
            decreases events.len() - i,
        {
            assert(events@.subrange(0, i + 1).drop_last() =~= events@.subrange(0, i as int));
            if events[i].success {
                stats.successful = stats.successful + 1;
            } else {
                stats.failed = stats.failed + 1;
            }
            i = i + 1;
        }
        assert(events@.subrange(0, events@.len() as int) =~= events@);
        stats
    }

    /// Old logs are not cleaned: no log is removed.
    pub fn cleanup_old_logs(&self) -> (r: Result<u32, String>)
        ensures
            r == Ok::<u32, String>(0),
    {
        Ok(0)
    }
}

/// How many of the events succeeded.
pub open spec fn count_success(v: Seq<AuditEvent>) -> nat
    decreases v.len(),
{
    if v.len() == 0 {
        0
    } else {
        count_success(v.drop_last()) + if v.last().success { 1nat } else { 0nat }
    }
}

/// Audit statistics.
#[derive(Debug)]
pub struct AuditStats {
    pub total_events: usize,
    pub successful: usize,
    pub failed: usize,
}

impl Default for AuditStats {
    fn default() -> (r: Self)
        ensures
            r.total_events == 0 && r.successful == 0 && r.failed == 0,
    {
        AuditStats { total_events: 0, successful: 0, failed: 0 }
    }
}

/// Whether an event passes the query filters: the user, the type name, and a
/// timestamp within the bounds, each only when given.
pub open spec fn selected(e: AuditEvent, user_id: Option<Seq<char>>, event_type: Option<Seq<char>>, start: Option<u64>, end: Option<u64>) -> bool {
    &&& (user_id matches Some(u) ==> e.user_id@ == u)
    &&& (event_type matches Some(t) ==> e.event_type@ == t)
    &&& (start matches Some(s) ==> e.timestamp >= s)
    &&& (end matches Some(x) ==> e.timestamp <= x)
}

/// The events that pass the filters, in their logged order.
pub open spec fn filter_events(v: Seq<AuditEvent>, user_id: Option<Seq<char>>, event_type: Option<Seq<char>>, start: Option<u64>, end: Option<u64>) -> Seq<AuditEvent>
    decreases v.len(),
{
    if v.len() == 0 {
        seq![]
    } else {
        let rest = filter_events(v.drop_last(), user_id, event_type, start, end);
        if selected(v.last(), user_id, event_type, start, end) {
            rest.push(v.last())
        } else {
            rest
        }
    }
}

/// `x` placed into the newest-first sequence `s` after every event at least as new.
pub open spec fn insert_newest_first(s: Seq<AuditEvent>, x: AuditEvent) -> Seq<AuditEvent>
    decreases s.len(),
{
    if s.len() == 0 {
        seq![x]
    } else if s[0].timestamp >= x.timestamp {
        seq![s[0]] + insert_newest_first(s.drop_first(), x)
    } else {
        seq![x] + s
    }
}

/// The events newest first; events with the same timestamp keep their order
/// (a stable sort by descending timestamp).
pub open spec fn newest_first(v: Seq<AuditEvent>) -> Seq<AuditEvent>
    decreases v.len(),
{
    if v.len() == 0 {
        seq![]
    } else {
        insert_newest_first(newest_first(v.drop_last()), v.last())
    }
}

/// The view of an optional string.
pub open spec fn opt_view(o: Option<&str>) -> Option<Seq<char>> {
    match o {
        Some(s) => Some(s@),
        None => None,
    }
}

fn opt_str_matches(filter: Option<&str>, value: &String) -> (r: bool)
    ensures
        r == (filter matches Some(f) ==> value@ == f@),
{
    match filter {
        Some(f) => crate::text::str_eq(value.as_str(), f),
        None => true,
    }
}

proof fn lemma_insert_at(s: Seq<AuditEvent>, x: AuditEvent, p: int)
    requires
        0 <= p <= s.len(),
        forall|k: int| 0 <= k < p ==> s[k].timestamp >= x.timestamp,
        p < s.len() ==> s[p].timestamp < x.timestamp,
    ensures
        insert_newest_first(s, x) == s.subrange(0, p) + seq![x] + s.subrange(p, s.len() as int),
    decreases p,
{
    if p == 0 {
        if s.len() == 0 {
            assert(s.subrange(0, 0) + seq![x] + s.subrange(0, 0) =~= seq![x]);
        } else {
            assert(s.subrange(0, 0) + seq![x] + s.subrange(0, s.len() as int) =~= seq![x] + s);
        }
    } else {
        lemma_insert_at(s.drop_first(), x, p - 1);
        assert(seq![s[0]] + (s.drop_first().subrange(0, p - 1) + seq![x] + s.drop_first().subrange(p - 1, s.len() - 1))
            =~= s.subrange(0, p) + seq![x] + s.subrange(p, s.len() as int));
    }
}

/// The logged events that pass the filters, newest first (ties in logged order).
pub fn select_events(events: Vec<AuditEvent>, user_id: Option<&str>, event_type: Option<&str>, start_time: Option<u64>, end_time: Option<u64>) -> (r: Vec<AuditEvent>)
    ensures
        r@ == newest_first(filter_events(events@, opt_view(user_id), opt_view(event_type), start_time, end_time)),
{
    let ghost uv = opt_view(user_id);
    let ghost tv = opt_view(event_type);
    let ghost all = events@;
    let mut sorted: Vec<AuditEvent> = Vec::new();
    let mut input = events;
    let mut i: usize = 0;
    assert(all.subrange(0, all.len() as int) =~= all);
    let n = input.len();
    while i < n
        invariant
            n == all.len(),
            uv == opt_view(user_id),
            tv == opt_view(event_type),
            i <= n,
            input@ == all.subrange(i as int, n as int),
            sorted@ == newest_first(filter_events(all.subrange(0, i as int), uv, tv, start_time, end_time)),
        decreases n - i,
    {
        let e = input.remove(0);
        assert(e == all[i as int]);
        assert(all.subrange(0, i + 1).drop_last() =~= all.subrange(0, i as int));
        assert(all.subrange(0, i + 1).last() == e);
        let k1 = opt_str_matches(user_id, &e.user_id);
        let k2 = opt_str_matches(event_type, &e.event_type);
        let k3 = match start_time {
            Some(s) => e.timestamp >= s,
            None => true,
        };
        let k4 = match end_time {
            Some(x) => e.timestamp <= x,
            None => true,
        };
        assert(k1 == (uv matches Some(u) ==> e.user_id@ == u));
        assert(k2 == (tv matches Some(t) ==> e.event_type@ == t));
        let keep = k1 && k2 && k3 && k4;
        assert(keep == selected(e, uv, tv, start_time, end_time));
        let ghost prev = filter_events(all.subrange(0, i as int), uv, tv, start_time, end_time);
        if keep {
            assert(filter_events(all.subrange(0, i + 1), uv, tv, start_time, end_time) == prev.push(e));
            assert(prev.push(e).drop_last() =~= prev);
            assert(newest_first(prev.push(e)) == insert_newest_first(newest_first(prev), e));
            let mut p: usize = 0;
            while p < sorted.len() && sorted[p].timestamp >= e.timestamp
                invariant
                    p <= sorted@.len(),
                    forall|k: int| 0 <= k < p ==> sorted@[k].timestamp >= e.timestamp,
                decreases sorted@.len() - p,
            {
                p = p + 1;
            }
            proof {
                lemma_insert_at(sorted@, e, p as int);
            }
            sorted.insert(p, e);
        }
        i = i + 1;
        assert(input@ =~= all.subrange(i as int, n as int));
    }
    assert(all.subrange(0, n as int) =~= all);
    sorted
}

/// The event that `log_audit` records: a successful event happening now.
pub fn log_audit(event_type: AuditEventType, user_id: &str, action: &str, resource: &str, details: &str) -> (r: AuditEvent)
    ensures
        r.event_type@ == event_type_name(event_type),
        r.user_id@ == user_id@,
        r.action@ == action@,
        r.resource@ == resource@,
        r.details@ == details@,
        r.ip_address is None,
        r.success,
        r.session_id is None,
{
    AuditEvent::new(event_type, user_id, action, resource, details)
}

/// What an `audit` subcommand asks of the caller.
pub enum AuditReply {
    /// Print this.
    Text { message: String },
    /// Write these events, one JSON line each, to `path`.
    Export { path: String, events: Vec<AuditEvent> },
}

/// The line of an event in the audit listing.
pub open spec fn audit_line(e: AuditEvent) -> Seq<char> {
    "["@ + dec(e.timestamp as nat) + "] "@ + e.event_type@ + " - "@ + e.user_id@ + " - "@ + e.action@ + "\n"@
}

/// The lines of events, in order.
pub open spec fn audit_lines(es: Seq<AuditEvent>) -> Seq<char>
    decreases es.len(),
{
    if es.len() == 0 { seq![] } else { audit_lines(es.drop_last()) + audit_line(es.last()) }
}

/// The first `n` events (all of them when there are fewer).
pub open spec fn first_events(es: Seq<AuditEvent>, n: nat) -> Seq<AuditEvent> {
    if es.len() <= n { es } else { es.subrange(0, n as int) }
}

/// A rule of fifty `=`.
pub open spec fn rule50() -> Seq<char> {
    Seq::new(50, |i: int| '=')
}

/// The audit listing: a header with the count, a rule, the twenty newest
/// events, and how many more there are.
pub open spec fn audit_listing(es: Seq<AuditEvent>) -> Seq<char> {
    "Audit Logs ("@ + dec(es.len()) + " events)\n"@ + rule50() + "\n"@ + audit_lines(first_events(es, 20))
        + if es.len() > 20 { "\n... and "@ + dec((es.len() - 20) as nat) + " more"@ } else { seq![] }
}

/// The statistics report.
pub open spec fn stats_text(total: nat, ok: nat, failed: nat) -> Seq<char> {
    "Audit Statistics\n================\nTotal Events: "@ + dec(total) + "\nSuccessful: "@ + dec(ok) + "\nFailed: "@ + dec(failed)
}

fn rule() -> (r: String)
    ensures
        r@ == rule50(),
{
    let mut r = String::new();
    let mut i: usize = 0;
    while i < 50
        invariant
            i <= 50,
            r@ == Seq::new(i as nat, |k: int| '='),
        decreases 50 - i,
    {
        crate::text::push_char(&mut r, '=');
        assert(r@ =~= Seq::new((i + 1) as nat, |k: int| '='));
        i = i + 1;
    }
    r
}

fn audit_line_text(e: &AuditEvent) -> (r: String)
    ensures
        r@ == audit_line(*e),
{
    let mut r = cat3("[", u64_to_string(e.timestamp).as_str(), "] ");
    push_str(&mut r, e.event_type.as_str());
    push_str(&mut r, " - ");
    push_str(&mut r, e.user_id.as_str());
    push_str(&mut r, " - ");
    push_str(&mut r, e.action.as_str());
    push_str(&mut r, "\n");
    r
}

fn listing(es: &Vec<AuditEvent>) -> (r: String)
    ensures
        r@ == audit_listing(es@),
{
    let mut out = cat3("Audit Logs (", u64_to_string(es.len() as u64).as_str(), " events)\n");
    push_str(&mut out, rule().as_str());
    push_str(&mut out, "\n");
    let n: usize = if es.len() <= 20 { es.len() } else { 20 };
    assert(first_events(es@, 20) =~= es@.subrange(0, n as int));
    let ghost base = out@;
    let mut k: usize = 0;
    while k < n
        invariant
            n <= es@.len(),
            k <= n,
            out@ == base + audit_lines(es@.subrange(0, k as int)),
        decreases n - k,
    {
        assert(es@.subrange(0, k + 1).drop_last() =~= es@.subrange(0, k as int));
        let line = audit_line_text(&es[k]);
        push_str(&mut out, line.as_str());
        k = k + 1;
    }
    let ghost head = out@;
    if es.len() > 20 {
        push_str(&mut out, "\n... and ");
        push_str(&mut out, u64_to_string((es.len() - 20) as u64).as_str());
        push_str(&mut out, " more");
    }
    assert(out@ =~= audit_listing(es@));
    out
}

/// The events of a query with no filter: all, newest first.
pub open spec fn all_newest(logged: Seq<AuditEvent>) -> Seq<AuditEvent> {
    newest_first(filter_events(logged, None, None, None, None))
}

/// What an `audit` subcommand comes to over the logged events `logged`, in
/// the order they were logged.
pub open spec fn audit_cmd_outcome(logged: Seq<AuditEvent>, subcmd: Seq<char>, args: Seq<Seq<char>>, r: Result<AuditReply, String>) -> bool {
    if subcmd == "list"@ || subcmd == "ls"@ {
        r matches Ok(AuditReply::Text { message }) && message@ == audit_listing(all_newest(logged))
    } else if subcmd == "user"@ {
        if args.len() == 0 {
            r matches Err(e) && e@ == "Please specify user ID"@
        } else {
            r matches Ok(AuditReply::Text { message }) && message@ == "Found "@
                + dec(filter_events(logged, Some(args[0]), None, None, None).len()) + " events for user "@ + args[0]
        }
    } else if subcmd == "stats"@ {
        r matches Ok(AuditReply::Text { message }) && message@ == stats_text(logged.len(), count_success(all_newest(logged)),
            (logged.len() - count_success(all_newest(logged))) as nat)
    } else if subcmd == "export"@ {
        if args.len() == 0 {
            r matches Err(e) && e@ == "Please specify output file"@
        } else {
            r matches Ok(AuditReply::Export { path, events }) && path@ == args[0] && events@ == all_newest(logged)
        }
    } else {
        r matches Err(e) && e@ == "Unknown audit command: "@ + subcmd
    }
}

proof fn lemma_filter_none_len(v: Seq<AuditEvent>)
    ensures
        filter_events(v, None, None, None, None) == v,
    decreases v.len(),
{
    if v.len() > 0 {
        lemma_filter_none_len(v.drop_last());
        assert(v.drop_last().push(v.last()) =~= v);
    }
}

proof fn lemma_insert_newest_len(s: Seq<AuditEvent>, x: AuditEvent)
    ensures
        insert_newest_first(s, x).len() == s.len() + 1,
    decreases s.len(),
{
    if s.len() > 0 {
        lemma_insert_newest_len(s.drop_first(), x);
    }
}

proof fn lemma_newest_len(v: Seq<AuditEvent>)
    ensures
        newest_first(v).len() == v.len(),
    decreases v.len(),
{
    if v.len() > 0 {
        lemma_newest_len(v.drop_last());
        lemma_insert_newest_len(newest_first(v.drop_last()), v.last());
    }
}

/// Runs an `audit` subcommand over the logged events, in the order they
/// were logged.
pub fn run_audit_cmd(logged: Vec<AuditEvent>, subcmd: &str, args: &Vec<String>) -> (r: Result<AuditReply, String>)
    ensures
        audit_cmd_outcome(logged@, subcmd@, views(args@), r),
{
    proof {
        reveal_strlit("list");
        reveal_strlit("ls");
        reveal_strlit("user");
        reveal_strlit("stats");
        reveal_strlit("export");
        assert("list"@.len() == 4 && "list"@[1] == 'i');
        assert("ls"@.len() == 2);
        assert("user"@.len() == 4 && "user"@[0] == 'u');
        assert("stats"@.len() == 5 && "stats"@[0] == 's');
        assert("export"@.len() == 6);
        assert forall|k: int| 0 <= k < args@.len() implies views(args@)[k] == args@[k]@ by {}
        lemma_filter_none_len(logged@);
        lemma_newest_len(logged@);
    }
    let ghost all = logged@;
    if str_eq(subcmd, "list") || str_eq(subcmd, "ls") {
        let es = select_events(logged, None, None, None, None);
        return Ok(AuditReply::Text { message: listing(&es) });
    }
    if str_eq(subcmd, "user") {
        if args.len() == 0 {
            return Err(owned("Please specify user ID"));
        }
        let u = args[0].as_str();
        let es = select_events(logged, Some(u), None, None, None);
        proof { lemma_newest_len(filter_events(all, Some(u@), None, None, None)); }
        let mut m = cat3("Found ", u64_to_string(es.len() as u64).as_str(), " events for user ");
        push_str(&mut m, u);
        return Ok(AuditReply::Text { message: m });
    }
    if str_eq(subcmd, "stats") {
        let es = select_events(logged, None, None, None, None);
        let logger = AuditLogger::new(String::new());
        let st = logger.stats(&es);
        let mut m = cat3("Audit Statistics\n================\nTotal Events: ", u64_to_string(st.total_events as u64).as_str(), "\nSuccessful: ");
        push_str(&mut m, u64_to_string(st.successful as u64).as_str());
        push_str(&mut m, "\nFailed: ");
        push_str(&mut m, u64_to_string(st.failed as u64).as_str());
        return Ok(AuditReply::Text { message: m });
    }
    if str_eq(subcmd, "export") {
        if args.len() == 0 {
            return Err(owned("Please specify output file"));
        }
        let es = select_events(logged, None, None, None, None);
        return Ok(AuditReply::Export { path: owned(args[0].as_str()), events: es });
    }
    Err(cat("Unknown audit command: ", subcmd))
}

/// The message after an export.
pub fn export_message(count: usize, path: &str) -> (r: String)
    ensures
        r@ == "Exported "@ + dec(count as nat) + " events to "@ + path@,
{
    let mut m = cat3("Exported ", u64_to_string(count as u64).as_str(), " events to ");
    push_str(&mut m, path);
    m
}

} // verus!
