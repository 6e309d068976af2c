//! MCP servers: the registry of known servers kept by name, the servers that
//! run, and the replies of the registry commands.

use vstd::prelude::*;
use crate::ranking::{lemma_insert_by_at, lemma_order_upto_len, lex_lt, order_upto, sorted_distinct, strictly_sorted};
use crate::text::{
    cat, cat3, contains, dec, lex_le, lowercase, owned, pair_list, push_str, str_contains, str_eq,
    str_le, to_lower, u64_to_string, views,
};

verus! {

/// A known MCP server: how to start it and how it is shown.
#[derive(Debug, Clone)]
pub struct MCPServerConfig {
    pub name: String,
    pub display_name: String,
    pub description: String,
    pub category: String,
    pub command: String,
    pub args: Vec<String>,
    pub env: Vec<(String, String)>,
    pub enabled: bool,
    pub official: bool,
}

/// A resource that a server offers.
#[derive(Debug, Clone)]
pub struct MCPResource {
    pub uri: String,
    pub name: String,
    pub mime_type: String,
    pub description: String,
}

/// A prompt that a server offers.
#[derive(Debug, Clone)]
pub struct MCPPrompt {
    pub name: String,
    pub description: String,
    pub arguments: Vec<MCPPromptArgument>,
}

/// An argument of a prompt.
#[derive(Debug, Clone)]
pub struct MCPPromptArgument {
    pub name: String,
    pub description: String,
    pub required: bool,
}

/// A server that was started: its name, process id and start time (ms).
#[derive(Debug, Clone)]
pub struct RunningServer {
    pub name: String,
    pub pid: u32,
    pub started_at: u64,
}

/// No two servers share a name.
pub open spec fn server_names_unique(s: Seq<MCPServerConfig>) -> bool {
    forall|i: int, k: int| 0 <= i < s.len() && 0 <= k < s.len() && i != k ==> s[i].name@ != s[k].name@
}

/// No two running servers share a name.
pub open spec fn running_names_unique(s: Seq<RunningServer>) -> bool {
    forall|i: int, k: int| 0 <= i < s.len() && 0 <= k < s.len() && i != k ==> s[i].name@ != s[k].name@
}

/// The position of the server named `name`.
pub open spec fn server_index(s: Seq<MCPServerConfig>, name: Seq<char>) -> Option<int>
    decreases s.len(),
{
    if s.len() == 0 {
        None
    } else {
        match server_index(s.drop_last(), name) {
            Some(i) => Some(i),
            None => if s.last().name@ == name { Some(s.len() - 1) } else { None },
        }
    }
}

/// The position of the running server named `name`.
pub open spec fn running_index(s: Seq<RunningServer>, name: Seq<char>) -> Option<int>
    decreases s.len(),
{
    if s.len() == 0 {
        None
    } else {
        match running_index(s.drop_last(), name) {
            Some(i) => Some(i),
            None => if s.last().name@ == name { Some(s.len() - 1) } else { None },
        }
    }
}

proof fn lemma_server_index(s: Seq<MCPServerConfig>, name: Seq<char>)
    ensures
        match server_index(s, name) {
            Some(i) => 0 <= i < s.len() && s[i].name@ == name && forall|k: int| 0 <= k < i ==> s[k].name@ != name,
            None => forall|k: int| 0 <= k < s.len() ==> s[k].name@ != name,
        },
    decreases s.len(),
{
    if s.len() > 0 {
        lemma_server_index(s.drop_last(), name);
        assert forall|k: int| 0 <= k < s.len() - 1 implies s.drop_last()[k] == s[k] by {}
    }
}

proof fn lemma_running_index(s: Seq<RunningServer>, name: Seq<char>)
    ensures
        match running_index(s, name) {
            Some(i) => 0 <= i < s.len() && s[i].name@ == name && forall|k: int| 0 <= k < i ==> s[k].name@ != name,
            None => forall|k: int| 0 <= k < s.len() ==> s[k].name@ != name,
        },
    decreases s.len(),
{
    if s.len() > 0 {
        lemma_running_index(s.drop_last(), name);
        assert forall|k: int| 0 <= k < s.len() - 1 implies s.drop_last()[k] == s[k] by {}
    }
}

/// The registry: the known servers and the running ones, each under its
/// own name.
pub struct MCPRegistry {
    servers: Vec<MCPServerConfig>,
    running: Vec<RunningServer>,
}

impl MCPRegistry {
    #[verifier::type_invariant]
    spec fn wf(&self) -> bool {
        server_names_unique(self.servers@) && running_names_unique(self.running@)
    }

    /// The known servers, in the order they were added.
    pub closed spec fn servers(&self) -> Seq<MCPServerConfig> {
        self.servers@
    }

    /// The running servers, in the order they were started.
    pub closed spec fn running(&self) -> Seq<RunningServer> {
        self.running@
    }

    /// The registry as it is, with its names known to be unique.
    pub(crate) fn with_unique_names(self) -> (r: Self)
        ensures
            r == self,
            server_names_unique(r.servers()),
    {
        proof { use_type_invariant(&self); }
        self
    }

    /// A registry with no server.
    pub fn new() -> (r: Self)
        ensures
            r.servers().len() == 0,
            r.running().len() == 0,
            server_names_unique(r.servers()),
            running_names_unique(r.running()),
    {
        MCPRegistry { servers: Vec::new(), running: Vec::new() }
    }

    fn find_server(&self, name: &str) -> (r: Option<usize>)
        ensures
            match r {
                Some(i) => i < self.servers().len() && server_index(self.servers(), name@) == Some(i as int),
                None => server_index(self.servers(), name@) is None,
            },
    {
        proof { lemma_server_index(self.servers@, name@); }
        let mut i: usize = 0;
        while i < self.servers.len()
            invariant
                i <= self.servers@.len(),
                forall|k: int| 0 <= k < i ==> self.servers@[k].name@ != name@,
                match server_index(self.servers@, name@) {
                    Some(j) => 0 <= j < self.servers@.len() && self.servers@[j].name@ == name@
                        && forall|k: int| 0 <= k < j ==> self.servers@[k].name@ != name@,
                    None => forall|k: int| 0 <= k < self.servers@.len() ==> self.servers@[k].name@ != name@,
                },
            decreases self.servers.len() - i,
        {
            if str_eq(self.servers[i].name.as_str(), name) {
                return Some(i);
            }
            i = i + 1;
        }
        None
    }

    fn find_running(&self, name: &str) -> (r: Option<usize>)
        ensures
            match r {
                Some(i) => i < self.running().len() && running_index(self.running(), name@) == Some(i as int),
                None => running_index(self.running(), name@) is None,
            },
    {
        proof { lemma_running_index(self.running@, name@); }
        let mut i: usize = 0;
        while i < self.running.len()
            invariant
                i <= self.running@.len(),
                forall|k: int| 0 <= k < i ==> self.running@[k].name@ != name@,
                match running_index(self.running@, name@) {
                    Some(j) => 0 <= j < self.running@.len() && self.running@[j].name@ == name@
                        && forall|k: int| 0 <= k < j ==> self.running@[k].name@ != name@,
                    None => forall|k: int| 0 <= k < self.running@.len() ==> self.running@[k].name@ != name@,
                },
            decreases self.running.len() - i,
        {
            if str_eq(self.running[i].name.as_str(), name) {
                return Some(i);
            }
            i = i + 1;
        }
        None
    }

    fn take_servers(&mut self) -> (r: Vec<MCPServerConfig>)
        ensures
            r@ == old(self).servers(),
            server_names_unique(r@),
            final(self).running() == old(self).running(),
            running_names_unique(final(self).running()),
    {
        proof { use_type_invariant(&*self); }
        let mut v: Vec<MCPServerConfig> = Vec::new();
        std::mem::swap(&mut v, &mut self.servers);
        v
    }

    fn take_running(&mut self) -> (r: Vec<RunningServer>)
        ensures
            r@ == old(self).running(),
            running_names_unique(r@),
            final(self).servers() == old(self).servers(),
            server_names_unique(final(self).servers()),
    {
        proof { use_type_invariant(&*self); }
        let mut v: Vec<RunningServer> = Vec::new();
        std::mem::swap(&mut v, &mut self.running);
        v
    }
}

/// `c` is the server with these texts and arguments, no environment, and
/// these flags.
pub open spec fn server_is(c: MCPServerConfig, name: Seq<char>, display: Seq<char>, description: Seq<char>,
    category: Seq<char>, command: Seq<char>, args: Seq<Seq<char>>, enabled: bool, official: bool) -> bool {
    &&& c.name@ == name
    &&& c.display_name@ == display
    &&& c.description@ == description
    &&& c.category@ == category
    &&& c.command@ == command
    &&& views(c.args@) == args
    &&& c.env@.len() == 0
    &&& c.enabled == enabled
    &&& c.official == official
}

/// `after` is `before` with `c` stored under its name: in place of the
/// server with that name, or appended.
pub open spec fn server_stored(before: Seq<MCPServerConfig>, after: Seq<MCPServerConfig>, c: MCPServerConfig) -> bool {
    match server_index(before, c.name@) {
        Some(i) => after == before.update(i, c),
        None => after == before.push(c),
    }
}

fn store_server(reg: &mut MCPRegistry, c: MCPServerConfig)
    ensures
        server_stored(old(reg).servers(), final(reg).servers(), c),
        final(reg).running() == old(reg).running(),
{
    proof { lemma_server_index(reg.servers@, c.name@); }
    let found = reg.find_server(c.name.as_str());
    let ghost before = reg.servers@;
    let mut v = reg.take_servers();
    match found {
        Some(i) => {
            v.set(i, c);
            assert(server_names_unique(v@)) by {
                assert forall|a: int, b: int| 0 <= a < v@.len() && 0 <= b < v@.len() && a != b
                    implies v@[a].name@ != v@[b].name@ by {
                    assert(before[a].name@ != before[b].name@);
                }
            }
        },
        None => {
            v.push(c);
        },
    }
    reg.servers = v;
}

/// No server is enabled.
pub open spec fn all_disabled(s: Seq<MCPServerConfig>) -> bool {
    forall|i: int| 0 <= i < s.len() ==> !(#[trigger] s[i]).enabled
}

/// What a server is, as plain values: name, display name, description,
/// category, command, arguments, environment, and whether it is enabled and
/// official.
pub type ServerView = (Seq<char>, Seq<char>, Seq<char>, Seq<char>, Seq<char>, Seq<Seq<char>>, Seq<(Seq<char>, Seq<char>)>, bool, bool);

/// The view of a server.
pub open spec fn server_view(c: MCPServerConfig) -> ServerView {
    (c.name@, c.display_name@, c.description@, c.category@, c.command@, views(c.args@), pair_list(c.env@), c.enabled, c.official)
}

/// The views of the servers, in order.
pub open spec fn views_of(s: Seq<MCPServerConfig>) -> Seq<ServerView> {
    Seq::new(s.len(), |i: int| server_view(s[i]))
}

/// The position of the server view named `name`.
pub open spec fn view_index(v: Seq<ServerView>, name: Seq<char>) -> Option<int>
    decreases v.len(),
{
    if v.len() == 0 {
        None
    } else {
        match view_index(v.drop_last(), name) {
            Some(i) => Some(i),
            None => if v.last().0 == name { Some(v.len() - 1) } else { None },
        }
    }
}

/// `v` with `e` stored under its name: in place of the server of that name,
/// or appended.
#[verifier::opaque]
pub open spec fn store_view(v: Seq<ServerView>, e: ServerView) -> Seq<ServerView> {
    match view_index(v, e.0) {
        Some(i) => v.update(i, e),
        None => v.push(e),
    }
}

/// A server that comes with the tool: no environment, disabled.
pub open spec fn builtin_view(name: Seq<char>, display: Seq<char>, description: Seq<char>, category: Seq<char>,
    command: Seq<char>, args: Seq<Seq<char>>, official: bool) -> ServerView {
    (name, display, description, category, command, args, Seq::empty(), false, official)
}

proof fn lemma_view_index(s: Seq<MCPServerConfig>, name: Seq<char>)
    ensures
        view_index(views_of(s), name) == server_index(s, name),
    decreases s.len(),
{
    if s.len() > 0 {
        assert(views_of(s).drop_last() =~= views_of(s.drop_last()));
        lemma_view_index(s.drop_last(), name);
    }
}

/// Registers one of the servers that come with the tool, disabled, with
/// `npx_args` then `extra_args` as its arguments; it replaces a server of
/// the same name.
pub fn register_builtin(reg: &mut MCPRegistry, name: &str, display: &str, description: &str, category: &str,
    command: &str, npx_args: Vec<String>, extra_args: Vec<String>, official: bool)
    ensures
        exists|c: MCPServerConfig| server_is(c, name@, display@, description@, category@, command@,
            views(npx_args@) + views(extra_args@), false, official)
            && server_stored(old(reg).servers(), final(reg).servers(), c),
        views_of(final(reg).servers()) == store_view(views_of(old(reg).servers()),
            builtin_view(name@, display@, description@, category@, command@, views(npx_args@) + views(extra_args@), official)),
        final(reg).running() == old(reg).running(),
        all_disabled(old(reg).servers()) ==> all_disabled(final(reg).servers()),
{
    let mut args = npx_args;
    let mut extra = extra_args;
    let ghost first = views(args@);
    let ghost second = views(extra@);
    args.append(&mut extra);
    assert(views(args@) =~= first + second);
    let c = MCPServerConfig {
        name: owned(name),
        display_name: owned(display),
        description: owned(description),
        category: owned(category),
        command: owned(command),
        args,
        env: Vec::new(),
        enabled: false,
        official,
    };
    let ghost gc = c;
    let ghost before = reg.servers();
    store_server(reg, c);
    assert(server_is(gc, name@, display@, description@, category@, command@, first + second, false, official));
    proof {
        reveal(store_view);
        let e = builtin_view(name@, display@, description@, category@, command@, first + second, official);
        assert(pair_list(gc.env@) =~= Seq::<(Seq<char>, Seq<char>)>::empty());
        assert(server_view(gc) == e);
        lemma_view_index(before, gc.name@);
        lemma_server_index(before, gc.name@);
        match server_index(before, gc.name@) {
            Some(j) => {
                assert(views_of(reg.servers()) =~= views_of(before).update(j, e));
            },
            None => {
                assert(views_of(reg.servers()) =~= views_of(before).push(e));
            },
        }
    }
    assert(all_disabled(before) ==> all_disabled(reg.servers())) by {
        if all_disabled(before) {
            lemma_server_index(before, gc.name@);
            assert forall|i: int| 0 <= i < reg.servers().len() implies !(#[trigger] reg.servers()[i]).enabled by {
                match server_index(before, gc.name@) {
                    Some(j) => { if i != j { assert(reg.servers()[i] == before[i]); } },
                    None => { if i < before.len() { assert(reg.servers()[i] == before[i]); } },
                }
            }
        }
    }
}

/// Adds a custom server, enabled and not official, unless one of that name
/// exists.
pub fn add_custom_server(reg: &mut MCPRegistry, name: &str, display_name: &str, description: &str, category: &str,
    command: &str, args: Vec<String>) -> (r: String)
    ensures
        final(reg).running() == old(reg).running(),
        match server_index(old(reg).servers(), name@) {
            Some(_) => final(reg).servers() == old(reg).servers()
                && r@ == "{\"error\": \"Server '"@ + name@ + "' already exists\"}"@,
            None => final(reg).servers().drop_last() == old(reg).servers()
                && final(reg).servers().len() == old(reg).servers().len() + 1
                && server_is(final(reg).servers().last(), name@, display_name@, description@, category@, command@,
                    views(args@), true, false)
                && r@ == "{\"success\": \"Added custom MCP server: "@ + name@ + "\"}"@,
        },
        server_names_unique(final(reg).servers()),
        running_names_unique(final(reg).running()),
{
    proof { use_type_invariant(&*reg); }
    match reg.find_server(name) {
        Some(_) => cat3("{\"error\": \"Server '", name, "' already exists\"}"),
        None => {
            let c = MCPServerConfig {
                name: owned(name),
                display_name: owned(display_name),
                description: owned(description),
                category: owned(category),
                command: owned(command),
                args,
                env: Vec::new(),
                enabled: true,
                official: false,
            };
            store_server(reg, c);
            proof { use_type_invariant(&*reg); }
            cat3("{\"success\": \"Added custom MCP server: ", name, "\"}")
        },
    }
}

/// The reply for a name that no server has.
pub open spec fn server_not_found(name: Seq<char>) -> Seq<char> {
    "{\"error\": \"Server '"@ + name + "' not found\"}"@
}

/// Enables or disables the server named `name`.
pub fn enable_server(reg: &mut MCPRegistry, name: &str, enabled: bool) -> (r: String)
    ensures
        final(reg).running() == old(reg).running(),
        match server_index(old(reg).servers(), name@) {
            Some(i) => final(reg).servers() == old(reg).servers().update(i, MCPServerConfig { enabled, ..old(reg).servers()[i] })
                && r@ == "{\"success\": \"MCP server '"@ + name@ + "' "@ + (if enabled { "enabled"@ } else { "disabled"@ }) + "\"}"@,
            None => final(reg).servers() == old(reg).servers() && r@ == server_not_found(name@),
        },
        server_names_unique(final(reg).servers()),
        running_names_unique(final(reg).running()),
{
    proof { use_type_invariant(&*reg); }
    match reg.find_server(name) {
        Some(i) => {
            let ghost before = reg.servers@;
            let mut v = reg.take_servers();
            let mut c = v.remove(i);
            c.enabled = enabled;
            v.insert(i, c);
            assert(v@ =~= before.update(i as int, MCPServerConfig { enabled, ..before[i as int] }));
            assert(server_names_unique(v@)) by {
                assert forall|a: int, b: int| 0 <= a < v@.len() && 0 <= b < v@.len() && a != b
                    implies v@[a].name@ != v@[b].name@ by {
                    assert(before[a].name@ != before[b].name@);
                }
            }
            reg.servers = v;
            let mut r = cat3("{\"success\": \"MCP server '", name, "' ");
            push_str(&mut r, if enabled { "enabled" } else { "disabled" });
            push_str(&mut r, "\"}");
            r
        },
        None => cat3("{\"error\": \"Server '", name, "' not found\"}"),
    }
}

/// Removes the server named `name`, unless it is an official one.
pub fn remove_server(reg: &mut MCPRegistry, name: &str) -> (r: String)
    ensures
        final(reg).running() == old(reg).running(),
        match server_index(old(reg).servers(), name@) {
            Some(i) => if old(reg).servers()[i].official {
                final(reg).servers() == old(reg).servers()
                    && r@ == "{\"error\": \"Cannot remove official server '"@ + name@ + "'\"}"@
            } else {
                final(reg).servers() == old(reg).servers().remove(i)
                    && r@ == "{\"success\": \"Removed MCP server: "@ + name@ + "\"}"@
            },
            None => final(reg).servers() == old(reg).servers() && r@ == server_not_found(name@),
        },
        server_names_unique(final(reg).servers()),
        running_names_unique(final(reg).running()),
{
    proof { use_type_invariant(&*reg); }
    match reg.find_server(name) {
        Some(i) => {
            if reg.servers[i].official {
                return cat3("{\"error\": \"Cannot remove official server '", name, "'\"}");
            }
            let ghost before = reg.servers@;
            let mut v = reg.take_servers();
            v.remove(i);
            assert(server_names_unique(v@)) by {
                assert forall|a: int, b: int| 0 <= a < v@.len() && 0 <= b < v@.len() && a != b
                    implies v@[a].name@ != v@[b].name@ by {
                    let a0 = if a < i { a } else { a + 1 };
                    let b0 = if b < i { b } else { b + 1 };
                    assert(v@[a] == before[a0]);
                    assert(v@[b] == before[b0]);
                }
            }
            reg.servers = v;
            cat3("{\"success\": \"Removed MCP server: ", name, "\"}")
        },
        None => cat3("{\"error\": \"Server '", name, "' not found\"}"),
    }
}

/// What starting the server named `name` needs: its command, arguments and
/// environment.
pub fn server_launch(reg: &MCPRegistry, name: &str) -> (r: Option<(String, Vec<String>, Vec<(String, String)>)>)
    ensures
        match server_index(reg.servers(), name@) {
            Some(i) => match r {
                Some((c, a, e)) => c@ == reg.servers()[i].command@ && views(a@) == views(reg.servers()[i].args@)
                    && e@.len() == reg.servers()[i].env@.len()
                    && forall|k: int| 0 <= k < e@.len() ==> e@[k].0@ == reg.servers()[i].env@[k].0@
                        && e@[k].1@ == reg.servers()[i].env@[k].1@,
                None => false,
            },
            None => r is None,
        },
{
    match reg.find_server(name) {
        Some(i) => {
            let c = &reg.servers[i];
            let mut args: Vec<String> = Vec::new();
            let mut k: usize = 0;
            while k < c.args.len()
                invariant
                    k <= c.args@.len(),
                    args@.len() == k,
                    forall|j: int| 0 <= j < k ==> args@[j]@ == c.args@[j]@,
                decreases c.args.len() - k,
            {
                args.push(owned(c.args[k].as_str()));
                k = k + 1;
            }
            assert(views(args@) =~= views(c.args@));
            let mut env: Vec<(String, String)> = Vec::new();
            let mut k: usize = 0;
            while k < c.env.len()
                invariant
                    k <= c.env@.len(),
                    env@.len() == k,
                    forall|j: int| 0 <= j < k ==> env@[j].0@ == c.env@[j].0@ && env@[j].1@ == c.env@[j].1@,
                decreases c.env.len() - k,
            {
                env.push((owned(c.env[k].0.as_str()), owned(c.env[k].1.as_str())));
                k = k + 1;
            }
            Some((owned(c.command.as_str()), args, env))
        },
        None => None,
    }
}

/// Records that the server named `name` was started as process `pid` at
/// `now` (ms), in place of an earlier record of it.
pub fn record_started(reg: &mut MCPRegistry, name: &str, pid: u32, now: u64) -> (r: String)
    ensures
        final(reg).servers() == old(reg).servers(),
        match running_index(old(reg).running(), name@) {
            Some(i) => final(reg).running().len() == old(reg).running().len()
                && (forall|k: int| 0 <= k < old(reg).running().len() && k != i ==> final(reg).running()[k] == old(reg).running()[k])
                && final(reg).running()[i].name@ == name@ && final(reg).running()[i].pid == pid
                && final(reg).running()[i].started_at == now,
            None => final(reg).running().drop_last() == old(reg).running()
                && final(reg).running().len() == old(reg).running().len() + 1
                && final(reg).running().last().name@ == name@ && final(reg).running().last().pid == pid
                && final(reg).running().last().started_at == now,
        },
        r@ == "{\"success\": \"Started MCP server: "@ + name@ + " (PID: "@ + dec(pid as nat) + ")\"}"@,
        server_names_unique(final(reg).servers()),
        running_names_unique(final(reg).running()),
{
    proof { use_type_invariant(&*reg); }
    proof { lemma_running_index(reg.running@, name@); }
    let entry = RunningServer { name: owned(name), pid, started_at: now };
    let found = reg.find_running(name);
    let ghost before = reg.running@;
    let mut v = reg.take_running();
    match found {
        Some(i) => {
            v.set(i, entry);
            assert(running_names_unique(v@)) by {
                assert forall|a: int, b: int| 0 <= a < v@.len() && 0 <= b < v@.len() && a != b
                    implies v@[a].name@ != v@[b].name@ by {
                    assert(before[a].name@ != before[b].name@);
                }
            }
        },
        None => {
            proof { lemma_running_index(before, name@); }
            v.push(entry);
            assert(v@.drop_last() =~= before);
            assert(running_names_unique(v@)) by {
                assert forall|a: int, b: int| 0 <= a < v@.len() && 0 <= b < v@.len() && a != b
                    implies v@[a].name@ != v@[b].name@ by {
                    if a < before.len() && b < before.len() {
                        assert(before[a].name@ != before[b].name@);
                    } else if a < before.len() {
                        assert(v@[b].name@ == name@);
                        assert(v@[a] == before[a]);
                    } else {
                        assert(v@[a].name@ == name@);
                        assert(v@[b] == before[b]);
                    }
                }
            }
        },
    }
    reg.running = v;
    let mut r = cat3("{\"success\": \"Started MCP server: ", name, " (PID: ");
    push_str(&mut r, u64_to_string(pid as u64).as_str());
    push_str(&mut r, ")\"}");
    r
}

/// Forgets the running server named `name`.
pub fn stop_server(reg: &mut MCPRegistry, name: &str) -> (r: String)
    ensures
        final(reg).servers() == old(reg).servers(),
        match running_index(old(reg).running(), name@) {
            Some(i) => final(reg).running() == old(reg).running().remove(i)
                && r@ == "{\"success\": \"Stopped MCP server: "@ + name@ + "\"}"@,
            None => final(reg).running() == old(reg).running()
                && r@ == "{\"error\": \"Server '"@ + name@ + "' is not running\"}"@,
        },
        server_names_unique(final(reg).servers()),
        running_names_unique(final(reg).running()),
{
    proof { use_type_invariant(&*reg); }
    match reg.find_running(name) {
        Some(i) => {
            let ghost before = reg.running@;
            let mut v = reg.take_running();
            v.remove(i);
            assert(running_names_unique(v@)) by {
                assert forall|a: int, b: int| 0 <= a < v@.len() && 0 <= b < v@.len() && a != b
                    implies v@[a].name@ != v@[b].name@ by {
                    let a0 = if a < i { a } else { a + 1 };
                    let b0 = if b < i { b } else { b + 1 };
                    assert(v@[a] == before[a0]);
                    assert(v@[b] == before[b0]);
                }
            }
            reg.running = v;
            cat3("{\"success\": \"Stopped MCP server: ", name, "\"}")
        },
        None => cat3("{\"error\": \"Server '", name, "' is not running\"}"),
    }
}

/// Whether the server named `name` runs, as a JSON reply.
pub fn is_running(reg: &MCPRegistry, name: &str) -> (r: String)
    ensures
        r@ == if running_index(reg.running(), name@) is Some {
            "{\"running\": true, \"name\": \""@ + name@ + "\"}"@
        } else {
            "{\"running\": false, \"name\": \""@ + name@ + "\"}"@
        },
{
    match reg.find_running(name) {
        Some(_) => cat3("{\"running\": true, \"name\": \"", name, "\"}"),
        None => cat3("{\"running\": false, \"name\": \"", name, "\"}"),
    }
}

/// How many servers run.
pub fn running_count(reg: &MCPRegistry) -> (r: usize)
    ensures
        r == reg.running().len(),
{
    reg.running.len()
}

/// How many servers are known.
pub fn server_count(reg: &MCPRegistry) -> (r: usize)
    ensures
        r == reg.servers().len(),
{
    reg.servers.len()
}

/// The categories of the servers, each once, in ascending order.
pub fn categories(reg: &MCPRegistry) -> (r: Vec<String>)
    ensures
        strictly_sorted(views(r@)),
        forall|c: Seq<char>| views(r@).contains(c) <==> exists|i: int| 0 <= i < reg.servers().len() && reg.servers()[i].category@ == c,
{
    let mut cats: Vec<String> = Vec::new();
    let mut i: usize = 0;
    while i < reg.servers.len()
        invariant
            i <= reg.servers@.len(),
            cats@.len() == i,
            forall|k: int| 0 <= k < i ==> cats@[k]@ == reg.servers@[k].category@,
        decreases reg.servers.len() - i,
    {
        cats.push(owned(reg.servers[i].category.as_str()));
        i = i + 1;
    }
    let r = sorted_distinct(&cats);
    assert forall|c: Seq<char>| views(r@).contains(c) <==> exists|i: int| 0 <= i < reg.servers().len() && reg.servers()[i].category@ == c by {
        if views(cats@).contains(c) {
            let k = choose|k: int| 0 <= k < views(cats@).len() && views(cats@)[k] == c;
            assert(reg.servers()[k].category@ == c);
        }
        if exists|i: int| 0 <= i < reg.servers().len() && reg.servers()[i].category@ == c {
            let k = choose|k: int| 0 <= k < reg.servers().len() && reg.servers()[k].category@ == c;
            assert(views(cats@)[k] == c);
        }
    }
    r
}

} // verus!

verus! {

fn copy_strings(v: &Vec<String>) -> (r: Vec<String>)
    ensures
        views(r@) == views(v@),
{
    let mut out: Vec<String> = Vec::new();
    let mut i: usize = 0;
    while i < v.len()
        invariant
            i <= v@.len(),
            views(out@) == views(v@).subrange(0, i as int),
        decreases v.len() - i,
    {
        let ghost before = views(out@);
        out.push(owned(v[i].as_str()));
        assert(views(out@) =~= before.push(v@[i as int]@));
        assert(views(out@) =~= views(v@).subrange(0, i + 1));
        i = i + 1;
    }
    assert(views(v@).subrange(0, v@.len() as int) =~= views(v@));
    out
}

fn copy_pairs(v: &Vec<(String, String)>) -> (r: Vec<(String, String)>)
    ensures
        pair_list(r@) == pair_list(v@),
{
    let mut out: Vec<(String, String)> = Vec::new();
    let mut i: usize = 0;
    while i < v.len()
        invariant
            i <= v@.len(),
            pair_list(out@) == pair_list(v@).subrange(0, i as int),
        decreases v.len() - i,
    {
        let ghost before = pair_list(out@);
        out.push((owned(v[i].0.as_str()), owned(v[i].1.as_str())));
        assert(pair_list(out@) =~= before.push((v@[i as int].0@, v@[i as int].1@)));
        assert(pair_list(out@) =~= pair_list(v@).subrange(0, i + 1));
        i = i + 1;
    }
    assert(pair_list(v@).subrange(0, v@.len() as int) =~= pair_list(v@));
    out
}

/// A copy of a server configuration.
pub fn copy_server(c: &MCPServerConfig) -> (r: MCPServerConfig)
    ensures
        server_view(r) == server_view(*c),
{
    MCPServerConfig {
        name: owned(c.name.as_str()),
        display_name: owned(c.display_name.as_str()),
        description: owned(c.description.as_str()),
        category: owned(c.category.as_str()),
        command: owned(c.command.as_str()),
        args: copy_strings(&c.args),
        env: copy_pairs(&c.env),
        enabled: c.enabled,
        official: c.official,
    }
}

/// The views of some configurations.
pub open spec fn server_views(v: Seq<MCPServerConfig>) -> Seq<(Seq<char>, Seq<char>, Seq<char>, Seq<char>, Seq<char>, Seq<Seq<char>>, Seq<(Seq<char>, Seq<char>)>, bool, bool)> {
    v.map_values(|c: MCPServerConfig| server_view(c))
}

/// Position `a` stays ahead of position `b` in the listing: by category,
/// then by name.
pub open spec fn listing_ahead(s: Seq<MCPServerConfig>) -> spec_fn(usize, usize) -> bool {
    |a: usize, b: usize| lex_lt(s[a as int].category@, s[b as int].category@)
        || (s[a as int].category@ == s[b as int].category@ && lex_le(s[a as int].name@, s[b as int].name@))
}

fn ahead_exec(s: &Vec<MCPServerConfig>, a: usize, b: usize) -> (r: bool)
    requires
        a < s@.len(),
        b < s@.len(),
    ensures
        r == listing_ahead(s@)(a, b),
{
    let ca = s[a].category.as_str();
    let cb = s[b].category.as_str();
    let same = str_eq(ca, cb);
    (str_le(ca, cb) && !same) || (same && str_le(s[a].name.as_str(), s[b].name.as_str()))
}

/// The known servers in listing order: by category, then by name.
pub fn list_servers(reg: &MCPRegistry) -> (r: Vec<MCPServerConfig>)
    ensures
        r@.len() == reg.servers().len(),
        forall|k: int| 0 <= k < r@.len() ==> server_view(#[trigger] r@[k]) == server_view(
            reg.servers()[order_upto(listing_ahead(reg.servers()), reg.servers().len())[k] as int],
        ),
{
    let s = &reg.servers;
    let mut order: Vec<usize> = Vec::new();
    let mut i: usize = 0;
    while i < s.len()
        invariant
            i <= s@.len(),
            s@ == reg.servers(),
            order@ == order_upto(listing_ahead(s@), i as nat),
        decreases s.len() - i,
    {
        proof {
            lemma_order_upto_len(listing_ahead(s@), i as nat);
        }
        let mut p: usize = 0;
        while p < order.len() && ahead_exec(s, order[p], i)
            invariant
                p <= order@.len(),
                i < s@.len(),
                order@ == order_upto(listing_ahead(s@), i as nat),
                forall|k: int| 0 <= k < order@.len() ==> order@[k] < i,
                forall|k: int| 0 <= k < p ==> listing_ahead(s@)(order@[k], i),
            decreases order@.len() - p,
        {
            p = p + 1;
        }
        proof {
            lemma_insert_by_at(listing_ahead(s@), order@, i, p as int);
        }
        order.insert(p, i);
        i = i + 1;
    }
    proof {
        lemma_order_upto_len(listing_ahead(s@), s@.len());
    }
    let mut out: Vec<MCPServerConfig> = Vec::new();
    let mut k: usize = 0;
    while k < order.len()
        invariant
            s@ == reg.servers(),
            order@ == order_upto(listing_ahead(s@), s@.len()),
            order@.len() == s@.len(),
            forall|m: int| 0 <= m < order@.len() ==> order@[m] < s@.len(),
            k <= order@.len(),
            out@.len() == k,
            forall|m: int| 0 <= m < k ==> server_view(#[trigger] out@[m]) == server_view(s@[order@[m] as int]),
        decreases order.len() - k,
    {
        out.push(copy_server(&s[order[k]]));
        k = k + 1;
    }
    out
}

/// The known server named `name`.
pub fn get_server(reg: &MCPRegistry, name: &str) -> (r: Option<MCPServerConfig>)
    ensures
        match server_index(reg.servers(), name@) {
            Some(i) => r matches Some(c) && server_view(c) == server_view(reg.servers()[i]),
            None => r is None,
        },
{
    match reg.find_server(name) {
        Some(i) => Some(copy_server(&reg.servers[i])),
        None => None,
    }
}

/// A server matches a lower-cased query when its name or category holds it,
/// or its display name or description does once lower-cased.
pub open spec fn server_matches(c: MCPServerConfig, q: Seq<char>) -> bool {
    contains(c.name@, q) || contains(lowercase(c.display_name@), q) || contains(lowercase(c.description@), q)
        || contains(c.category@, q)
}

/// The test of a server against the lower-cased query `q`.
pub open spec fn matches_query(q: Seq<char>) -> spec_fn(MCPServerConfig) -> bool {
    |c: MCPServerConfig| server_matches(c, q)
}

/// The test of a server's category.
pub open spec fn in_category(cat: Seq<char>) -> spec_fn(MCPServerConfig) -> bool {
    |c: MCPServerConfig| c.category@ == cat
}

/// The known servers that match `query`, in stored order.
pub fn search_servers(reg: &MCPRegistry, query: &str) -> (r: Vec<MCPServerConfig>)
    ensures
        server_views(r@) == server_views(reg.servers().filter(matches_query(lowercase(query@)))),
{
    let q = to_lower(query);
    let ghost pred = matches_query(lowercase(query@));
    let s = &reg.servers;
    let mut out: Vec<MCPServerConfig> = Vec::new();
    let mut i: usize = 0;
    proof {
        reveal(Seq::filter);
    }
    assert(s@.subrange(0, 0).filter(pred) =~= Seq::<MCPServerConfig>::empty());
    while i < s.len()
        invariant
            i <= s@.len(),
            s@ == reg.servers(),
            q@ == lowercase(query@),
            pred == matches_query(lowercase(query@)),
            server_views(out@) == server_views(s@.subrange(0, i as int).filter(pred)),
        decreases s.len() - i,
    {
        let c = &s[i];
        assert(pred(s@[i as int]) == server_matches(s@[i as int], q@));
        let hit = str_contains(c.name.as_str(), q.as_str())
            || str_contains(to_lower(c.display_name.as_str()).as_str(), q.as_str())
            || str_contains(to_lower(c.description.as_str()).as_str(), q.as_str())
            || str_contains(c.category.as_str(), q.as_str());
        let ghost before = server_views(out@);
        assert(s@.subrange(0, i + 1).drop_last() =~= s@.subrange(0, i as int));
        if hit {
            out.push(copy_server(c));
            assert(server_views(out@) =~= before.push(server_view(s@[i as int])));
        } else {
            assert(server_views(out@) =~= before);
        }
        proof {
            reveal(Seq::filter);
        }
        assert(s@.subrange(0, i + 1).filter(pred) == (if pred(s@[i as int]) {
            s@.subrange(0, i as int).filter(pred).push(s@[i as int])
        } else {
            s@.subrange(0, i as int).filter(pred)
        }));
        assert(server_views(s@.subrange(0, i as int).filter(pred).push(s@[i as int]))
            =~= server_views(s@.subrange(0, i as int).filter(pred)).push(server_view(s@[i as int])));
        i = i + 1;
    }
    assert(s@.subrange(0, s@.len() as int) =~= s@);
    out
}

/// The known servers of the category `cat`, in stored order.
pub fn list_by_category(reg: &MCPRegistry, cat: &str) -> (r: Vec<MCPServerConfig>)
    ensures
        server_views(r@) == server_views(reg.servers().filter(in_category(cat@))),
{
    let ghost pred = in_category(cat@);
    let s = &reg.servers;
    let mut out: Vec<MCPServerConfig> = Vec::new();
    let mut i: usize = 0;
    proof {
        reveal(Seq::filter);
    }
    assert(s@.subrange(0, 0).filter(pred) =~= Seq::<MCPServerConfig>::empty());
    while i < s.len()
        invariant
            i <= s@.len(),
            s@ == reg.servers(),
            pred == in_category(cat@),
            server_views(out@) == server_views(s@.subrange(0, i as int).filter(pred)),
        decreases s.len() - i,
    {
        let ghost before = server_views(out@);
        assert(s@.subrange(0, i + 1).drop_last() =~= s@.subrange(0, i as int));
        if str_eq(s[i].category.as_str(), cat) {
            out.push(copy_server(&s[i]));
            assert(server_views(out@) =~= before.push(server_view(s@[i as int])));
        } else {
            assert(server_views(out@) =~= before);
        }
        proof {
            reveal(Seq::filter);
        }
        assert(s@.subrange(0, i + 1).filter(pred) == (if pred(s@[i as int]) {
            s@.subrange(0, i as int).filter(pred).push(s@[i as int])
        } else {
            s@.subrange(0, i as int).filter(pred)
        }));
        assert(server_views(s@.subrange(0, i as int).filter(pred).push(s@[i as int]))
            =~= server_views(s@.subrange(0, i as int).filter(pred)).push(server_view(s@[i as int])));
        i = i + 1;
    }
    assert(s@.subrange(0, s@.len() as int) =~= s@);
    out
}

} // verus!

verus! {

/// Adds a server from its parsed configuration, unless one of that name exists.
pub fn add_server(reg: &mut MCPRegistry, config: MCPServerConfig) -> (r: String)
    ensures
        final(reg).running() == old(reg).running(),
        match server_index(old(reg).servers(), config.name@) {
            Some(_) => final(reg).servers() == old(reg).servers()
                && r@ == "{\"error\": \"Server '"@ + config.name@ + "' already exists\"}"@,
            None => server_stored(old(reg).servers(), final(reg).servers(), config)
                && r@ == "{\"success\": \"Added MCP server: "@ + config.display_name@ + "\"}"@,
        },
        server_names_unique(final(reg).servers()),
        running_names_unique(final(reg).running()),
{
    proof { use_type_invariant(&*reg); }
    match reg.find_server(config.name.as_str()) {
        Some(_) => cat3("{\"error\": \"Server '", config.name.as_str(), "' already exists\"}"),
        None => {
            let msg = cat3("{\"success\": \"Added MCP server: ", config.display_name.as_str(), "\"}");
            store_server(reg, config);
            proof { use_type_invariant(&*reg); }
            msg
        },
    }
}

} // verus!

verus! {

/// A server that was added is found again by its name, at the end of the registry.
pub proof fn lemma_added_server_is_found(before: Seq<MCPServerConfig>, c: MCPServerConfig)
    requires
        server_index(before, c.name@) is None,
    ensures
        server_index(before.push(c), c.name@) == Some(before.len() as int),
{
    assert(before.push(c).drop_last() =~= before);
}

} // verus!
