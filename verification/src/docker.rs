//! Docker sessions: the container command line for a session, and the
//! sessions kept by id with their status.

use vstd::prelude::*;
use crate::text::{cat, cat3, dec, owned, str_eq, u64_to_string, views, pair_list};

verus! {

/// Where a session stands.
#[derive(Debug, Clone, Copy, PartialEq, Eq, Structural)]
pub enum SessionStatus {
    Creating,
    Running,
    Paused,
    Stopped,
    Failed,
}

/// A container session.
#[derive(Debug, Clone)]
pub struct DockerSession {
    pub id: String,
    pub name: String,
    pub image: String,
    pub status: SessionStatus,
    pub created_at: u64,
    pub ports: Vec<String>,
    pub volumes: Vec<String>,
    pub environment: Vec<(String, String)>,
}

/// How a session's container is made.
#[derive(Debug, Clone)]
pub struct DockerConfig {
    pub image: String,
    pub memory_limit: Option<String>,
    pub cpu_limit: Option<String>,
    pub ports: Vec<String>,
    pub volumes: Vec<String>,
    pub environment: Vec<(String, String)>,
}

impl Default for DockerConfig {
    fn default() -> (r: Self)
        ensures
            r.image@ == "ubuntu:22.04"@,
            r.memory_limit matches Some(m) && m@ == "512m"@,
            r.cpu_limit matches Some(c) && c@ == "0.5"@,
            r.ports@.len() == 0 && r.volumes@.len() == 0 && r.environment@.len() == 0,
    {
        DockerConfig {
            image: owned("ubuntu:22.04"),
            memory_limit: Some(owned("512m")),
            cpu_limit: Some(owned("0.5")),
            ports: Vec::new(),
            volumes: Vec::new(),
            environment: Vec::new(),
        }
    }
}

/// Each entry preceded by a flag.
pub open spec fn flagged(flag: Seq<char>, v: Seq<Seq<char>>) -> Seq<Seq<char>>
    decreases v.len(),
{
    if v.len() == 0 { seq![] } else { flagged(flag, v.drop_last()) + seq![flag, v.last()] }
}

/// Each variable as `-e KEY=VALUE`.
pub open spec fn env_flags(e: Seq<(Seq<char>, Seq<char>)>) -> Seq<Seq<char>>
    decreases e.len(),
{
    if e.len() == 0 { seq![] } else { env_flags(e.drop_last()) + seq!["-e"@, e.last().0 + "="@ + e.last().1] }
}

/// The `docker` arguments that start a session named `name`.
pub open spec fn run_args(name: Seq<char>, c: DockerConfig) -> Seq<Seq<char>> {
    seq!["run"@, "-d"@, "--name"@, "devutils_"@ + name, "--hostname"@, name]
        + (match c.memory_limit { Some(m) => seq!["--memory"@, m@], None => seq![] })
        + (match c.cpu_limit { Some(x) => seq!["--cpus"@, x@], None => seq![] })
        + flagged("-p"@, views(c.ports@))
        + flagged("-v"@, views(c.volumes@))
        + env_flags(pair_list(c.environment@))
        + seq!["-v"@, ".:/workspace"@, "tail"@, "-f"@, "/dev/null"@, c.image@]
}

fn push_arg(v: &mut Vec<String>, a: &str)
    ensures
        views(final(v)@) == views(old(v)@).push(a@),
{
    v.push(owned(a));
    assert(views(v@) =~= views(old(v)@).push(a@));
}

/// The `docker` arguments that start a session named `name`.
pub fn docker_run_args(name: &str, config: &DockerConfig) -> (r: Vec<String>)
    ensures
        views(r@) == run_args(name@, *config),
{
    let id = cat("devutils_", name);
    let mut args: Vec<String> = Vec::new();
    push_arg(&mut args, "run");
    push_arg(&mut args, "-d");
    push_arg(&mut args, "--name");
    push_arg(&mut args, id.as_str());
    push_arg(&mut args, "--hostname");
    push_arg(&mut args, name);
    let ghost head = views(args@);
    assert(head =~= seq!["run"@, "-d"@, "--name"@, "devutils_"@ + name@, "--hostname"@, name@]);
    match &config.memory_limit {
        Some(m) => {
            push_arg(&mut args, "--memory");
            push_arg(&mut args, m.as_str());
        },
        None => {},
    }
    match &config.cpu_limit {
        Some(c) => {
            push_arg(&mut args, "--cpus");
            push_arg(&mut args, c.as_str());
        },
        None => {},
    }
    let ghost limits = views(args@);
    assert(limits =~= head + (match config.memory_limit { Some(m) => seq!["--memory"@, m@], None => seq![] })
        + (match config.cpu_limit { Some(x) => seq!["--cpus"@, x@], None => seq![] }));
    let mut i: usize = 0;
    while i < config.ports.len()
        invariant
            i <= config.ports@.len(),
            views(args@) == limits + flagged("-p"@, views(config.ports@).subrange(0, i as int)),
        decreases config.ports.len() - i,
    {
        assert(views(config.ports@).subrange(0, i + 1).drop_last() =~= views(config.ports@).subrange(0, i as int));
        push_arg(&mut args, "-p");
        push_arg(&mut args, config.ports[i].as_str());
        i = i + 1;
    }
    assert(views(config.ports@).subrange(0, config.ports@.len() as int) =~= views(config.ports@));
    let ghost after_ports = views(args@);
    let mut i: usize = 0;
    while i < config.volumes.len()
        invariant
            i <= config.volumes@.len(),
            views(args@) == after_ports + flagged("-v"@, views(config.volumes@).subrange(0, i as int)),
        decreases config.volumes.len() - i,
    {
        assert(views(config.volumes@).subrange(0, i + 1).drop_last() =~= views(config.volumes@).subrange(0, i as int));
        push_arg(&mut args, "-v");
        push_arg(&mut args, config.volumes[i].as_str());
        i = i + 1;
    }
    assert(views(config.volumes@).subrange(0, config.volumes@.len() as int) =~= views(config.volumes@));
    let ghost after_volumes = views(args@);
    let mut i: usize = 0;
    while i < config.environment.len()
        invariant
            i <= config.environment@.len(),
            views(args@) == after_volumes + env_flags(pair_list(config.environment@).subrange(0, i as int)),
        decreases config.environment.len() - i,
    {
        assert(pair_list(config.environment@).subrange(0, i + 1).drop_last() =~= pair_list(config.environment@).subrange(0, i as int));
        push_arg(&mut args, "-e");
        let kv = cat3(config.environment[i].0.as_str(), "=", config.environment[i].1.as_str());
        push_arg(&mut args, kv.as_str());
        i = i + 1;
    }
    assert(pair_list(config.environment@).subrange(0, config.environment@.len() as int) =~= pair_list(config.environment@));
    push_arg(&mut args, "-v");
    push_arg(&mut args, ".:/workspace");
    push_arg(&mut args, "tail");
    push_arg(&mut args, "-f");
    push_arg(&mut args, "/dev/null");
    push_arg(&mut args, config.image.as_str());
    assert(views(args@) =~= run_args(name@, *config));
    args
}

/// The sessions, kept by id.
pub struct DockerSessions {
    pub sessions: Vec<DockerSession>,
}

/// The position of the first session with id `id`.
pub open spec fn session_index(s: Seq<DockerSession>, id: Seq<char>) -> Option<int>
    decreases s.len(),
{
    if s.len() == 0 {
        None
    } else {
        match session_index(s.drop_last(), id) {
            Some(i) => Some(i),
            None => if s.last().id@ == id { Some(s.len() - 1) } else { None },
        }
    }
}

proof fn lemma_session_index(s: Seq<DockerSession>, id: Seq<char>)
    ensures
        match session_index(s, id) {
            Some(i) => 0 <= i < s.len() && s[i].id@ == id && forall|k: int| 0 <= k < i ==> s[k].id@ != id,
            None => forall|k: int| 0 <= k < s.len() ==> s[k].id@ != id,
        },
    decreases s.len(),
{
    if s.len() > 0 {
        lemma_session_index(s.drop_last(), id);
        assert forall|k: int| 0 <= k < s.len() - 1 implies s.drop_last()[k] == s[k] by {}
    }
}

fn find_session(v: &Vec<DockerSession>, id: &str) -> (r: Option<usize>)
    ensures
        match r {
            Some(i) => i < v@.len() && session_index(v@, id@) == Some(i as int),
            None => session_index(v@, id@) is None,
        },
{
    proof { lemma_session_index(v@, id@); }
    let mut i: usize = 0;
    while i < v.len()
        invariant
            i <= v@.len(),
            forall|k: int| 0 <= k < i ==> v@[k].id@ != id@,
            match session_index(v@, id@) {
                Some(j) => 0 <= j < v@.len() && v@[j].id@ == id@ && forall|k: int| 0 <= k < j ==> v@[k].id@ != id@,
                None => forall|k: int| 0 <= k < v@.len() ==> v@[k].id@ != id@,
            },
        decreases v.len() - i,
    {
        if str_eq(v[i].id.as_str(), id) {
            return Some(i);
        }
        i = i + 1;
    }
    None
}

fn copy_list(v: &Vec<String>) -> (r: Vec<String>)
    ensures
        views(r@) == views(v@),
{
    let mut out: Vec<String> = Vec::new();
    let mut i: usize = 0;
    while i < v.len()
        invariant
            i <= v@.len(),
            out@.len() == i,
            forall|k: int| 0 <= k < i ==> out@[k]@ == v@[k]@,
        decreases v.len() - i,
    {
        out.push(owned(v[i].as_str()));
        i = i + 1;
    }
    assert(views(out@) =~= views(v@));
    out
}

fn copy_pairs(v: &Vec<(String, String)>) -> (r: Vec<(String, String)>)
    ensures
        pair_list(r@) == pair_list(v@),
{
    let mut out: Vec<(String, String)> = Vec::new();
    let mut i: usize = 0;
    while i < v.len()
        invariant
            i <= v@.len(),
            out@.len() == i,
            forall|k: int| 0 <= k < i ==> out@[k].0@ == v@[k].0@ && out@[k].1@ == v@[k].1@,
        decreases v.len() - i,
    {
        out.push((owned(v[i].0.as_str()), owned(v[i].1.as_str())));
        i = i + 1;
    }
    assert(pair_list(out@) =~= pair_list(v@));
    out
}

/// `s` is the running session for `name` started from `c` at `ts`.
pub open spec fn started_session(s: DockerSession, name: Seq<char>, c: DockerConfig, ts: u64) -> bool {
    &&& s.id@ == "devutils_"@ + name
    &&& s.name@ == name
    &&& s.image@ == c.image@
    &&& s.status == SessionStatus::Running
    &&& s.created_at == ts
    &&& views(s.ports@) == views(c.ports@)
    &&& views(s.volumes@) == views(c.volumes@)
    &&& pair_list(s.environment@) == pair_list(c.environment@)
}

/// Records that the container of session `name` started at `ts`: the
/// session, running, in place of an earlier one with its id.
pub fn record_created(store: &mut DockerSessions, name: &str, config: &DockerConfig, ts: u64) -> (r: String)
    ensures
        match session_index(old(store).sessions@, "devutils_"@ + name@) {
            Some(i) => final(store).sessions@.len() == old(store).sessions@.len()
                && (forall|k: int| 0 <= k < old(store).sessions@.len() && k != i ==> final(store).sessions@[k] == old(store).sessions@[k])
                && started_session(final(store).sessions@[i], name@, *config, ts),
            None => final(store).sessions@.drop_last() == old(store).sessions@
                && final(store).sessions@.len() == old(store).sessions@.len() + 1
                && started_session(final(store).sessions@.last(), name@, *config, ts),
        },
        r@ == "Created Docker session: "@ + ("devutils_"@ + name@),
{
    let id = cat("devutils_", name);
    let s = DockerSession {
        id: owned(id.as_str()),
        name: owned(name),
        image: owned(config.image.as_str()),
        status: SessionStatus::Running,
        created_at: ts,
        ports: copy_list(&config.ports),
        volumes: copy_list(&config.volumes),
        environment: copy_pairs(&config.environment),
    };
    match find_session(&store.sessions, id.as_str()) {
        Some(i) => {
            store.sessions.set(i, s);
        },
        None => {
            let ghost before = store.sessions@;
            store.sessions.push(s);
            assert(store.sessions@.drop_last() =~= before);
        },
    }
    cat("Created Docker session: ", id.as_str())
}

/// Marks the session `id` stopped.
pub fn mark_stopped(store: &mut DockerSessions, id: &str) -> (r: String)
    ensures
        match session_index(old(store).sessions@, id@) {
            Some(i) => final(store).sessions@ == old(store).sessions@.update(i,
                DockerSession { status: SessionStatus::Stopped, ..old(store).sessions@[i] }),
            None => final(store).sessions@ == old(store).sessions@,
        },
        r@ == "Stopped: "@ + id@,
{
    match find_session(&store.sessions, id) {
        Some(i) => {
            let ghost before = store.sessions@;
            let mut s = store.sessions.remove(i);
            s.status = SessionStatus::Stopped;
            store.sessions.insert(i, s);
            assert(store.sessions@ =~= before.update(i as int, DockerSession { status: SessionStatus::Stopped, ..before[i as int] }));
        },
        None => {},
    }
    cat("Stopped: ", id)
}

/// Forgets the session `id`.
pub fn forget_session(store: &mut DockerSessions, id: &str) -> (r: String)
    ensures
        match session_index(old(store).sessions@, id@) {
            Some(i) => final(store).sessions@ == old(store).sessions@.remove(i),
            None => final(store).sessions@ == old(store).sessions@,
        },
        r@ == "Removed: "@ + id@,
{
    match find_session(&store.sessions, id) {
        Some(i) => {
            store.sessions.remove(i);
        },
        None => {},
    }
    cat("Removed: ", id)
}

/// How many sessions there are.
pub fn docker_sessions_status(store: &DockerSessions) -> (r: String)
    ensures
        r@ == "Active sessions: "@ + dec(store.sessions@.len()),
{
    cat("Active sessions: ", u64_to_string(store.sessions.len() as u64).as_str())
}

} // verus!
