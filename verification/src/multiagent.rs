//! Multi-agent bookkeeping: spawned agents kept by id with a running counter,
//! their listing and statistics, and the prompts of parallel subtasks.

use vstd::prelude::*;
use crate::text::{cat, cat3, dec, now_millis, owned, push_str, str_eq, u64_to_string};

verus! {

/// An agent spawned for a task.
#[derive(Debug, Clone)]
pub struct AgentInfo {
    pub id: String,
    pub name: String,
    pub task: String,
    pub state: String,
    pub created_at: u64,
    pub tools_used: usize,
}

/// The spawned agents and the counter that numbers them.
#[derive(Debug, Clone)]
pub struct AgentStore {
    pub agents: Vec<AgentInfo>,
    pub counter: u64,
}

impl AgentStore {
    /// A store with no agent and the counter at zero.
    pub fn new() -> (r: Self)
        ensures
            r.agents@.len() == 0,
            r.counter == 0,
    {
        AgentStore { agents: Vec::new(), counter: 0 }
    }
}

/// The position of the first agent with id `id`.
pub open spec fn agent_index(s: Seq<AgentInfo>, id: Seq<char>) -> Option<int>
    decreases s.len(),
{
    if s.len() == 0 {
        None
    } else {
        match agent_index(s.drop_last(), id) {
            Some(i) => Some(i),
            None => if s.last().id@ == id { Some(s.len() - 1) } else { None },
        }
    }
}

proof fn lemma_agent_index(s: Seq<AgentInfo>, id: Seq<char>)
    ensures
        match agent_index(s, id) {
            Some(i) => 0 <= i < s.len() && s[i].id@ == id && forall|k: int| 0 <= k < i ==> s[k].id@ != id,
            None => forall|k: int| 0 <= k < s.len() ==> s[k].id@ != id,
        },
    decreases s.len(),
{
    if s.len() > 0 {
        lemma_agent_index(s.drop_last(), id);
        assert forall|k: int| 0 <= k < s.len() - 1 implies s.drop_last()[k] == s[k] by {}
    }
}

fn find_agent(v: &Vec<AgentInfo>, id: &str) -> (r: Option<usize>)
    ensures
        match r {
            Some(i) => i < v@.len() && agent_index(v@, id@) == Some(i as int),
            None => agent_index(v@, id@) is None,
        },
{
    proof { lemma_agent_index(v@, id@); }
    let mut i: usize = 0;
    while i < v.len()
        invariant
            i <= v@.len(),
            forall|k: int| 0 <= k < i ==> v@[k].id@ != id@,
            match agent_index(v@, id@) {
                Some(j) => 0 <= j < v@.len() && v@[j].id@ == id@ && forall|k: int| 0 <= k < j ==> v@[k].id@ != id@,
                None => forall|k: int| 0 <= k < v@.len() ==> v@[k].id@ != id@,
            },
        decreases v.len() - i,
    {
        if str_eq(v[i].id.as_str(), id) {
            return Some(i);
        }
        i = i + 1;
    }
    None
}

/// `a` is the agent spawned as `id` for `name` and `task` at `ts`: running,
/// no tool used yet.
pub open spec fn spawned_agent(a: AgentInfo, id: Seq<char>, name: Seq<char>, task: Seq<char>, ts: u64) -> bool {
    &&& a.id@ == id
    &&& a.name@ == name
    &&& a.task@ == task
    &&& a.state@ == "Running"@
    &&& a.created_at == ts
    &&& a.tools_used == 0
}

/// `after` is `before` with an agent stored under `id`: in place of the
/// first agent with that id, or appended.
pub open spec fn agent_stored(before: Seq<AgentInfo>, after: Seq<AgentInfo>, id: Seq<char>, name: Seq<char>, task: Seq<char>, ts: u64) -> bool {
    match agent_index(before, id) {
        Some(i) => after.len() == before.len()
            && (forall|k: int| 0 <= k < before.len() && k != i ==> after[k] == before[k])
            && spawned_agent(after[i], id, name, task, ts),
        None => after.drop_last() == before && after.len() == before.len() + 1
            && spawned_agent(after.last(), id, name, task, ts),
    }
}

/// Spawns an agent at `ts` ms: the counter goes up by one and names it
/// `<name>_<counter>`.
pub fn spawn_multiagent_at(store: &mut AgentStore, name: &str, task: String, ts: u64) -> (r: String)
    requires
        old(store).counter < u64::MAX,
    ensures
        final(store).counter == old(store).counter + 1,
        agent_stored(old(store).agents@, final(store).agents@, name@ + "_"@ + dec(final(store).counter as nat), name@, task@, ts),
        r@ == "Spawned agent "@ + name@ + "_"@ + dec(final(store).counter as nat) + " with task: "@ + task@,
{
    store.counter = store.counter + 1;
    let id = cat3(name, "_", u64_to_string(store.counter).as_str());
    let info = AgentInfo {
        id: owned(id.as_str()),
        name: owned(name),
        task: owned(task.as_str()),
        state: owned("Running"),
        created_at: ts,
        tools_used: 0,
    };
    match find_agent(&store.agents, id.as_str()) {
        Some(i) => {
            store.agents.set(i, info);
        },
        None => {
            let ghost before = store.agents@;
            store.agents.push(info);
            assert(store.agents@.drop_last() =~= before);
        },
    }
    let mut r = cat3("Spawned agent ", id.as_str(), " with task: ");
    push_str(&mut r, task.as_str());
    r
}

/// Spawns an agent now.
pub fn spawn_multiagent(store: &mut AgentStore, name: &str, task: String) -> (r: String)
    requires
        old(store).counter < u64::MAX,
    ensures
        final(store).counter == old(store).counter + 1,
        exists|ts: u64| agent_stored(old(store).agents@, final(store).agents@,
            name@ + "_"@ + dec(final(store).counter as nat), name@, task@, ts),
        r@ == "Spawned agent "@ + name@ + "_"@ + dec(final(store).counter as nat) + " with task: "@ + task@,
{
    let ts = now_millis();
    spawn_multiagent_at(store, name, task, ts)
}

/// The listing line of an agent.
pub open spec fn agent_line(a: AgentInfo) -> Seq<char> {
    "  "@ + a.id@ + " - "@ + a.name@ + " (state: "@ + a.state@ + ")\n"@
}

/// The listing lines of agents, in order.
pub open spec fn agent_lines(s: Seq<AgentInfo>) -> Seq<char>
    decreases s.len(),
{
    if s.len() == 0 { seq![] } else { agent_lines(s.drop_last()) + agent_line(s.last()) }
}

/// The listing of the agents.
pub fn list_multiagents(store: &AgentStore) -> (r: String)
    ensures
        r@ == if store.agents@.len() == 0 {
            "No active agents"@
        } else {
            "Active Agents:\n"@ + agent_lines(store.agents@)
        },
{
    if store.agents.len() == 0 {
        return owned("No active agents");
    }
    let mut out = owned("Active Agents:\n");
    let mut i: usize = 0;
    while i < store.agents.len()
        invariant
            i <= store.agents@.len(),
            out@ == "Active Agents:\n"@ + agent_lines(store.agents@.subrange(0, i as int)),
        decreases store.agents.len() - i,
    {
        assert(store.agents@.subrange(0, i + 1).drop_last() =~= store.agents@.subrange(0, i as int));
        let a = &store.agents[i];
        push_str(&mut out, "  ");
        push_str(&mut out, a.id.as_str());
        push_str(&mut out, " - ");
        push_str(&mut out, a.name.as_str());
        push_str(&mut out, " (state: ");
        push_str(&mut out, a.state.as_str());
        push_str(&mut out, ")\n");
        i = i + 1;
    }
    assert(store.agents@.subrange(0, store.agents@.len() as int) =~= store.agents@);
    out
}

/// The statistics of the agent with id `id`.
pub fn get_multiagent_stats(store: &AgentStore, id: &str) -> (r: String)
    ensures
        r@ == match agent_index(store.agents@, id@) {
            Some(i) => {
                let a = store.agents@[i];
                "Agent: "@ + a.id@ + "\n  Name: "@ + a.name@ + "\n  Task: "@ + a.task@ + "\n  State: "@ + a.state@
                    + "\n  Tools Used: "@ + dec(a.tools_used as nat) + "\n  Created: "@ + dec(a.created_at as nat)
            },
            None => "Agent not found: "@ + id@,
        },
{
    match find_agent(&store.agents, id) {
        Some(i) => {
            let a = &store.agents[i];
            let mut r = cat3("Agent: ", a.id.as_str(), "\n  Name: ");
            push_str(&mut r, a.name.as_str());
            push_str(&mut r, "\n  Task: ");
            push_str(&mut r, a.task.as_str());
            push_str(&mut r, "\n  State: ");
            push_str(&mut r, a.state.as_str());
            push_str(&mut r, "\n  Tools Used: ");
            push_str(&mut r, u64_to_string(a.tools_used as u64).as_str());
            push_str(&mut r, "\n  Created: ");
            push_str(&mut r, u64_to_string(a.created_at).as_str());
            r
        },
        None => cat("Agent not found: ", id),
    }
}

/// The prompt of subtask `i` (counted from zero) of a parallel run.
pub fn subtask_prompt(i: usize, task: &str) -> (r: String)
    requires
        i < usize::MAX,
    ensures
        r@ == "Execute subtask "@ + dec((i + 1) as nat) + ":\n"@ + task@,
{
    let n = (i + 1) as u64;
    let mut r = cat3("Execute subtask ", u64_to_string(n).as_str(), ":\n");
    push_str(&mut r, task);
    r
}

/// The result text of subtask `i` (counted from zero) whose call failed.
pub fn subtask_failure(i: usize, error: &str) -> (r: String)
    requires
        i < usize::MAX,
    ensures
        r@ == "Subtask "@ + dec((i + 1) as nat) + " failed: "@ + error@,
{
    let n = (i + 1) as u64;
    let mut r = cat3("Subtask ", u64_to_string(n).as_str(), " failed: ");
    push_str(&mut r, error);
    r
}

} // verus!
