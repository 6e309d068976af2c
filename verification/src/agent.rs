//! Agent bookkeeping kept for older callers: it tracks no agent.

use vstd::prelude::*;
use crate::text::owned;

verus! {

/// An agent and the task it works on.
#[derive(Debug, Clone)]
pub struct Agent {
    pub id: String,
    pub task: String,
    pub status: AgentStatus,
}

/// Where an agent stands.
#[derive(Debug, Clone, Copy, PartialEq, Eq, Structural)]
pub enum AgentStatus {
    Running,
    Completed,
    Failed,
}

/// The agents: there are none.
pub fn list_agents() -> (r: Vec<Agent>)
    ensures
        r@.len() == 0,
{
    Vec::new()
}

/// Creating an agent always answers with the id `agent-id-1`.
pub fn create_agent(_name: &str, _task: &str) -> (r: Result<String, String>)
    ensures
        r matches Ok(id) && id@ == "agent-id-1"@,
{
    Ok(owned("agent-id-1"))
}

/// Killing an agent always answers that it was killed.
pub fn kill_agent(_id: &str) -> (r: Result<String, String>)
    ensures
        r matches Ok(m) && m@ == "Agent killed"@,
{
    Ok(owned("Agent killed"))
}

/// Spawning agents in parallel gives no agent ids.
pub fn spawn_parallel_agents(_tasks: Vec<String>) -> (r: Vec<String>)
    ensures
        r@.len() == 0,
{
    Vec::new()
}

} // verus!
