//! Saved agent state.

use vstd::prelude::*;
use crate::ai::TokenUsage;
use crate::text::owned;

verus! {

/// The saved progress of an agent run: its task, how far it got, what it
/// used, and where it works.
#[derive(Debug, Clone)]
pub struct AgentCheckpoint {
    pub task: String,
    pub current_iteration: usize,
    pub total_usage: TokenUsage,
    pub workspace: String,
}

impl AgentCheckpoint {
    /// Where agent state is saved by default.
    pub fn default_path() -> (r: String)
        ensures
            r@ == ".devutils/agent_state.json"@,
    {
        owned(".devutils/agent_state.json")
    }
}

} // verus!
