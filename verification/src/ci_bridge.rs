//! The CI bridge: the repair task made from a failing CI log, and the
//! reply for its outcome.

use vstd::prelude::*;
use crate::text::{cat, owned};

verus! {

/// The bridge between a CI run and the agent, for one workspace.
pub struct CiBridge {
    pub workspace: String,
}

impl CiBridge {
    /// A bridge for `workspace`.
    pub fn new(workspace: String) -> (r: Self)
        ensures
            r.workspace == workspace,
    {
        CiBridge { workspace }
    }

    /// The task given to the agent for a failing CI log.
    pub fn repair_task(&self, log_content: &str) -> (r: String)
        ensures
            r@ == "Analyze and fix the following CI failure detected in the logs:\n\nLOGS:\n"@ + log_content@,
    {
        cat("Analyze and fix the following CI failure detected in the logs:\n\nLOGS:\n", log_content)
    }

    /// The reply once the agent has finished: whether it completed.
    pub fn repair_outcome(&self, completed: bool) -> (r: Result<String, String>)
        ensures
            completed ==> (r matches Ok(m) && m@ == "CI Failure successfully repaired and verified."@),
            !completed ==> (r matches Err(e) && e@ == "Failed to repair CI failure automatically."@),
    {
        if completed {
            Ok(owned("CI Failure successfully repaired and verified."))
        } else {
            Err(owned("Failed to repair CI failure automatically."))
        }
    }
}

} // verus!
