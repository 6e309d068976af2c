//! Incident response: the incident record, the prompts that analyse an
//! incident or ask for a fix, and the health report.

use vstd::prelude::*;
use crate::text::{cat, cat3, owned};

verus! {

/// An analysed incident.
#[derive(Debug, Clone)]
pub struct Incident {
    pub id: String,
    pub description: String,
    pub severity: String,
    pub root_cause: Option<String>,
    pub fix_suggested: Option<String>,
}

/// The prompt that asks the model to analyse an incident.
pub fn incident_prompt(description: &str) -> (r: String)
    ensures
        r@ == "Analyze incident: "@ + description@ + ". Return id, severity, root_cause, fix_suggested"@,
{
    cat3("Analyze incident: ", description, ". Return id, severity, root_cause, fix_suggested")
}

/// The incident record made from the model's analysis: always `INC-001`,
/// severity `high`, the analysis as root cause, and "Check logs" as fix.
pub fn analyze_incident(description: &str, analysis: &str) -> (r: Result<Incident, String>)
    ensures
        r matches Ok(i) && i.id@ == "INC-001"@ && i.description@ == description@ && i.severity@ == "high"@
            && (i.root_cause matches Some(c) && c@ == analysis@)
            && (i.fix_suggested matches Some(f) && f@ == "Check logs"@),
{
    Ok(Incident {
        id: owned("INC-001"),
        description: owned(description),
        severity: owned("high"),
        root_cause: Some(owned(analysis)),
        fix_suggested: Some(owned("Check logs")),
    })
}

/// The prompt that asks the model for a fix.
pub fn suggest_fix_prompt(error: &str) -> (r: String)
    ensures
        r@ == "Suggest fix for: "@ + error@,
{
    cat("Suggest fix for: ", error)
}

/// The health report: a fixed reading.
pub fn health_check() -> (r: Result<String, String>)
    ensures
        r matches Ok(s) && s@ == "CPU: 45% | Memory: 2.1GB"@,
{
    Ok(owned("CPU: 45% | Memory: 2.1GB"))
}

} // verus!
