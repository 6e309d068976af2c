//! Where a model call goes: the cloud first with a fallback to a local
//! model, or the local model alone; and the settings of each orchestration
//! phase.

use vstd::prelude::*;
use crate::ai::{active_provider, AIClient, GenerateOptions, ProviderEnv, TokenUsage};
use crate::text::{cat, cat3, push_str, str_eq};

verus! {

/// Where a model runs.
#[derive(Debug, Clone, Copy, PartialEq, Eq, Structural)]
pub enum ModelSource {
    Cloud,
    Local,
}

/// Routes requests to the cloud provider, or only to a local model.
pub struct ModelRouter {
    pub client: AIClient,
    pub force_local: bool,
}

/// What the route comes to after the cloud answered: its answer, or a
/// request for the local model.
#[derive(Debug)]
pub enum CloudOutcome {
    /// The cloud's answer and usage.
    Answered(String, TokenUsage),
    /// The cloud failed with this error; ask the local model.
    FallBack(String),
}

impl ModelRouter {
    /// A router with the provider that the environment selects.
    pub fn new(env: &ProviderEnv, force_local: bool) -> (r: Self)
        ensures
            (r.client.api_key@, r.client.model@, r.client.base_url@) == active_provider(*env),
            r.force_local == force_local,
    {
        ModelRouter { client: AIClient::new(env), force_local }
    }

    /// Where a request goes first: the local model when forced, else the cloud.
    pub fn first_source(&self) -> (r: ModelSource)
        ensures
            r == if self.force_local { ModelSource::Local } else { ModelSource::Cloud },
    {
        if self.force_local { ModelSource::Local } else { ModelSource::Cloud }
    }

    /// What the cloud's reply comes to: its answer, or a fallback to the
    /// local model with the warning to print.
    pub fn after_cloud(reply: Result<(String, TokenUsage), String>) -> (r: CloudOutcome)
        ensures
            match reply {
                Ok((s, u)) => r matches CloudOutcome::Answered(t, v) && t@ == s@ && v == u,
                Err(e) => r matches CloudOutcome::FallBack(w) && w@ == "\u{26A0}\u{FE0F} Cloud API failed: "@ + e@
                    + ". Falling back to local model..."@,
            },
    {
        match reply {
            Ok((s, u)) => CloudOutcome::Answered(s, u),
            Err(e) => CloudOutcome::FallBack(cat3("\u{26A0}\u{FE0F} Cloud API failed: ", e.as_str(), ". Falling back to local model...")),
        }
    }

    /// The local model's reply as the route's result, with no usage counted;
    /// its error says whether the local model ran as a fallback.
    pub fn local_result(reply: Result<String, String>, fallback: bool) -> (r: Result<(String, TokenUsage), String>)
        ensures
            match reply {
                Ok(s) => r matches Ok((t, u)) && t@ == s@ && u == (TokenUsage { prompt_tokens: 0, completion_tokens: 0, total_tokens: 0 }),
                Err(e) => r matches Err(m) && m@ == (if fallback { "Local fallback failed: "@ } else { "Local model failed: "@ }) + e@,
            },
    {
        match reply {
            Ok(s) => Ok((s, TokenUsage::default())),
            Err(e) => if fallback {
                Err(cat("Local fallback failed: ", e.as_str()))
            } else {
                Err(cat("Local model failed: ", e.as_str()))
            },
        }
    }
}

/// The temperature (in thousandths) of an orchestration phase: planning is
/// exploratory, implementation precise, verification strict.
pub open spec fn phase_temperature(phase: Seq<char>) -> u32 {
    if phase == "PLANNING"@ {
        800
    } else if phase == "IMPLEMENTATION"@ {
        200
    } else if phase == "VERIFICATION"@ {
        0
    } else {
        700
    }
}

/// The options of a request made in an orchestration phase: the defaults
/// with the phase's temperature.
pub fn orchestrate_options(phase: &str) -> (r: GenerateOptions)
    ensures
        r.temperature_milli == phase_temperature(phase@),
        r.system_instruction is None && !r.grounding && r.files@.len() == 0 && r.cache_id is None,
        r.max_tokens == 4096,
{
    let t: u32 = if str_eq(phase, "PLANNING") {
        800
    } else if str_eq(phase, "IMPLEMENTATION") {
        200
    } else if str_eq(phase, "VERIFICATION") {
        0
    } else {
        700
    };
    let mut o = GenerateOptions::default();
    o.temperature_milli = t;
    o
}

/// The error of a request that failed in an orchestration phase.
pub fn orchestrate_error(phase: &str, e: &str) -> (r: String)
    ensures
        r@ == "["@ + phase@ + "] API failed: "@ + e@,
{
    let mut r = cat3("[", phase, "] API failed: ");
    push_str(&mut r, e);
    r
}

} // verus!
