//! Shadow mode: from a change and its context, a prediction of the next
//! refactor, kept only when the model marks it as a suggestion.

use vstd::prelude::*;
use crate::ai::{active_provider, ProviderEnv};
use crate::model_router::ModelRouter;
use crate::text::{cat3, contains, push_str, str_contains};

verus! {

/// Predicts refactors in the background through a model router that may use
/// the cloud.
pub struct ShadowMode {
    pub router: ModelRouter,
}

impl ShadowMode {
    /// A shadow mode whose router prefers the cloud.
    pub fn new(env: &ProviderEnv) -> (r: Self)
        ensures
            !r.router.force_local,
            (r.router.client.api_key@, r.router.client.model@, r.router.client.base_url@) == active_provider(*env),
    {
        ShadowMode { router: ModelRouter::new(env, false) }
    }

    /// The prompt that asks for the next refactor after `diff`.
    pub fn predict_prompt(diff: &str, context: &str) -> (r: String)
        ensures
            r@ == "Analyze this Git diff and predict the next logical refactor to improve architecture:\n\nDIFF:\n"@
                + diff@ + "\n\nCONTEXT:\n"@ + context@,
    {
        let mut r = cat3("Analyze this Git diff and predict the next logical refactor to improve architecture:\n\nDIFF:\n", diff, "\n\nCONTEXT:\n");
        push_str(&mut r, context);
        r
    }

    /// The prediction in the model's reply: the reply when it holds
    /// `SUGGESTION:`, none otherwise; the model's error passes through.
    pub fn predict_refactor(response: Result<String, String>) -> (r: Result<Option<String>, String>)
        ensures
            match response {
                Ok(s) => if contains(s@, "SUGGESTION:"@) {
                    r matches Ok(Some(t)) && t@ == s@
                } else {
                    r matches Ok(None)
                },
                Err(e) => r matches Err(m) && m@ == e@,
            },
    {
        match response {
            Ok(s) => if str_contains(s.as_str(), "SUGGESTION:") { Ok(Some(s)) } else { Ok(None) },
            Err(e) => Err(e),
        }
    }
}

} // verus!
