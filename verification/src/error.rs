//! The library's error type and its messages.

use vstd::prelude::*;
use crate::text::cat;

verus! {

/// What went wrong.
#[derive(Debug, Clone)]
pub enum DevUtilsError {
    ApiError(String),
    IoError(String),
    ParseError(String),
    AgentError(String),
    VectorStoreError(String),
    ConfigError(String),
    General(String),
}

/// The message of an error.
pub open spec fn error_text(e: DevUtilsError) -> Seq<char> {
    match e {
        DevUtilsError::ApiError(m) => "API Request Failed: "@ + m@,
        DevUtilsError::IoError(m) => "I/O Error: "@ + m@,
        DevUtilsError::ParseError(m) => "Parse Error: "@ + m@,
        DevUtilsError::AgentError(m) => "Agent Execution Failed: "@ + m@,
        DevUtilsError::VectorStoreError(m) => "Vector Store Error: "@ + m@,
        DevUtilsError::ConfigError(m) => "Configuration Error: "@ + m@,
        DevUtilsError::General(m) => "General Error: "@ + m@,
    }
}

impl DevUtilsError {
    /// The message of this error.
    pub fn to_string(&self) -> (r: String)
        ensures
            r@ == error_text(*self),
    {
        match self {
            DevUtilsError::ApiError(m) => cat("API Request Failed: ", m.as_str()),
            DevUtilsError::IoError(m) => cat("I/O Error: ", m.as_str()),
            DevUtilsError::ParseError(m) => cat("Parse Error: ", m.as_str()),
            DevUtilsError::AgentError(m) => cat("Agent Execution Failed: ", m.as_str()),
            DevUtilsError::VectorStoreError(m) => cat("Vector Store Error: ", m.as_str()),
            DevUtilsError::ConfigError(m) => cat("Configuration Error: ", m.as_str()),
            DevUtilsError::General(m) => cat("General Error: ", m.as_str()),
        }
    }
}

} // verus!
