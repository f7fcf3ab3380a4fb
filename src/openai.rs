//! The configuration of the OpenAI-compatible chat backend.

use vstd::prelude::*;

verus! {

/// The configuration of an OpenAI-compatible chat backend: the model, the
/// optional prompt templates that replace the built-in ones, and where and
/// how to reach the service.
pub struct OpenAITranslator {
    pub model: String,
    pub system_prompt: Option<String>,
    pub user_prompt: Option<String>,
    pub api_base: String,
    pub api_key: String,
}

} // verus!
