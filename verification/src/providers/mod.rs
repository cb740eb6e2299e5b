//! The code-suggestion providers that the server can ask.

use vstd::prelude::*;

pub mod codeium;
pub mod codeium_auth;
pub mod codeium_types;
pub mod llm_api;

verus! {

/// How to reach a model: where it listens, and the headers and parameters
/// that every call to it carries.
pub struct AiModelOptions {
    pub url: String,
    pub headers: Vec<(String, String)>,
    pub params: Vec<(String, String)>,
}

} // verus!
