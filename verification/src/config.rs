//! The resolved configuration one invocation runs with. Loading it from disk
//! is the config collaborator's work, outside this library; the pipeline only
//! needs the three fields.

use vstd::prelude::*;

verus! {

/// The configuration of one invocation: which model to address, the
/// credential to present, and the system prompt to open the prompt with.
/// Immutable for the lifetime of the invocation.
pub struct Config {
    pub model: String,
    pub api_key: String,
    pub system_prompt: String,
}

impl Config {
    /// Bundles the three fields the config collaborator supplies.
    pub fn new(model: String, api_key: String, system_prompt: String) -> (c: Config)
        ensures
            c.model == model,
            c.api_key == api_key,
            c.system_prompt == system_prompt,
    {
        Config { model, api_key, system_prompt }
    }
}

} // verus!
