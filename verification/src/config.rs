//! How the completion client is set up.

use vstd::prelude::*;
use vstd::string::*;

verus! {

/// The endpoint that requests are sent to.
pub const API_BASE: &'static str = "https://ai.fakeopen.com";

/// The key that stands in where none is configured. The endpoint refuses
/// it, so a run without a key fails when the request is sent, not before.
pub const UNSET_API_KEY: &'static str = "sk-NOT-SET";

/// What the completion client is constructed with.
#[derive(Debug, Clone, PartialEq, Eq)]
pub struct ClientConfig {
    pub api_base: String,
    pub api_key: String,
}

/// The key that is used, given the one that is configured (if any).
pub open spec fn effective_key(configured: Option<Seq<char>>) -> Seq<char> {
    match configured {
        Some(key) => key,
        None => UNSET_API_KEY@,
    }
}

impl ClientConfig {
    /// The configuration for the key that the user has configured, if any.
    /// A missing key is not an error here.
    pub fn new(configured_key: Option<String>) -> (config: ClientConfig)
        ensures
            config.api_base@ == API_BASE@,
            config.api_key@ == effective_key(
                match configured_key {
                    Some(key) => Some(key@),
                    None => None,
                },
            ),
    {
        let api_key = match configured_key {
            Some(key) => key,
            None => String::from_str(UNSET_API_KEY),
        };
        ClientConfig { api_base: String::from_str(API_BASE), api_key }
    }
}

} // verus!
