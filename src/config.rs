//! The two service credentials the enrichment needs.
use vstd::prelude::*;

verus! {

/// Credentials of the lyrics database and of the text-generation service.
#[derive(Debug, Clone)]
pub struct ApiConfig {
    pub genius_token: String,
    pub anthropic_key: String,
}

#[derive(Debug, Clone)]
pub struct Config {
    pub api: ApiConfig,
}

impl Default for ApiConfig {
    fn default() -> (r: Self)
        ensures
            r.genius_token@.len() == 0,
            r.anthropic_key@.len() == 0,
    {
        ApiConfig { genius_token: String::new(), anthropic_key: String::new() }
    }
}

impl Default for Config {
    fn default() -> (r: Self)
        ensures
            r.api.genius_token@.len() == 0,
            r.api.anthropic_key@.len() == 0,
    {
        Config { api: ApiConfig::default() }
    }
}

impl Config {
    /// Both credentials are present.
    pub open spec fn keys_present(&self) -> bool {
        self.api.genius_token@.len() > 0 && self.api.anthropic_key@.len() > 0
    }

    pub fn has_keys(&self) -> (r: bool)
        ensures
            r == self.keys_present(),
    {
        !self.api.genius_token.as_str().is_empty() && !self.api.anthropic_key.as_str().is_empty()
    }
}

} // verus!
