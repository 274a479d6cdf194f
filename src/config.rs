use vstd::prelude::*;

verus! {

/// The service settings the session engine reads.
#[derive(Clone, Debug)]
pub struct AppConfig {
    pub relay_identifier: String,
    pub pubkey_whitelist: Vec<String>,
    pub min_pow_difficulty: u16,
    pub max_pow_difficulty: u16,
}

impl AppConfig {
    pub fn new(
        relay_identifier: String,
        pubkey_whitelist: Vec<String>,
        min_pow_difficulty: u16,
        max_pow_difficulty: u16,
    ) -> (r: Self)
        ensures
            r.relay_identifier == relay_identifier,
            r.pubkey_whitelist == pubkey_whitelist,
            r.min_pow_difficulty == min_pow_difficulty,
            r.max_pow_difficulty == max_pow_difficulty,
    {
        Self { relay_identifier, pubkey_whitelist, min_pow_difficulty, max_pow_difficulty }
    }
}

} // verus!
