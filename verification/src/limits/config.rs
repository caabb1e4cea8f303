//! The configuration of limits for one profile.

use vstd::prelude::*;

use crate::secret::Secret;

verus! {

/// How long a call may take where nothing is configured, in milliseconds.
pub const DEFAULT_TIMEOUT_MS: u64 = 2_000;

/// After how many consecutive failures the circuit breaker opens where nothing
/// is configured.
pub const DEFAULT_CIRCUIT_BREAKER_THRESHOLD: u32 = 5;

/// The configuration of the limits provider for one profile.
pub struct LimitsProfileConfig {
    /// The address of the provider; the paths of its interface are appended.
    pub provider_base_url: String,
    /// The secret that requests are signed with.
    pub hmac_secret: Secret,
    /// Whether only the charges of agents are checked.
    pub trigger_agentic_only: bool,
    /// What happens to a charge when the provider is unavailable: it is blocked
    /// if set, and allowed if not.
    pub fail_closed: bool,
    /// How long a call may take, in milliseconds.
    pub timeout_ms: u64,
    /// After how many consecutive failures the circuit breaker opens.
    pub circuit_breaker_threshold: u32,
}

impl Default for LimitsProfileConfig {
    fn default() -> (r: LimitsProfileConfig)
        ensures
            r.provider_base_url@ == Seq::<char>::empty(),
            r.hmac_secret@ == Seq::<char>::empty(),
            r.trigger_agentic_only,
            r.fail_closed,
            r.timeout_ms == DEFAULT_TIMEOUT_MS,
            r.circuit_breaker_threshold == DEFAULT_CIRCUIT_BREAKER_THRESHOLD,
    {
        LimitsProfileConfig {
            provider_base_url: String::new(),
            hmac_secret: Secret::new(String::new()),
            trigger_agentic_only: true,
            fail_closed: true,
            timeout_ms: DEFAULT_TIMEOUT_MS,
            circuit_breaker_threshold: DEFAULT_CIRCUIT_BREAKER_THRESHOLD,
        }
    }
}

impl Clone for LimitsProfileConfig {
    fn clone(&self) -> (r: LimitsProfileConfig)
        ensures
            r == *self,
    {
        LimitsProfileConfig {
            provider_base_url: self.provider_base_url.clone(),
            hmac_secret: self.hmac_secret.clone(),
            trigger_agentic_only: self.trigger_agentic_only,
            fail_closed: self.fail_closed,
            timeout_ms: self.timeout_ms,
            circuit_breaker_threshold: self.circuit_breaker_threshold,
        }
    }
}

} // verus!
