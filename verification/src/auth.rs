//! API-key authentication decisions.
use crate::config::AuthConfig;
use crate::text::{join3, owned, str_eq};
use vstd::prelude::*;

verus! {

/// What to do with a request.
#[derive(Debug, Clone, Copy, PartialEq, Eq, Structural)]
pub enum AuthDecision {
    /// Pass the request on.
    Allow,
    /// A key was presented and is not configured: unauthorized.
    InvalidKey,
    /// No key was presented: unauthorized.
    MissingKey,
}

/// Whether some configured key equals the presented one.
pub open spec fn key_known(config: AuthConfig, key: Seq<char>) -> bool {
    exists|i: int| 0 <= i < config.api_keys@.len() && (#[trigger] config.api_keys@[i]).key@ == key
}

/// The decision for a request presenting `presented` in the key header.
pub open spec fn auth_decision(config: AuthConfig, presented: Option<Seq<char>>) -> AuthDecision {
    if !config.enabled {
        AuthDecision::Allow
    } else {
        match presented {
            Some(k) => if key_known(config, k) {
                AuthDecision::Allow
            } else {
                AuthDecision::InvalidKey
            },
            None => AuthDecision::MissingKey,
        }
    }
}

/// Decides a request: allowed when authentication is off or the presented
/// key (the header's value, when it is visible text) is configured.
pub fn authorize(config: &AuthConfig, presented: Option<&str>) -> (r: AuthDecision)
    ensures
        r == auth_decision(
            *config,
            match presented {
                Some(k) => Some(k@),
                None => None,
            },
        ),
{
    if !config.enabled {
        return AuthDecision::Allow;
    }
    match presented {
        None => AuthDecision::MissingKey,
        Some(token) => {
            let n = config.api_keys.len();
            for i in 0..n
                invariant
                    n == config.api_keys@.len(),
                    config.enabled,
                    presented == Some(token),
                    forall|j: int| 0 <= j < i ==> (#[trigger] config.api_keys@[j]).key@ != token@,
            {
                if str_eq(config.api_keys[i].key.as_str(), token) {
                    assert(key_known(*config, token@)) by {
                        assert(config.api_keys@[i as int].key@ == token@);
                    }
                    return AuthDecision::Allow;
                }
            }
            AuthDecision::InvalidKey
        },
    }
}

/// The message an unauthorized answer carries.
pub open spec fn unauthorized_message_spec(config: AuthConfig, decision: AuthDecision) -> Seq<char> {
    match decision {
        AuthDecision::MissingKey => "Missing API key header '"@ + config.header_name@ + "'"@,
        _ => "Invalid API key"@,
    }
}

/// The message of an unauthorized answer for a refused request.
pub fn unauthorized_message(config: &AuthConfig, decision: AuthDecision) -> (r: String)
    ensures
        r@ == unauthorized_message_spec(*config, decision),
{
    match decision {
        AuthDecision::MissingKey => join3("Missing API key header '", config.header_name.as_str(), "'"),
        _ => owned("Invalid API key"),
    }
}

} // verus!
