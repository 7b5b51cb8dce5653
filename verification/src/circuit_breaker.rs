//! Per-provider circuit breaker: after enough consecutive failures a
//! provider's circuit opens and refuses work until a reset timeout has passed;
//! then one trial request is let through (half-open), whose outcome closes or
//! reopens the circuit.
//!
//! Time is the caller's monotonic clock, in nanoseconds.
use crate::config::CircuitBreakerConfig;
use crate::text::owned;
use dashmap::DashMap;
use vstd::prelude::*;

verus! {

#[derive(Debug, Clone, Copy, PartialEq, Eq, Structural)]
pub enum CircuitState {
    Closed,
    Open,
    HalfOpen,
}

/// The breaker state of one provider.
#[derive(Debug, Clone, Copy, PartialEq, Eq, Structural)]
pub struct ProviderCircuit {
    pub state: CircuitState,
    pub consecutive_failures: u32,
    /// When the last failure was recorded, in nanoseconds.
    pub last_failure_time: Option<u64>,
    pub failure_threshold: u32,
    pub reset_timeout_secs: u64,
}

/// Whole seconds elapsed from `then` to `now`; zero when `now` is earlier.
pub open spec fn elapsed_secs(then: u64, now: u64) -> nat {
    if now >= then {
        ((now - then) / 1_000_000_000) as nat
    } else {
        0
    }
}

/// A fresh circuit for a configuration.
pub open spec fn fresh_circuit(config: CircuitBreakerConfig) -> ProviderCircuit {
    ProviderCircuit {
        state: CircuitState::Closed,
        consecutive_failures: 0,
        last_failure_time: None,
        failure_threshold: if config.failure_threshold >= 1 {
            config.failure_threshold
        } else {
            1
        },
        reset_timeout_secs: config.reset_timeout_secs,
    }
}

/// Whether a request may pass at time `now`, and the circuit afterwards.
pub open spec fn allow_step(c: ProviderCircuit, now: u64) -> (ProviderCircuit, bool) {
    match c.state {
        CircuitState::Closed => (c, true),
        CircuitState::Open => match c.last_failure_time {
            Some(t) => if elapsed_secs(t, now) >= c.reset_timeout_secs {
                (ProviderCircuit { state: CircuitState::HalfOpen, ..c }, true)
            } else {
                (c, false)
            },
            None => (c, false),
        },
        CircuitState::HalfOpen => (c, false),
    }
}

/// The circuit after a success.
pub open spec fn success_step(c: ProviderCircuit) -> ProviderCircuit {
    ProviderCircuit {
        state: CircuitState::Closed,
        consecutive_failures: 0,
        last_failure_time: None,
        ..c
    }
}

/// The circuit after a failure at time `now`.
pub open spec fn failure_step(c: ProviderCircuit, now: u64) -> ProviderCircuit {
    let failures = if c.consecutive_failures < u32::MAX {
        (c.consecutive_failures + 1) as u32
    } else {
        u32::MAX
    };
    ProviderCircuit {
        state: if c.state == CircuitState::HalfOpen || failures >= c.failure_threshold {
            CircuitState::Open
        } else {
            c.state
        },
        consecutive_failures: failures,
        last_failure_time: Some(now),
        ..c
    }
}

impl ProviderCircuit {
    pub fn new(config: &CircuitBreakerConfig) -> (c: Self)
        ensures
            c == fresh_circuit(*config),
    {
        ProviderCircuit {
            state: CircuitState::Closed,
            consecutive_failures: 0,
            last_failure_time: None,
            failure_threshold: if config.failure_threshold >= 1 {
                config.failure_threshold
            } else {
                1
            },
            reset_timeout_secs: config.reset_timeout_secs,
        }
    }

    /// Whether a request may pass now; an open circuit whose reset timeout
    /// has passed turns half-open and lets this one request through.
    pub fn should_allow(&mut self, now: u64) -> (r: bool)
        ensures
            (*final(self), r) == allow_step(*old(self), now),
    {
        match self.state {
            CircuitState::Closed => true,
            CircuitState::Open => {
                if let Some(last_failure) = self.last_failure_time {
                    let elapsed = if now >= last_failure {
                        (now - last_failure) / 1_000_000_000
                    } else {
                        0
                    };
                    if elapsed >= self.reset_timeout_secs {
                        self.state = CircuitState::HalfOpen;
                        return true;
                    }
                }
                false
            },
            CircuitState::HalfOpen => false,
        }
    }

    pub fn record_success(&mut self)
        ensures
            *final(self) == success_step(*old(self)),
    {
        self.state = CircuitState::Closed;
        self.consecutive_failures = 0;
        self.last_failure_time = None;
    }

    pub fn record_failure(&mut self, now: u64)
        ensures
            *final(self) == failure_step(*old(self), now),
    {
        self.consecutive_failures = self.consecutive_failures.saturating_add(1);
        self.last_failure_time = Some(now);
        if self.state == CircuitState::HalfOpen || self.consecutive_failures
            >= self.failure_threshold {
            self.state = CircuitState::Open;
        }
    }
}

#[verifier::external_type_specification]
#[verifier::external_body]
#[verifier::reject_recursive_types(K)]
#[verifier::reject_recursive_types(V)]
#[verifier::reject_recursive_types(S)]
pub struct ExDashMap<K, V, S>(DashMap<K, V, S>);

/// The map of circuits, keyed by provider name.
pub type CircuitMap = DashMap<String, ProviderCircuit>;

/// The circuits a `DashMap` holds, by provider name.
pub uninterp spec fn circuit_table(map: DashMap<String, ProviderCircuit>) -> Map<
    Seq<char>,
    ProviderCircuit,
>;

/// Calls `DashMap::new`: an empty map.
#[verifier::external_body]
fn circuits_new() -> (fresh: CircuitMap)
    ensures
        circuit_table(fresh).dom() == Set::<Seq<char>>::empty(),
{
    DashMap::new()
}

/// Calls `DashMap::get` and copies the circuit out.
#[verifier::external_body]
fn circuits_get(map: &DashMap<String, ProviderCircuit>, key: &str) -> (r: Option<ProviderCircuit>)
    ensures
        r matches Some(c) ==> circuit_table(*map).contains_key(key@) && c == circuit_table(
            *map,
        )[key@],
        r is None ==> !circuit_table(*map).contains_key(key@),
{
    map.get(key).map(|entry| *entry)
}

/// Calls `DashMap::insert`: sets the circuit of a key.
#[verifier::external_body]
fn circuits_insert(map: &mut DashMap<String, ProviderCircuit>, key: String, circuit: ProviderCircuit)
    ensures
        circuit_table(*final(map)) == circuit_table(*old(map)).insert(key@, circuit),
{
    map.insert(key, circuit);
}

/// Circuit breakers of all providers, created on first use from one configuration.
#[derive(Debug)]
pub struct CircuitBreakerManager {
    circuits: DashMap<String, ProviderCircuit>,
    config: CircuitBreakerConfig,
}

/// The circuit of a provider: its own, or a fresh one.
pub open spec fn circuit_or_fresh(
    table: Map<Seq<char>, ProviderCircuit>,
    config: CircuitBreakerConfig,
    provider: Seq<char>,
) -> ProviderCircuit {
    if table.contains_key(provider) {
        table[provider]
    } else {
        fresh_circuit(config)
    }
}

impl CircuitBreakerManager {
    /// The circuits, by provider name.
    pub closed spec fn table(&self) -> Map<Seq<char>, ProviderCircuit> {
        circuit_table(self.circuits)
    }

    /// The configuration new circuits are made from.
    pub closed spec fn settings(&self) -> CircuitBreakerConfig {
        self.config
    }

    pub fn new(config: &CircuitBreakerConfig) -> (m: Self)
        ensures
            m.table() == Map::<Seq<char>, ProviderCircuit>::empty(),
            m.settings() == *config,
    {
        CircuitBreakerManager { circuits: circuits_new(), config: *config }
    }

    /// Whether a request to `provider` may pass at time `now`.
    pub fn should_allow(&mut self, provider: &str, now: u64) -> (r: bool)
        ensures
            final(self).settings() == old(self).settings(),
            final(self).table() == old(self).table().insert(
                provider@,
                allow_step(circuit_or_fresh(old(self).table(), old(self).settings(), provider@), now).0,
            ),
            r == allow_step(circuit_or_fresh(old(self).table(), old(self).settings(), provider@), now).1,
    {
        let mut circuit = match circuits_get(&self.circuits, provider) {
            Some(c) => c,
            None => ProviderCircuit::new(&self.config),
        };
        let allowed = circuit.should_allow(now);
        circuits_insert(&mut self.circuits, owned(provider), circuit);
        allowed
    }

    /// Records a success of `provider`; a provider never seen stays unknown.
    pub fn record_success(&mut self, provider: &str)
        ensures
            final(self).settings() == old(self).settings(),
            old(self).table().contains_key(provider@) ==> final(self).table() == old(self).table().insert(
                provider@,
                success_step(old(self).table()[provider@]),
            ),
            !old(self).table().contains_key(provider@) ==> final(self).table() == old(self).table(),
    {
        if let Some(mut circuit) = circuits_get(&self.circuits, provider) {
            circuit.record_success();
            circuits_insert(&mut self.circuits, owned(provider), circuit);
        }
    }

    /// Records a failure of `provider` at time `now`.
    pub fn record_failure(&mut self, provider: &str, now: u64)
        ensures
            final(self).settings() == old(self).settings(),
            final(self).table() == old(self).table().insert(
                provider@,
                failure_step(circuit_or_fresh(old(self).table(), old(self).settings(), provider@), now),
            ),
    {
        let mut circuit = match circuits_get(&self.circuits, provider) {
            Some(c) => c,
            None => ProviderCircuit::new(&self.config),
        };
        circuit.record_failure(now);
        circuits_insert(&mut self.circuits, owned(provider), circuit);
    }

    /// The state of a provider's circuit; `Closed` for a provider never seen.
    pub fn state(&self, provider: &str) -> (r: CircuitState)
        ensures
            r == (if self.table().contains_key(provider@) {
                self.table()[provider@].state
            } else {
                CircuitState::Closed
            }),
    {
        match circuits_get(&self.circuits, provider) {
            Some(c) => c.state,
            None => CircuitState::Closed,
        }
    }
}

} // verus!
