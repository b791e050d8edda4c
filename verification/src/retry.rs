//! Bounded retry policies for adapter construction: the readiness probe
//! against the sidecar's health endpoint, and the RPC dial.
//!
//! The process around the library performs one HTTP or dial attempt at a
//! time and hands its outcome to a step function here, which decides whether
//! to proceed, sleep and retry, or give up. The `*_run` functions state and
//! verify what a whole run of either loop decides, given the outcome each
//! attempt would have.

use vstd::prelude::*;

use crate::config::{default_store_name, is_port_text, resolve_port, resolve_store_name};
use crate::errors::{ConfigError, ConnectError};

verus! {

/// Most attempts the readiness probe makes before giving up.
pub const PROBE_ATTEMPT_LIMIT: u32 = 10;

/// Most attempts the dial loop makes before giving up.
pub const DIAL_ATTEMPT_LIMIT: u32 = 5;

/// What one readiness probe of the health endpoint observed.
#[derive(Clone, Copy, Debug, PartialEq, Eq, Structural)]
pub enum ProbeOutcome {
    /// A response with a success status arrived.
    Healthy,
    /// A response arrived, but with a non-success status.
    NotReady,
    /// The request failed before any response arrived.
    Unreachable,
}

/// What the probe loop does after one attempt.
#[derive(Clone, Copy, Debug, PartialEq, Eq, Structural)]
pub enum ProbeStep {
    /// The sidecar answered healthy: readiness is established.
    Ready,
    /// Not healthy yet and attempts remain: sleep one second, probe again.
    RetryAfterDelay,
    /// Not healthy and the attempt limit is reached: fail with a timeout.
    GiveUp,
}

/// What the dial loop does after one attempt.
#[derive(Clone, Copy, Debug, PartialEq, Eq, Structural)]
pub enum DialStep {
    /// The connection is established: hand it to the adapter.
    UseConnection,
    /// The dial failed and attempts remain: sleep one second, dial again.
    RetryAfterDelay,
    /// The dial failed and the attempt limit is reached: fail construction.
    GiveUp,
}

/// Decides the probe loop's next move after its `attempts_made + 1`-th
/// attempt came back with `outcome`.
pub fn probe_step(attempts_made: u32, outcome: ProbeOutcome) -> (step: ProbeStep)
    requires
        attempts_made < PROBE_ATTEMPT_LIMIT,
    ensures
        outcome is Healthy <==> step is Ready,
        step is GiveUp <==> !(outcome is Healthy) && attempts_made + 1 == PROBE_ATTEMPT_LIMIT,
        step is RetryAfterDelay <==> !(outcome is Healthy) && attempts_made + 1
            < PROBE_ATTEMPT_LIMIT,
{
    match outcome {
        ProbeOutcome::Healthy => ProbeStep::Ready,
        _ => {
            if attempts_made + 1 == PROBE_ATTEMPT_LIMIT {
                ProbeStep::GiveUp
            } else {
                ProbeStep::RetryAfterDelay
            }
        },
    }
}

/// Decides the dial loop's next move after its `attempts_made + 1`-th
/// attempt either connected or failed.
pub fn dial_step(attempts_made: u32, connected: bool) -> (step: DialStep)
    requires
        attempts_made < DIAL_ATTEMPT_LIMIT,
    ensures
        connected <==> step is UseConnection,
        step is GiveUp <==> !connected && attempts_made + 1 == DIAL_ATTEMPT_LIMIT,
        step is RetryAfterDelay <==> !connected && attempts_made + 1 < DIAL_ATTEMPT_LIMIT,
{
    if connected {
        DialStep::UseConnection
    } else if attempts_made + 1 == DIAL_ATTEMPT_LIMIT {
        DialStep::GiveUp
    } else {
        DialStep::RetryAfterDelay
    }
}

/// Whether some probe among the first `bound` would find the sidecar healthy.
pub open spec fn ready_within(outcomes: Seq<ProbeOutcome>, bound: int) -> bool {
    exists|i: int| 0 <= i < bound && outcomes[i] is Healthy
}

/// Whether some dial among the first `bound` would connect.
pub open spec fn connects_within(outcomes: Seq<bool>, bound: int) -> bool {
    exists|i: int| 0 <= i < bound && outcomes[i]
}

/// Runs the readiness-probe policy over the outcomes the successive probe
/// attempts would observe: returns the index of the first healthy probe, or
/// a timeout once the attempt limit is exhausted without one.
pub fn probe_run(outcomes: &Vec<ProbeOutcome>) -> (r: Result<u32, ConnectError>)
    requires
        outcomes@.len() >= PROBE_ATTEMPT_LIMIT,
    ensures
        match r {
            Ok(i) => i < PROBE_ATTEMPT_LIMIT && outcomes@[i as int] is Healthy && forall|j: int|
                0 <= j < i ==> !(#[trigger] outcomes@[j] is Healthy),
            Err(e) => e == ConnectError::ProbeTimedOut && !ready_within(
                outcomes@,
                PROBE_ATTEMPT_LIMIT as int,
            ),
        },
{
    let mut attempts_made: u32 = 0;
    loop
        invariant
            attempts_made < PROBE_ATTEMPT_LIMIT,
            outcomes@.len() >= PROBE_ATTEMPT_LIMIT,
            forall|j: int| 0 <= j < attempts_made ==> !(#[trigger] outcomes@[j] is Healthy),
        decreases PROBE_ATTEMPT_LIMIT - attempts_made,
    {
        let outcome = outcomes[attempts_made as usize];
        match probe_step(attempts_made, outcome) {
            ProbeStep::Ready => {
                return Ok(attempts_made);
            },
            ProbeStep::GiveUp => {
                return Err(ConnectError::ProbeTimedOut);
            },
            ProbeStep::RetryAfterDelay => {
                attempts_made = attempts_made + 1;
            },
        }
    }
}

/// Runs the dial policy over the outcomes the successive dial attempts would
/// have: returns the index of the first successful dial, or a failure once
/// the attempt limit is exhausted without one.
pub fn dial_run(outcomes: &Vec<bool>) -> (r: Result<u32, ConnectError>)
    requires
        outcomes@.len() >= DIAL_ATTEMPT_LIMIT,
    ensures
        match r {
            Ok(i) => i < DIAL_ATTEMPT_LIMIT && outcomes@[i as int] && forall|j: int|
                0 <= j < i ==> !(#[trigger] outcomes@[j]),
            Err(e) => e == ConnectError::DialFailed && !connects_within(
                outcomes@,
                DIAL_ATTEMPT_LIMIT as int,
            ),
        },
{
    let mut attempts_made: u32 = 0;
    loop
        invariant
            attempts_made < DIAL_ATTEMPT_LIMIT,
            outcomes@.len() >= DIAL_ATTEMPT_LIMIT,
            forall|j: int| 0 <= j < attempts_made ==> !(#[trigger] outcomes@[j]),
        decreases DIAL_ATTEMPT_LIMIT - attempts_made,
    {
        let connected = outcomes[attempts_made as usize];
        match dial_step(attempts_made, connected) {
            DialStep::UseConnection => {
                return Ok(attempts_made);
            },
            DialStep::GiveUp => {
                return Err(ConnectError::DialFailed);
            },
            DialStep::RetryAfterDelay => {
                attempts_made = attempts_made + 1;
            },
        }
    }
}

/// The configuration a freshly constructed adapter holds besides its
/// connection handle.
pub struct AdapterConfig {
    /// The store-name partition every operation targets.
    pub store_name: String,
}

/// Decides the whole construction sequence: parse the port configuration
/// (fatal if absent or malformed, nothing else is attempted), run the
/// readiness probe to its limit of `PROBE_ATTEMPT_LIMIT` attempts, then the
/// dial loop to its limit of `DIAL_ATTEMPT_LIMIT`, and finally resolve the
/// store name. The outcome vectors say what each attempt would observe; a
/// probe timeout fails construction whatever the dial outcomes hold, which
/// is the sense in which no dial is attempted after a timeout.
pub fn connect_run(
    port_text: Option<&String>,
    probe_outcomes: &Vec<ProbeOutcome>,
    dial_outcomes: &Vec<bool>,
    store_name_setting: Option<String>,
) -> (r: Result<AdapterConfig, ConnectError>)
    requires
        probe_outcomes@.len() >= PROBE_ATTEMPT_LIMIT,
        dial_outcomes@.len() >= DIAL_ATTEMPT_LIMIT,
    ensures
        port_text is None ==> r == Err::<AdapterConfig, ConnectError>(
            ConnectError::Configuration(ConfigError::MissingPort),
        ),
        port_text matches Some(t) && !is_port_text(t@) ==> r == Err::<AdapterConfig, ConnectError>(
            ConnectError::Configuration(ConfigError::MalformedPort),
        ),
        port_text matches Some(t) && is_port_text(t@) && !ready_within(
            probe_outcomes@,
            PROBE_ATTEMPT_LIMIT as int,
        ) ==> r == Err::<AdapterConfig, ConnectError>(ConnectError::ProbeTimedOut),
        port_text matches Some(t) && is_port_text(t@) && ready_within(
            probe_outcomes@,
            PROBE_ATTEMPT_LIMIT as int,
        ) && !connects_within(dial_outcomes@, DIAL_ATTEMPT_LIMIT as int) ==> r == Err::<
            AdapterConfig,
            ConnectError,
        >(ConnectError::DialFailed),
        port_text matches Some(t) && is_port_text(t@) && ready_within(
            probe_outcomes@,
            PROBE_ATTEMPT_LIMIT as int,
        ) && connects_within(dial_outcomes@, DIAL_ATTEMPT_LIMIT as int) ==> (r matches Ok(cfg) && {
            &&& (store_name_setting matches Some(v) ==> cfg.store_name@ == v@)
            &&& (store_name_setting is None ==> cfg.store_name@ == default_store_name())
        }),
{
    let _port: u16 = match resolve_port(port_text) {
        Ok(p) => p,
        Err(e) => {
            return Err(ConnectError::Configuration(e));
        },
    };
    let _ready_at = match probe_run(probe_outcomes) {
        Ok(i) => i,
        Err(e) => {
            return Err(e);
        },
    };
    let _connected_at = match dial_run(dial_outcomes) {
        Ok(i) => i,
        Err(e) => {
            return Err(e);
        },
    };
    Ok(AdapterConfig { store_name: resolve_store_name(store_name_setting) })
}

} // verus!
