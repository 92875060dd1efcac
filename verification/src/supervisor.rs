//! Supervision of the storage connection at start-up: connect, and on failure
//! wait and connect again, for as long as it takes.

use vstd::prelude::*;

verus! {

/// The pause between two attempts to connect, in seconds, where no other is chosen.
pub const RETRY_INTERVAL_SECS: u64 = 5;

/// How long to wait after a failed attempt before the next one.
#[derive(Debug, Clone, Copy, PartialEq, Eq, Structural)]
pub struct Backoff {
    pub interval_secs: u64,
}

/// Where the supervisor stands.
#[derive(Debug, Clone, Copy, PartialEq, Eq, Structural)]
pub enum SupervisorState {
    Connecting,
    Connected,
}

/// How an attempt to connect ended.
#[derive(Debug, Clone, Copy, PartialEq, Eq, Structural)]
pub enum ConnectOutcome {
    Established,
    Failed,
}

/// What the caller has to do next.
#[derive(Debug, Clone, Copy, PartialEq, Eq, Structural)]
pub enum SupervisorAction {
    /// Wait for so many seconds, then try to connect again.
    RetryAfter(u64),
    /// The connection stands: go on to consume the stream.
    Proceed,
}

/// The supervisor's step. A failure while connecting keeps it connecting, with
/// the policy's pause before the next attempt; success connects it. Once
/// connected it stays so, whatever is reported later.
pub open spec fn supervised(state: SupervisorState, outcome: ConnectOutcome, policy: Backoff) -> (
    SupervisorState,
    SupervisorAction,
) {
    match state {
        SupervisorState::Connected => (SupervisorState::Connected, SupervisorAction::Proceed),
        SupervisorState::Connecting => match outcome {
            ConnectOutcome::Established => (SupervisorState::Connected, SupervisorAction::Proceed),
            ConnectOutcome::Failed => (
                SupervisorState::Connecting,
                SupervisorAction::RetryAfter(policy.interval_secs),
            ),
        },
    }
}

/// The state after `failures` failed attempts in a row.
pub open spec fn after_failures(state: SupervisorState, policy: Backoff, failures: nat)
    -> SupervisorState
    decreases failures,
{
    if failures == 0 {
        state
    } else {
        supervised(
            after_failures(state, policy, (failures - 1) as nat),
            ConnectOutcome::Failed,
            policy,
        ).0
    }
}

impl Backoff {
    /// The policy with the usual pause of [`RETRY_INTERVAL_SECS`].
    pub fn fixed() -> (r: Backoff)
        ensures
            r.interval_secs == RETRY_INTERVAL_SECS,
    {
        Backoff { interval_secs: RETRY_INTERVAL_SECS }
    }
}

impl SupervisorState {
    /// The state in which a process starts.
    pub fn start() -> (r: SupervisorState)
        ensures
            r == SupervisorState::Connecting,
    {
        SupervisorState::Connecting
    }
}

/// Takes the outcome of an attempt to connect and says what to do next.
pub fn supervise(state: SupervisorState, outcome: ConnectOutcome, policy: Backoff) -> (r: (
    SupervisorState,
    SupervisorAction,
))
    ensures
        r == supervised(state, outcome, policy),
{
    match state {
        SupervisorState::Connected => (SupervisorState::Connected, SupervisorAction::Proceed),
        SupervisorState::Connecting => match outcome {
            ConnectOutcome::Established => (SupervisorState::Connected, SupervisorAction::Proceed),
            ConnectOutcome::Failed => (
                SupervisorState::Connecting,
                SupervisorAction::RetryAfter(policy.interval_secs),
            ),
        },
    }
}

/// The supervisor never gives up: after any number of failures in a row it is
/// still connecting, and the next success connects it.
pub proof fn lemma_retries_without_end(policy: Backoff, failures: nat)
    ensures
        after_failures(SupervisorState::Connecting, policy, failures)
            == SupervisorState::Connecting,
        supervised(
            after_failures(SupervisorState::Connecting, policy, failures),
            ConnectOutcome::Failed,
            policy,
        ).1 == SupervisorAction::RetryAfter(policy.interval_secs),
        supervised(
            after_failures(SupervisorState::Connecting, policy, failures),
            ConnectOutcome::Established,
            policy,
        ) == (SupervisorState::Connected, SupervisorAction::Proceed),
    decreases failures,
{
    if failures > 0 {
        lemma_retries_without_end(policy, (failures - 1) as nat);
    }
}

/// Once connected, the supervisor stays connected.
pub proof fn lemma_connection_is_kept(outcome: ConnectOutcome, policy: Backoff)
    ensures
        supervised(SupervisorState::Connected, outcome, policy) == (
            SupervisorState::Connected,
            SupervisorAction::Proceed,
        ),
{
}

} // verus!
