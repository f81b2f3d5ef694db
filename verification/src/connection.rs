//! The client's connection policy: a bounded number of attempts with a fixed
//! wait after each failure, as a state machine. The caller performs each
//! action and reports what came of it as the next event.

use vstd::prelude::*;
use vstd::string::StringExecFns;

verus! {

/// The address at which the server on `host` is reached: the scheme, the
/// host as it was given, and the service's port.
pub open spec fn server_url_of(host: Seq<char>) -> Seq<char> {
    "http://"@ + host + ":50051"@
}

/// The address at which the server on `host` is reached.
pub fn server_url(host: &str) -> (url: String)
    ensures
        url@ == server_url_of(host@),
{
    let mut url = "http://".to_owned();
    url.append(host);
    url.append(":50051");
    url
}

/// How often a connection is attempted and how long to wait after a failure.
#[derive(Clone, Copy, Debug, PartialEq, Eq, Structural)]
pub struct RetryPolicy {
    /// The number of attempts after which the client gives up.
    pub max_attempts: u32,
    /// The wait after a failed attempt, in seconds.
    pub backoff_secs: u64,
}

/// Where the client stands on its way to a connection.
#[derive(Clone, Copy, Debug, PartialEq, Eq, Structural)]
pub enum ConnectionState {
    /// Nothing was attempted yet.
    Disconnected,
    /// An attempt is under way; `retries_left` attempts remain, this one
    /// included.
    Connecting { retries_left: u32 },
    /// The last attempt failed and the wait is under way; `retries_left`
    /// attempts remain.
    Backoff { retries_left: u32 },
    /// The channel is ready.
    Connected,
    /// Every attempt failed.
    Exhausted,
}

/// What the caller reports to the state machine.
#[derive(Clone, Copy, Debug, PartialEq, Eq, Structural)]
pub enum ConnectionEvent {
    /// The client asks for a connection.
    Start,
    /// The attempt under way gave a channel.
    AttemptSucceeded,
    /// The attempt under way failed.
    AttemptFailed,
    /// The wait is over.
    BackoffElapsed,
}

/// What the caller has to do next.
#[derive(Clone, Copy, Debug, PartialEq, Eq, Structural)]
pub enum ConnectionAction {
    /// Try to connect.
    Attempt,
    /// Wait for `seconds`; `retries_left` attempts remain.
    Wait { seconds: u64, retries_left: u32 },
    /// Go on and issue operations on the channel.
    Proceed,
    /// Give up: no operation may be issued.
    Abort,
    /// The event does not belong to the state; nothing changes.
    Ignore,
}

/// The state and the action that follow from `state` on `event`.
pub open spec fn next(policy: RetryPolicy, state: ConnectionState, event: ConnectionEvent) -> (
    ConnectionState,
    ConnectionAction,
) {
    match (state, event) {
        (ConnectionState::Disconnected, ConnectionEvent::Start) => if policy.max_attempts > 0 {
            (
                ConnectionState::Connecting { retries_left: policy.max_attempts },
                ConnectionAction::Attempt,
            )
        } else {
            (ConnectionState::Exhausted, ConnectionAction::Abort)
        },
        (ConnectionState::Connecting { retries_left }, ConnectionEvent::AttemptSucceeded) => (
            ConnectionState::Connected,
            ConnectionAction::Proceed,
        ),
        (ConnectionState::Connecting { retries_left }, ConnectionEvent::AttemptFailed) => {
            let left = if retries_left > 0 {
                (retries_left - 1) as u32
            } else {
                0u32
            };
            (
                ConnectionState::Backoff { retries_left: left },
                ConnectionAction::Wait { seconds: policy.backoff_secs, retries_left: left },
            )
        },
        (ConnectionState::Backoff { retries_left }, ConnectionEvent::BackoffElapsed) => if retries_left
            > 0 {
            (ConnectionState::Connecting { retries_left }, ConnectionAction::Attempt)
        } else {
            (ConnectionState::Exhausted, ConnectionAction::Abort)
        },
        _ => (state, ConnectionAction::Ignore),
    }
}

/// Whether nothing follows `state`: the client is connected or has given up.
pub open spec fn is_final(state: ConnectionState) -> bool {
    state is Connected || state is Exhausted
}

/// Whether `event` is the report that `state` waits for.
pub open spec fn expects(state: ConnectionState, event: ConnectionEvent) -> bool {
    match state {
        ConnectionState::Disconnected => event is Start,
        ConnectionState::Connecting { .. } => event is AttemptSucceeded || event is AttemptFailed,
        ConnectionState::Backoff { .. } => event is BackoffElapsed,
        ConnectionState::Connected => false,
        ConnectionState::Exhausted => false,
    }
}

/// An upper bound on the number of events that can still move `state`.
pub open spec fn steps_left(policy: RetryPolicy, state: ConnectionState) -> nat {
    match state {
        ConnectionState::Disconnected => 2 * (policy.max_attempts as nat) + 1,
        ConnectionState::Connecting { retries_left } => 2 * (retries_left as nat),
        ConnectionState::Backoff { retries_left } => 2 * (retries_left as nat) + 1,
        ConnectionState::Connected => 0,
        ConnectionState::Exhausted => 0,
    }
}

/// Whether `state` can occur under `policy`.
pub open spec fn reachable(policy: RetryPolicy, state: ConnectionState) -> bool {
    match state {
        ConnectionState::Connecting { retries_left } => 1 <= retries_left <= policy.max_attempts,
        ConnectionState::Backoff { retries_left } => retries_left < policy.max_attempts,
        _ => true,
    }
}

/// The state after `rounds` attempts in a row have failed and been waited
/// out, starting from `state`.
pub open spec fn after_failures(policy: RetryPolicy, state: ConnectionState, rounds: nat)
    -> ConnectionState
    decreases rounds,
{
    if rounds == 0 {
        state
    } else {
        let failed = next(policy, state, ConnectionEvent::AttemptFailed).0;
        let waited = next(policy, failed, ConnectionEvent::BackoffElapsed).0;
        after_failures(policy, waited, (rounds - 1) as nat)
    }
}

impl RetryPolicy {
    /// Five attempts, two seconds after each failure.
    pub fn standard() -> (policy: RetryPolicy)
        ensures
            policy == (RetryPolicy { max_attempts: 5, backoff_secs: 2 }),
    {
        RetryPolicy { max_attempts: 5, backoff_secs: 2 }
    }
}

/// Takes the state machine one step: the state and the action that follow
/// from `state` on `event`. An event that the state does not wait for changes
/// nothing.
pub fn step(policy: RetryPolicy, state: ConnectionState, event: ConnectionEvent) -> (result: (
    ConnectionState,
    ConnectionAction,
))
    ensures
        result == next(policy, state, event),
        !expects(state, event) ==> result == (state, ConnectionAction::Ignore),
        reachable(policy, state) ==> reachable(policy, result.0),
        reachable(policy, state) && expects(state, event) ==> steps_left(policy, result.0)
            < steps_left(policy, state),
{
    match state {
        ConnectionState::Disconnected => match event {
            ConnectionEvent::Start => if policy.max_attempts > 0 {
                (
                    ConnectionState::Connecting { retries_left: policy.max_attempts },
                    ConnectionAction::Attempt,
                )
            } else {
                (ConnectionState::Exhausted, ConnectionAction::Abort)
            },
            _ => (state, ConnectionAction::Ignore),
        },
        ConnectionState::Connecting { retries_left } => match event {
            ConnectionEvent::AttemptSucceeded => (
                ConnectionState::Connected,
                ConnectionAction::Proceed,
            ),
            ConnectionEvent::AttemptFailed => {
                let left: u32 = retries_left.saturating_sub(1);
                (
                    ConnectionState::Backoff { retries_left: left },
                    ConnectionAction::Wait { seconds: policy.backoff_secs, retries_left: left },
                )
            },
            _ => (state, ConnectionAction::Ignore),
        },
        ConnectionState::Backoff { retries_left } => match event {
            ConnectionEvent::BackoffElapsed => if retries_left > 0 {
                (ConnectionState::Connecting { retries_left }, ConnectionAction::Attempt)
            } else {
                (ConnectionState::Exhausted, ConnectionAction::Abort)
            },
            _ => (state, ConnectionAction::Ignore),
        },
        _ => (state, ConnectionAction::Ignore),
    }
}

/// Every event that a state waits for brings the end nearer, so the client
/// connects or gives up after a bounded number of events: it cannot go on
/// trying for ever.
pub proof fn law_progress(policy: RetryPolicy, state: ConnectionState, event: ConnectionEvent)
    requires
        reachable(policy, state),
        expects(state, event),
    ensures
        reachable(policy, next(policy, state, event).0),
        steps_left(policy, next(policy, state, event).0) < steps_left(policy, state),
        steps_left(policy, state) <= 2 * (policy.max_attempts as nat) + 1,
{
}

/// A state in which the client is connected or has given up is never left.
pub proof fn law_final_states_stay(
    policy: RetryPolicy,
    state: ConnectionState,
    event: ConnectionEvent,
)
    requires
        is_final(state),
    ensures
        next(policy, state, event) == (state, ConnectionAction::Ignore),
{
}

/// With `retries_left` attempts remaining, the client has given up after
/// exactly that many failures in a row, and is still trying after fewer.
pub proof fn law_failures_exhaust(policy: RetryPolicy, retries_left: u32, rounds: nat)
    requires
        1 <= retries_left,
        rounds <= retries_left,
    ensures
        rounds == retries_left ==> after_failures(
            policy,
            ConnectionState::Connecting { retries_left },
            rounds,
        ) == ConnectionState::Exhausted,
        rounds < retries_left ==> after_failures(
            policy,
            ConnectionState::Connecting { retries_left },
            rounds,
        ) == (ConnectionState::Connecting { retries_left: (retries_left - rounds) as u32 }),
    decreases rounds,
{
    if rounds > 0 {
        if retries_left > 1 {
            law_failures_exhaust(policy, (retries_left - 1) as u32, (rounds - 1) as nat);
        } else {
            assert(after_failures(policy, ConnectionState::Exhausted, 0) == ConnectionState::Exhausted);
        }
    }
}

} // verus!
