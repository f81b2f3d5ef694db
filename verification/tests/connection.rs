use rustydb::connection::{
    server_url, step, ConnectionAction, ConnectionEvent, ConnectionState, RetryPolicy,
};

#[test]
fn standard_policy() {
    let policy = RetryPolicy::standard();
    assert_eq!(policy.max_attempts, 5);
    assert_eq!(policy.backoff_secs, 2);
}

#[test]
fn server_url_has_scheme_and_port() {
    assert_eq!(server_url("server"), "http://server:50051");
    assert_eq!(server_url("127.0.0.1"), "http://127.0.0.1:50051");
    assert_eq!(server_url(""), "http://:50051");
}

#[test]
fn start_makes_the_first_attempt() {
    let policy = RetryPolicy::standard();
    assert_eq!(
        step(policy, ConnectionState::Disconnected, ConnectionEvent::Start),
        (ConnectionState::Connecting { retries_left: 5 }, ConnectionAction::Attempt)
    );
}

#[test]
fn success_connects() {
    let policy = RetryPolicy::standard();
    assert_eq!(
        step(policy, ConnectionState::Connecting { retries_left: 5 }, ConnectionEvent::AttemptSucceeded),
        (ConnectionState::Connected, ConnectionAction::Proceed)
    );
    assert_eq!(
        step(policy, ConnectionState::Connecting { retries_left: 1 }, ConnectionEvent::AttemptSucceeded),
        (ConnectionState::Connected, ConnectionAction::Proceed)
    );
}

#[test]
fn failure_waits_two_seconds() {
    let policy = RetryPolicy::standard();
    assert_eq!(
        step(policy, ConnectionState::Connecting { retries_left: 5 }, ConnectionEvent::AttemptFailed),
        (
            ConnectionState::Backoff { retries_left: 4 },
            ConnectionAction::Wait { seconds: 2, retries_left: 4 }
        )
    );
    assert_eq!(
        step(policy, ConnectionState::Backoff { retries_left: 4 }, ConnectionEvent::BackoffElapsed),
        (ConnectionState::Connecting { retries_left: 4 }, ConnectionAction::Attempt)
    );
}

#[test]
fn unreachable_server_exhausts_five_attempts() {
    let policy = RetryPolicy::standard();
    let (mut state, mut action) = step(policy, ConnectionState::Disconnected, ConnectionEvent::Start);
    let mut attempts = 0;
    let mut waited = 0;
    let mut events = 0;
    while action != ConnectionAction::Abort {
        events += 1;
        assert!(events <= 11);
        let event = match action {
            ConnectionAction::Attempt => {
                attempts += 1;
                ConnectionEvent::AttemptFailed
            }
            ConnectionAction::Wait { seconds, retries_left } => {
                waited += seconds;
                assert_eq!(retries_left, 5 - attempts);
                ConnectionEvent::BackoffElapsed
            }
            other => panic!("unexpected action {:?}", other),
        };
        let next = step(policy, state, event);
        state = next.0;
        action = next.1;
    }
    assert_eq!(state, ConnectionState::Exhausted);
    assert_eq!(attempts, 5);
    assert_eq!(waited, 10);
}

#[test]
fn third_attempt_succeeds() {
    let policy = RetryPolicy::standard();
    let outcomes = [false, false, true];
    let (mut state, mut action) = step(policy, ConnectionState::Disconnected, ConnectionEvent::Start);
    let mut attempts = 0usize;
    while action != ConnectionAction::Proceed {
        let event = match action {
            ConnectionAction::Attempt => {
                attempts += 1;
                if outcomes[attempts - 1] {
                    ConnectionEvent::AttemptSucceeded
                } else {
                    ConnectionEvent::AttemptFailed
                }
            }
            ConnectionAction::Wait { .. } => ConnectionEvent::BackoffElapsed,
            other => panic!("unexpected action {:?}", other),
        };
        let next = step(policy, state, event);
        state = next.0;
        action = next.1;
    }
    assert_eq!(state, ConnectionState::Connected);
    assert_eq!(attempts, 3);
}

#[test]
fn no_attempts_allowed_aborts_at_once() {
    let policy = RetryPolicy { max_attempts: 0, backoff_secs: 2 };
    assert_eq!(
        step(policy, ConnectionState::Disconnected, ConnectionEvent::Start),
        (ConnectionState::Exhausted, ConnectionAction::Abort)
    );
}

#[test]
fn last_failure_leads_to_abort() {
    let policy = RetryPolicy::standard();
    assert_eq!(
        step(policy, ConnectionState::Connecting { retries_left: 1 }, ConnectionEvent::AttemptFailed),
        (
            ConnectionState::Backoff { retries_left: 0 },
            ConnectionAction::Wait { seconds: 2, retries_left: 0 }
        )
    );
    assert_eq!(
        step(policy, ConnectionState::Backoff { retries_left: 0 }, ConnectionEvent::BackoffElapsed),
        (ConnectionState::Exhausted, ConnectionAction::Abort)
    );
}

#[test]
fn final_states_ignore_every_event() {
    let policy = RetryPolicy::standard();
    for state in [ConnectionState::Connected, ConnectionState::Exhausted] {
        for event in [
            ConnectionEvent::Start,
            ConnectionEvent::AttemptSucceeded,
            ConnectionEvent::AttemptFailed,
            ConnectionEvent::BackoffElapsed,
        ] {
            assert_eq!(step(policy, state, event), (state, ConnectionAction::Ignore));
        }
    }
}

#[test]
fn unexpected_events_change_nothing() {
    let policy = RetryPolicy::standard();
    let connecting = ConnectionState::Connecting { retries_left: 3 };
    let backoff = ConnectionState::Backoff { retries_left: 3 };
    assert_eq!(
        step(policy, ConnectionState::Disconnected, ConnectionEvent::AttemptFailed),
        (ConnectionState::Disconnected, ConnectionAction::Ignore)
    );
    assert_eq!(step(policy, connecting, ConnectionEvent::Start), (connecting, ConnectionAction::Ignore));
    assert_eq!(
        step(policy, connecting, ConnectionEvent::BackoffElapsed),
        (connecting, ConnectionAction::Ignore)
    );
    assert_eq!(
        step(policy, backoff, ConnectionEvent::AttemptSucceeded),
        (backoff, ConnectionAction::Ignore)
    );
}

#[test]
fn other_backoff_is_handed_on() {
    let policy = RetryPolicy { max_attempts: 2, backoff_secs: 7 };
    assert_eq!(
        step(policy, ConnectionState::Connecting { retries_left: 2 }, ConnectionEvent::AttemptFailed),
        (
            ConnectionState::Backoff { retries_left: 1 },
            ConnectionAction::Wait { seconds: 7, retries_left: 1 }
        )
    );
}
