use sentry_rust_minidump::launcher::{
    step, ConnectPolicy, ConnectionState, LaunchAction, LaunchEvent, StartFailure, CLIENT_CONNECT_RETRY,
    CLIENT_CONNECT_TIMEOUT, CLIENT_SERVER_POLL, SERVER_STALE_TIMEOUT,
};

fn run_until_given_up(p: ConnectPolicy) -> (ConnectionState, u64) {
    let (mut s, a) = step(p, ConnectionState::initial(), LaunchEvent::Spawned);
    assert_eq!(a, LaunchAction::Connect);
    let mut slept = 0;
    loop {
        let (next, action) = step(p, s, LaunchEvent::ConnectFailed);
        s = next;
        match action {
            LaunchAction::RetryAfter(ms) => slept += ms,
            LaunchAction::Stop => return (s, slept),
            other => panic!("unexpected action {:?}", other),
        }
    }
}

#[test]
fn standard_policy_constants() {
    let p = ConnectPolicy::standard();
    assert_eq!(p.timeout_ms, 3000);
    assert_eq!(p.retry_ms, 50);
    assert_eq!(CLIENT_CONNECT_TIMEOUT, 3000);
    assert_eq!(CLIENT_CONNECT_RETRY, 50);
    assert_eq!(CLIENT_SERVER_POLL * 2, SERVER_STALE_TIMEOUT);
}

#[test]
fn unreachable_reporter_times_out_within_one_interval() {
    let p = ConnectPolicy::standard();
    let (s, slept) = run_until_given_up(p);
    assert_eq!(s, ConnectionState::Failed(StartFailure::ConnectTimeout { elapsed_ms: 3000 }));
    assert!(slept >= p.timeout_ms && slept < p.timeout_ms + p.retry_ms);
}

#[test]
fn timeout_not_a_multiple_of_interval() {
    let p = ConnectPolicy { timeout_ms: 120, retry_ms: 50 };
    let (s, slept) = run_until_given_up(p);
    assert_eq!(s, ConnectionState::Failed(StartFailure::ConnectTimeout { elapsed_ms: 150 }));
    assert_eq!(slept, 150);
}

#[test]
fn zero_timeout_gives_up_at_once() {
    let p = ConnectPolicy { timeout_ms: 0, retry_ms: 50 };
    let (s, slept) = run_until_given_up(p);
    assert_eq!(s, ConnectionState::Failed(StartFailure::ConnectTimeout { elapsed_ms: 0 }));
    assert_eq!(slept, 0);
}

#[test]
fn spawn_failure_is_final() {
    let p = ConnectPolicy::standard();
    let (s, a) = step(p, ConnectionState::SpawningServer, LaunchEvent::SpawnFailed);
    assert_eq!(s, ConnectionState::Failed(StartFailure::Spawn));
    assert_eq!(a, LaunchAction::Stop);
    let (s2, a2) = step(p, s, LaunchEvent::Spawned);
    assert_eq!(s2, s);
    assert_eq!(a2, LaunchAction::Stop);
}

#[test]
fn retry_then_connect() {
    let p = ConnectPolicy::standard();
    let s = ConnectionState::Connecting { attempts: 0, elapsed_ms: 0 };
    let (s, a) = step(p, s, LaunchEvent::ConnectFailed);
    assert_eq!(s, ConnectionState::Connecting { attempts: 1, elapsed_ms: 50 });
    assert_eq!(a, LaunchAction::RetryAfter(50));
    let (s, a) = step(p, s, LaunchEvent::ConnectSucceeded);
    assert_eq!(s, ConnectionState::Connected);
    assert_eq!(a, LaunchAction::InstallBridge);
    let (s2, a2) = step(p, s, LaunchEvent::ConnectFailed);
    assert_eq!(s2, ConnectionState::Connected);
    assert_eq!(a2, LaunchAction::Stop);
}
