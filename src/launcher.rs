//! The client's start-up decisions: after the reporter process is spawned the
//! client tries to connect, sleeping a fixed interval between attempts, and
//! gives up once the accumulated wait reaches the connect timeout.
use vstd::prelude::*;

verus! {

/// Milliseconds slept between two connection attempts.
pub const CLIENT_CONNECT_RETRY: u64 = 50;

/// Accumulated wait, in milliseconds, after which the client stops trying to connect.
pub const CLIENT_CONNECT_TIMEOUT: u64 = 3000;

/// Milliseconds of silence after which the reporter gives up on its client.
pub const SERVER_STALE_TIMEOUT: u64 = 5000;

/// Milliseconds between two heartbeats: half of the reporter's stale timeout.
pub const CLIENT_SERVER_POLL: u64 = SERVER_STALE_TIMEOUT / 2;

/// How long the client keeps trying to reach its reporter.
#[derive(Clone, Copy, Debug, PartialEq, Eq)]
pub struct ConnectPolicy {
    pub timeout_ms: u64,
    pub retry_ms: u64,
}

impl ConnectPolicy {
    /// A retry interval of at least one millisecond, and room to add it to the timeout.
    pub open spec fn wf(&self) -> bool {
        self.retry_ms >= 1 && self.timeout_ms + self.retry_ms <= u64::MAX
    }

    /// The policy that the client uses.
    pub fn standard() -> (r: ConnectPolicy)
        ensures
            r.wf(),
            r.timeout_ms == CLIENT_CONNECT_TIMEOUT,
            r.retry_ms == CLIENT_CONNECT_RETRY,
    {
        ConnectPolicy { timeout_ms: CLIENT_CONNECT_TIMEOUT, retry_ms: CLIENT_CONNECT_RETRY }
    }
}

/// Why the client could not reach its reporter.
#[derive(Clone, Copy, Debug, PartialEq, Eq)]
pub enum StartFailure {
    /// The reporter process could not be spawned.
    Spawn,
    /// The reporter did not become reachable; the accumulated wait is given.
    ConnectTimeout { elapsed_ms: u64 },
}

/// Where the client stands in its start-up.
#[derive(Clone, Copy, Debug, PartialEq, Eq)]
pub enum ConnectionState {
    SpawningServer,
    Connecting { attempts: u64, elapsed_ms: u64 },
    Connected,
    Failed(StartFailure),
}

/// What the client's start-up reports back after each step.
#[derive(Clone, Copy, Debug, PartialEq, Eq)]
pub enum LaunchEvent {
    Spawned,
    SpawnFailed,
    ConnectSucceeded,
    ConnectFailed,
}

/// What the client does next.
#[derive(Clone, Copy, Debug, PartialEq, Eq)]
pub enum LaunchAction {
    /// Try to connect now.
    Connect,
    /// Sleep this many milliseconds, then try to connect again.
    RetryAfter(u64),
    /// Start the heartbeat and install the crash bridge.
    InstallBridge,
    /// Stop: the state is final.
    Stop,
}

impl ConnectionState {
    /// The state in which the client starts.
    pub fn initial() -> (r: ConnectionState)
        ensures
            r == ConnectionState::SpawningServer,
    {
        ConnectionState::SpawningServer
    }

    /// `Connected` and `Failed` are final.
    pub open spec fn is_final(&self) -> bool {
        self is Connected || self is Failed
    }

    /// A count of attempts never exceeds the milliseconds waited.
    pub open spec fn wf(&self) -> bool {
        match *self {
            ConnectionState::Connecting { attempts, elapsed_ms } => attempts <= elapsed_ms,
            _ => true,
        }
    }
}

/// The next state and action after `ev` in state `s`.
pub open spec fn next_state(p: ConnectPolicy, s: ConnectionState, ev: LaunchEvent) -> (
    ConnectionState,
    LaunchAction,
) {
    match (s, ev) {
        (ConnectionState::SpawningServer, LaunchEvent::Spawned) => (
            ConnectionState::Connecting { attempts: 0, elapsed_ms: 0 },
            LaunchAction::Connect,
        ),
        (ConnectionState::SpawningServer, LaunchEvent::SpawnFailed) => (
            ConnectionState::Failed(StartFailure::Spawn),
            LaunchAction::Stop,
        ),
        (ConnectionState::Connecting { .. }, LaunchEvent::ConnectSucceeded) => (
            ConnectionState::Connected,
            LaunchAction::InstallBridge,
        ),
        (ConnectionState::Connecting { attempts, elapsed_ms }, LaunchEvent::ConnectFailed) => {
            if elapsed_ms < p.timeout_ms {
                (
                    ConnectionState::Connecting {
                        attempts: (attempts + 1) as u64,
                        elapsed_ms: (elapsed_ms + p.retry_ms) as u64,
                    },
                    LaunchAction::RetryAfter(p.retry_ms),
                )
            } else {
                (
                    ConnectionState::Failed(StartFailure::ConnectTimeout { elapsed_ms }),
                    LaunchAction::Stop,
                )
            }
        },
        (ConnectionState::Connected, _) => (s, LaunchAction::Stop),
        (ConnectionState::Failed(_), _) => (s, LaunchAction::Stop),
        _ => (s, LaunchAction::Stop),
    }
}

/// Takes one step of the client's start-up: in state `s`, after `ev`, under policy `p`.
/// A final state stays as it is; an event that does not belong to the state is
/// ignored.
pub fn step(p: ConnectPolicy, s: ConnectionState, ev: LaunchEvent) -> (r: (ConnectionState, LaunchAction))
    requires
        p.wf(),
        s.wf(),
        s is Connecting ==> s->elapsed_ms < p.timeout_ms + p.retry_ms,
    ensures
        r == next_state(p, s, ev),
        r.0.wf(),
        r.0 is Connecting ==> r.0->elapsed_ms < p.timeout_ms + p.retry_ms,
        s.is_final() ==> r.0 == s,
{
    match (s, ev) {
        (ConnectionState::SpawningServer, LaunchEvent::Spawned) => (
            ConnectionState::Connecting { attempts: 0, elapsed_ms: 0 },
            LaunchAction::Connect,
        ),
        (ConnectionState::SpawningServer, LaunchEvent::SpawnFailed) => (
            ConnectionState::Failed(StartFailure::Spawn),
            LaunchAction::Stop,
        ),
        (ConnectionState::Connecting { .. }, LaunchEvent::ConnectSucceeded) => (
            ConnectionState::Connected,
            LaunchAction::InstallBridge,
        ),
        (ConnectionState::Connecting { attempts, elapsed_ms }, LaunchEvent::ConnectFailed) => {
            if elapsed_ms < p.timeout_ms {
                (
                    ConnectionState::Connecting {
                        attempts: attempts + 1,
                        elapsed_ms: elapsed_ms + p.retry_ms,
                    },
                    LaunchAction::RetryAfter(p.retry_ms),
                )
            } else {
                (
                    ConnectionState::Failed(StartFailure::ConnectTimeout { elapsed_ms }),
                    LaunchAction::Stop,
                )
            }
        },
        _ => (s, LaunchAction::Stop),
    }
}

/// The state after `n` failed connection attempts, starting from `s`.
pub open spec fn after_failures(p: ConnectPolicy, s: ConnectionState, n: nat) -> ConnectionState
    decreases n,
{
    if n == 0 {
        s
    } else {
        after_failures(p, next_state(p, s, LaunchEvent::ConnectFailed).0, (n - 1) as nat)
    }
}

proof fn lemma_gives_up_from(p: ConnectPolicy, s: ConnectionState)
    requires
        p.wf(),
        s is Connecting,
        s->elapsed_ms < p.timeout_ms + p.retry_ms,
    ensures
        exists|n: nat, e: u64|
            after_failures(p, s, n) == ConnectionState::Failed(StartFailure::ConnectTimeout { elapsed_ms: e })
                && p.timeout_ms <= e < p.timeout_ms + p.retry_ms,
    decreases p.timeout_ms + p.retry_ms - s->elapsed_ms,
{
    let e = s->elapsed_ms;
    let next = next_state(p, s, LaunchEvent::ConnectFailed).0;
    if e < p.timeout_ms {
        lemma_gives_up_from(p, next);
        let (n, e2) = choose|n: nat, e2: u64|
            after_failures(p, next, n) == ConnectionState::Failed(StartFailure::ConnectTimeout { elapsed_ms: e2 })
                && p.timeout_ms <= e2 < p.timeout_ms + p.retry_ms;
        assert(after_failures(p, s, n + 1) == after_failures(p, next, n));
    } else {
        assert(after_failures(p, s, 1) == after_failures(p, next, 0));
    }
}

/// Against a reporter that never becomes reachable, the client gives up with
/// `ConnectTimeout`, having waited at least the timeout and less than the
/// timeout plus one retry interval.
pub proof fn lemma_connect_timeout_bound(p: ConnectPolicy)
    requires
        p.wf(),
    ensures
        exists|n: nat, e: u64|
            after_failures(p, ConnectionState::Connecting { attempts: 0, elapsed_ms: 0 }, n)
                == ConnectionState::Failed(StartFailure::ConnectTimeout { elapsed_ms: e })
                && p.timeout_ms <= e < p.timeout_ms + p.retry_ms,
{
    lemma_gives_up_from(p, ConnectionState::Connecting { attempts: 0, elapsed_ms: 0 });
}

} // verus!
