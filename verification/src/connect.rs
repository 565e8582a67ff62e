use vstd::prelude::*;

verus! {

/// The fixed number of attempts each connection stage is allowed.
pub const DEFAULT_MAX_ATTEMPTS: u8 = 5;

/// The fixed wait between attempts, in milliseconds.
pub const DEFAULT_INTERVAL_MS: u64 = 1000;

/// The bounded-retry policy applied independently at each connection
/// stage: a fixed number of attempts with a fixed wait between them.
#[derive(Clone, Copy, Debug, PartialEq, Eq, Structural)]
pub struct RetryPolicy {
    pub max_attempts: u8,
    pub interval_ms: u64,
}

impl RetryPolicy {
    /// A policy is well formed when it allows at least one attempt.
    pub open spec fn wf(self) -> bool {
        self.max_attempts >= 1
    }

    /// The standard policy: five attempts, one second apart.
    pub fn standard() -> (r: RetryPolicy)
        ensures
            r == (RetryPolicy { max_attempts: DEFAULT_MAX_ATTEMPTS, interval_ms: DEFAULT_INTERVAL_MS }),
            r.wf(),
    {
        RetryPolicy { max_attempts: DEFAULT_MAX_ATTEMPTS, interval_ms: DEFAULT_INTERVAL_MS }
    }
}

/// Which connection stage failed for good.
#[derive(Clone, Copy, Debug, PartialEq, Eq, Structural)]
pub enum ConnError {
    /// The session transport connection could not be opened within the
    /// allowed attempts.
    TransportUnavailable,
    /// The transport was opened, but the settings service proxy could
    /// not be bound within the allowed attempts.
    ProxyUnavailable,
}

/// Where one connection operation stands. The two trying stages are
/// independent: a transport failure counts against the transport stage
/// only, a proxy failure against the proxy stage only, and a proxy
/// failure never reopens the transport.
#[derive(Clone, Copy, Debug, PartialEq, Eq, Structural)]
pub enum ConnState {
    /// Opening the session transport connection; `failures` attempts
    /// have failed so far.
    Transport { failures: u8 },
    /// The transport is open; binding the settings service proxy;
    /// `failures` attempts have failed so far.
    Proxy { failures: u8 },
    /// Transport and proxy are both up.
    Connected,
    /// One stage used up all its attempts.
    Failed { error: ConnError },
}

/// What the surrounding program is asked to do next.
#[derive(Clone, Copy, Debug, PartialEq, Eq, Structural)]
pub enum ConnAction {
    /// Try to open the session transport connection, then report back.
    AttemptTransport,
    /// Try to bind the settings service proxy, then report back.
    AttemptProxy,
    /// The connection is ready; nothing is left to do.
    Done,
    /// The operation failed for good with this terminal error.
    GiveUp { error: ConnError },
}

/// How one reported outcome moves the state on: a success moves to the
/// next stage, a failure counts against the current stage and, once the
/// stage's attempts are used up, fails for good.
pub open spec fn step_spec(policy: RetryPolicy, s: ConnState, success: bool) -> ConnState {
    match s {
        ConnState::Transport { failures } => {
            if success {
                ConnState::Proxy { failures: 0 }
            } else if failures + 1 >= policy.max_attempts {
                ConnState::Failed { error: ConnError::TransportUnavailable }
            } else {
                ConnState::Transport { failures: (failures + 1) as u8 }
            }
        },
        ConnState::Proxy { failures } => {
            if success {
                ConnState::Connected
            } else if failures + 1 >= policy.max_attempts {
                ConnState::Failed { error: ConnError::ProxyUnavailable }
            } else {
                ConnState::Proxy { failures: (failures + 1) as u8 }
            }
        },
        _ => s,
    }
}

/// The action each state asks for.
pub open spec fn action_spec(s: ConnState) -> ConnAction {
    match s {
        ConnState::Transport { .. } => ConnAction::AttemptTransport,
        ConnState::Proxy { .. } => ConnAction::AttemptProxy,
        ConnState::Connected => ConnAction::Done,
        ConnState::Failed { error } => ConnAction::GiveUp { error },
    }
}

/// The two-stage bounded-retry connection state machine. The waits and
/// the attempts themselves are outside work; this decides, from each
/// reported outcome, what happens next.
pub struct ConnectionManager {
    policy: RetryPolicy,
    state: ConnState,
}

impl ConnectionManager {
    /// The policy this manager was made with.
    pub closed spec fn policy_spec(self) -> RetryPolicy {
        self.policy
    }

    /// Where the operation stands.
    pub closed spec fn state_spec(self) -> ConnState {
        self.state
    }

    /// The state machine's invariant: failure counts never reach the
    /// attempt bound while a stage is still trying.
    pub open spec fn wf(self) -> bool {
        &&& self.policy_spec().wf()
        &&& match self.state_spec() {
            ConnState::Transport { failures } => failures < self.policy_spec().max_attempts,
            ConnState::Proxy { failures } => failures < self.policy_spec().max_attempts,
            _ => true,
        }
    }

    /// Whether the operation still asks for outside work.
    pub open spec fn in_progress(self) -> bool {
        self.state_spec() is Transport || self.state_spec() is Proxy
    }

    /// Start a connection operation under the given policy, at the
    /// transport stage with no failures yet.
    pub fn new(policy: RetryPolicy) -> (r: ConnectionManager)
        requires
            policy.wf(),
        ensures
            r.wf(),
            r.policy_spec() == policy,
            r.state_spec() == (ConnState::Transport { failures: 0 }),
    {
        ConnectionManager { policy, state: ConnState::Transport { failures: 0 } }
    }

    /// What the surrounding program should do next.
    pub fn action(&self) -> (r: ConnAction)
        ensures
            r == action_spec(self.state_spec()),
    {
        match self.state {
            ConnState::Transport { .. } => ConnAction::AttemptTransport,
            ConnState::Proxy { .. } => ConnAction::AttemptProxy,
            ConnState::Connected => ConnAction::Done,
            ConnState::Failed { error } => ConnAction::GiveUp { error },
        }
    }

    /// The interval to wait after a failed attempt, in milliseconds.
    pub fn interval_ms(&self) -> (r: u64)
        ensures
            r == self.policy_spec().interval_ms,
    {
        self.policy.interval_ms
    }

    /// Report the outcome of the attempt the manager asked for.
    pub fn record_outcome(&mut self, success: bool)
        requires
            old(self).wf(),
            old(self).in_progress(),
        ensures
            final(self).wf(),
            final(self).policy_spec() == old(self).policy_spec(),
            final(self).state_spec() == step_spec(old(self).policy_spec(), old(self).state_spec(), success),
    {
        match self.state {
            ConnState::Transport { failures } => {
                if success {
                    self.state = ConnState::Proxy { failures: 0 };
                } else if failures + 1 >= self.policy.max_attempts {
                    self.state = ConnState::Failed { error: ConnError::TransportUnavailable };
                } else {
                    self.state = ConnState::Transport { failures: failures + 1 };
                }
            },
            ConnState::Proxy { failures } => {
                if success {
                    self.state = ConnState::Connected;
                } else if failures + 1 >= self.policy.max_attempts {
                    self.state = ConnState::Failed { error: ConnError::ProxyUnavailable };
                } else {
                    self.state = ConnState::Proxy { failures: failures + 1 };
                }
            },
            _ => {},
        }
    }
}

/// The state after `n` more failed attempts are reported.
pub open spec fn after_failures_spec(policy: RetryPolicy, s: ConnState, n: nat) -> ConnState
    decreases n,
{
    if n == 0 {
        s
    } else {
        after_failures_spec(policy, step_spec(policy, s, false), (n - 1) as nat)
    }
}

/// While the transport stage has failed fewer times than the bound
/// allows, more failures keep it trying until the bound is reached, and
/// at the bound it fails for good with the transport's terminal error.
proof fn lemma_transport_exhaustion(policy: RetryPolicy, f: u8, n: nat)
    requires
        policy.wf(),
        f < policy.max_attempts,
        f + n <= policy.max_attempts,
    ensures
        after_failures_spec(policy, ConnState::Transport { failures: f }, n) == (if f + n
            == policy.max_attempts {
            ConnState::Failed { error: ConnError::TransportUnavailable }
        } else {
            ConnState::Transport { failures: (f + n) as u8 }
        }),
    decreases n,
{
    if n > 0 {
        if f + 1 == policy.max_attempts {
            lemma_failed_stays(
                policy,
                ConnError::TransportUnavailable,
                (n - 1) as nat,
            );
        } else {
            lemma_transport_exhaustion(policy, (f + 1) as u8, (n - 1) as nat);
        }
    }
}

/// The same for the proxy stage, with the proxy's terminal error.
proof fn lemma_proxy_exhaustion(policy: RetryPolicy, f: u8, n: nat)
    requires
        policy.wf(),
        f < policy.max_attempts,
        f + n <= policy.max_attempts,
    ensures
        after_failures_spec(policy, ConnState::Proxy { failures: f }, n) == (if f + n
            == policy.max_attempts {
            ConnState::Failed { error: ConnError::ProxyUnavailable }
        } else {
            ConnState::Proxy { failures: (f + n) as u8 }
        }),
    decreases n,
{
    if n > 0 {
        if f + 1 == policy.max_attempts {
            lemma_failed_stays(policy, ConnError::ProxyUnavailable, (n - 1) as nat);
        } else {
            lemma_proxy_exhaustion(policy, (f + 1) as u8, (n - 1) as nat);
        }
    }
}

/// A failed operation stays failed: the terminal error never changes
/// and no further attempt is asked for.
proof fn lemma_failed_stays(policy: RetryPolicy, e: ConnError, n: nat)
    ensures
        after_failures_spec(policy, ConnState::Failed { error: e }, n) == (ConnState::Failed {
            error: e,
        }),
    decreases n,
{
    if n > 0 {
        lemma_failed_stays(policy, e, (n - 1) as nat);
    }
}

/// Bounded retry termination: a stage whose attempts all fail is still
/// trying after every number of failures below the bound, stops exactly
/// when the bound is reached, and surfaces that stage's terminal error.
/// This holds of the transport stage from a fresh manager and of the
/// proxy stage from the moment the transport stage succeeds.
pub proof fn lemma_bounded_retry(policy: RetryPolicy)
    requires
        policy.wf(),
    ensures
        forall|n: nat|
            n < policy.max_attempts ==> #[trigger] after_failures_spec(
                policy,
                ConnState::Transport { failures: 0 },
                n,
            ) == (ConnState::Transport { failures: n as u8 }),
        after_failures_spec(policy, ConnState::Transport { failures: 0 }, policy.max_attempts as nat)
            == (ConnState::Failed { error: ConnError::TransportUnavailable }),
        forall|n: nat|
            n < policy.max_attempts ==> #[trigger] after_failures_spec(
                policy,
                ConnState::Proxy { failures: 0 },
                n,
            ) == (ConnState::Proxy { failures: n as u8 }),
        after_failures_spec(policy, ConnState::Proxy { failures: 0 }, policy.max_attempts as nat)
            == (ConnState::Failed { error: ConnError::ProxyUnavailable }),
{
    assert forall|n: nat| n < policy.max_attempts implies #[trigger] after_failures_spec(
        policy,
        ConnState::Transport { failures: 0 },
        n,
    ) == (ConnState::Transport { failures: n as u8 }) by {
        lemma_transport_exhaustion(policy, 0, n);
    }
    lemma_transport_exhaustion(policy, 0, policy.max_attempts as nat);
    assert forall|n: nat| n < policy.max_attempts implies #[trigger] after_failures_spec(
        policy,
        ConnState::Proxy { failures: 0 },
        n,
    ) == (ConnState::Proxy { failures: n as u8 }) by {
        lemma_proxy_exhaustion(policy, 0, n);
    }
    lemma_proxy_exhaustion(policy, 0, policy.max_attempts as nat);
}

} // verus!
