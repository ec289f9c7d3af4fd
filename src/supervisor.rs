//! The reconnection supervisor: when to connect, stream, wait and stop.
//! It decides; its owner runs the connection, the timers and the ledger.
use vstd::prelude::*;

verus! {

/// The first wait, in seconds, and the one after a connection that streamed.
pub const INITIAL_BACKOFF_SECS: u64 = 1;

/// The longest wait between attempts, in seconds.
pub const MAX_BACKOFF_SECS: u64 = 60;

/// How often a wait or a stream looks for a shutdown request, in
/// milliseconds.
pub const SHUTDOWN_POLL_MS: u64 = 200;

/// Where the supervisor stands.
#[derive(Debug, Clone, Copy, PartialEq, Eq, Structural)]
pub enum Phase {
    Connecting,
    Streaming,
    Backoff,
    Stopped,
}

/// What the supervisor learns.
#[derive(Debug, Clone, Copy, PartialEq, Eq, Structural)]
pub enum SupervisorEvent {
    /// The handshake completed and the stream began.
    ConnectSucceeded,
    /// The attempt failed before streaming.
    ConnectFailed,
    /// The stream ended, closed by the peer or by an error.
    StreamEnded,
    /// The wait is over.
    BackoffElapsed,
    /// Someone asked the recorder to stop.
    ShutdownRequested,
}

/// What the supervisor asks its owner to do.
#[derive(Debug, Clone, Copy, PartialEq, Eq, Structural)]
pub enum SupervisorAction {
    /// Build a fresh client and connect it.
    Connect,
    /// Read the stream into the ledger, flushing on the timer.
    Stream,
    /// Wait this many seconds, watching for a shutdown request.
    Wait { secs: u64 },
    /// Cancel any reader, flush the ledger, record the stop time, and end.
    Stop,
    /// Nothing: the event does not apply in this phase.
    Continue,
}

/// The supervisor as the contracts see it.
#[derive(Debug, Clone, Copy, PartialEq, Eq, Structural)]
pub struct SupervisorState {
    pub phase: Phase,
    /// The wait that the next failure will bring, in seconds.
    pub backoff_secs: u64,
}

/// The wait after `b`: twice as long, but never over the cap.
pub open spec fn next_backoff(b: u64) -> u64 {
    if 2 * b >= MAX_BACKOFF_SECS {
        MAX_BACKOFF_SECS
    } else {
        (2 * b) as u64
    }
}

/// The state and action that an event leads to.
pub open spec fn transition(s: SupervisorState, ev: SupervisorEvent) -> (
    SupervisorState,
    SupervisorAction,
) {
    if s.phase == Phase::Stopped {
        (s, SupervisorAction::Stop)
    } else if ev == SupervisorEvent::ShutdownRequested {
        (SupervisorState { phase: Phase::Stopped, ..s }, SupervisorAction::Stop)
    } else if s.phase == Phase::Connecting && ev == SupervisorEvent::ConnectSucceeded {
        (
            SupervisorState { phase: Phase::Streaming, backoff_secs: INITIAL_BACKOFF_SECS },
            SupervisorAction::Stream,
        )
    } else if (s.phase == Phase::Connecting && ev == SupervisorEvent::ConnectFailed) || (s.phase
        == Phase::Streaming && ev == SupervisorEvent::StreamEnded) {
        (
            SupervisorState { phase: Phase::Backoff, backoff_secs: next_backoff(s.backoff_secs) },
            SupervisorAction::Wait { secs: s.backoff_secs },
        )
    } else if s.phase == Phase::Backoff && ev == SupervisorEvent::BackoffElapsed {
        (SupervisorState { phase: Phase::Connecting, ..s }, SupervisorAction::Connect)
    } else {
        (s, SupervisorAction::Continue)
    }
}

/// The state a supervisor starts in.
pub open spec fn initial() -> SupervisorState {
    SupervisorState { phase: Phase::Connecting, backoff_secs: INITIAL_BACKOFF_SECS }
}

/// The supervisor.
pub struct Supervisor {
    state: SupervisorState,
}

impl View for Supervisor {
    type V = SupervisorState;

    closed spec fn view(&self) -> SupervisorState {
        self.state
    }
}

/// A wait stays between one second and the cap.
pub open spec fn backoff_ok(s: SupervisorState) -> bool {
    INITIAL_BACKOFF_SECS <= s.backoff_secs <= MAX_BACKOFF_SECS
}

impl Supervisor {
    /// A supervisor about to make its first attempt; its first action is
    /// `Connect`.
    pub fn new() -> (r: Supervisor)
        ensures
            r@ == initial(),
    {
        Supervisor {
            state: SupervisorState { phase: Phase::Connecting, backoff_secs: INITIAL_BACKOFF_SECS },
        }
    }

    /// The current phase.
    pub fn phase(&self) -> (r: Phase)
        ensures
            r == self@.phase,
    {
        self.state.phase
    }

    /// The wait that the next failure will bring, in seconds.
    pub fn backoff_secs(&self) -> (r: u64)
        ensures
            r == self@.backoff_secs,
    {
        self.state.backoff_secs
    }

    /// Takes one event and says what to do. A shutdown request stops the
    /// supervisor from any phase, for good. A failed attempt, or a stream
    /// that ended, is followed by a wait of the current backoff, and the
    /// backoff doubles up to the cap; it goes back to one second only once
    /// a connection reaches streaming.
    pub fn step(&mut self, ev: SupervisorEvent) -> (r: SupervisorAction)
        requires
            backoff_ok(old(self)@),
        ensures
            backoff_ok(final(self)@),
            (final(self)@, r) == transition(old(self)@, ev),
    {
        let s = self.state;
        if s.phase == Phase::Stopped {
            return SupervisorAction::Stop;
        }
        if ev == SupervisorEvent::ShutdownRequested {
            self.state = SupervisorState { phase: Phase::Stopped, ..s };
            return SupervisorAction::Stop;
        }
        if s.phase == Phase::Connecting && ev == SupervisorEvent::ConnectSucceeded {
            self.state = SupervisorState {
                phase: Phase::Streaming,
                backoff_secs: INITIAL_BACKOFF_SECS,
            };
            SupervisorAction::Stream
        } else if (s.phase == Phase::Connecting && ev == SupervisorEvent::ConnectFailed) || (s.phase
            == Phase::Streaming && ev == SupervisorEvent::StreamEnded) {
            let next = if s.backoff_secs >= MAX_BACKOFF_SECS / 2 {
                MAX_BACKOFF_SECS
            } else {
                2 * s.backoff_secs
            };
            self.state = SupervisorState { phase: Phase::Backoff, backoff_secs: next };
            SupervisorAction::Wait { secs: s.backoff_secs }
        } else if s.phase == Phase::Backoff && ev == SupervisorEvent::BackoffElapsed {
            self.state = SupervisorState { phase: Phase::Connecting, ..s };
            SupervisorAction::Connect
        } else {
            SupervisorAction::Continue
        }
    }
}

/// How long to sleep before looking again for a shutdown request, while
/// `remaining_ms` of a wait are left: never longer than the poll interval.
pub fn poll_slice(remaining_ms: u64) -> (r: u64)
    ensures
        r == if remaining_ms < SHUTDOWN_POLL_MS {
            remaining_ms
        } else {
            SHUTDOWN_POLL_MS
        },
{
    if remaining_ms < SHUTDOWN_POLL_MS {
        remaining_ms
    } else {
        SHUTDOWN_POLL_MS
    }
}

/// Two to the power `n`.
pub open spec fn pow2(n: nat) -> nat
    decreases n,
{
    if n == 0 {
        1
    } else {
        2 * pow2((n - 1) as nat)
    }
}

/// The `n`-th wait of an unbroken run of failures: `2^n` seconds, capped.
pub open spec fn capped_wait(n: nat) -> nat {
    if pow2(n) >= MAX_BACKOFF_SECS {
        MAX_BACKOFF_SECS as nat
    } else {
        pow2(n)
    }
}

/// The state after `n` attempts from `s` that each failed at once and were
/// followed by their wait.
pub open spec fn after_failures(s: SupervisorState, n: nat) -> SupervisorState
    decreases n,
{
    if n == 0 {
        s
    } else {
        let f = transition(after_failures(s, (n - 1) as nat), SupervisorEvent::ConnectFailed).0;
        transition(f, SupervisorEvent::BackoffElapsed).0
    }
}

/// Repeated immediate failures wait 1, 2, 4, 8, 16, 32 seconds, then 60
/// seconds each time: the `n`-th failure (from zero) waits `2^n` seconds,
/// capped at 60, and no wait is ever longer.
pub proof fn law_backoff_sequence(n: nat)
    ensures
        after_failures(initial(), n).phase == Phase::Connecting,
        after_failures(initial(), n).backoff_secs == capped_wait(n),
        transition(after_failures(initial(), n), SupervisorEvent::ConnectFailed).1
            == (SupervisorAction::Wait { secs: capped_wait(n) as u64 }),
        capped_wait(n) <= MAX_BACKOFF_SECS,
    decreases n,
{
    if n > 0 {
        law_backoff_sequence((n - 1) as nat);
        assert(pow2(n) == 2 * pow2((n - 1) as nat));
    }
}

/// Reaching the stream resets the backoff: from any attempt, a connection
/// that streams and then ends is followed by a wait of one second.
pub proof fn law_streaming_resets_backoff(s: SupervisorState)
    requires
        s.phase == Phase::Connecting,
        backoff_ok(s),
    ensures
        transition(s, SupervisorEvent::ConnectSucceeded).0.backoff_secs == INITIAL_BACKOFF_SECS,
        transition(transition(s, SupervisorEvent::ConnectSucceeded).0, SupervisorEvent::StreamEnded).1
            == (SupervisorAction::Wait { secs: INITIAL_BACKOFF_SECS }),
{
}

/// A shutdown request is honoured at once, from a wait as from any other
/// phase, and nothing afterwards restarts the supervisor.
pub proof fn law_shutdown_is_final(s: SupervisorState, later: SupervisorEvent)
    ensures
        transition(s, SupervisorEvent::ShutdownRequested).1 == SupervisorAction::Stop,
        transition(s, SupervisorEvent::ShutdownRequested).0.phase == Phase::Stopped,
        transition(transition(s, SupervisorEvent::ShutdownRequested).0, later).1
            == SupervisorAction::Stop,
        transition(transition(s, SupervisorEvent::ShutdownRequested).0, later).0.phase
            == Phase::Stopped,
{
}

} // verus!
