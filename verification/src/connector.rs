use vstd::prelude::*;

use crate::command::DaemonError;
use crate::command::DaemonStatus;

verus! {

/// How many failed poll dials the connector tolerates, after the first
/// dial, before it declares the startup timed out. Together with the
/// caller's backoff delay this bounds the whole spawn-and-poll phase.
pub const CONNECT_POLL_ATTEMPTS: u64 = 10;

/// Client-side logic that locates or spawns a server: capability flags
/// of the invocation plus the artifact paths everything is keyed on.
#[derive(Debug)]
pub struct DaemonConnector {
    /// Whether this invocation may create a server.
    pub can_start_server: bool,
    /// Whether this invocation may terminate a server by process id.
    pub can_kill_server: bool,
    /// Path of the lock artifact (pid file).
    pub pid_file: String,
    /// Path of the endpoint artifact (socket file).
    pub sock_file: String,
}

/// Where a connect attempt stands. The caller performs the action the
/// state calls for, feeds the outcome back in as a [`ConnectEvent`],
/// and steps the machine until it reaches `Connected` or `Failed`.
#[derive(Debug, Clone, Copy, PartialEq, Eq, Structural)]
pub enum ConnectState {
    /// About to make the first dial at the endpoint artifact.
    Init,
    /// The first dial failed; the lock artifact is being inspected for
    /// staleness before anything else is decided.
    LockCheck,
    /// Competing to become the spawning party by taking the lock.
    Electing,
    /// The lock is held; the server process is being spawned.
    Spawning,
    /// Poll-dialing the endpoint with a bounded number of retries,
    /// either towards a server this connector spawned or towards one a
    /// concurrent invocation is bringing up.
    Polling { spawned: bool, attempts_left: u64 },
    /// A connection is established; the attempt succeeded.
    Connected,
    /// The attempt is over without a connection.
    Failed(ConnectFailure),
}

/// Why a connect attempt ended without a connection.
#[derive(Debug, Clone, Copy, PartialEq, Eq, Structural)]
pub enum ConnectFailure {
    /// No server was reachable and this invocation may not spawn one.
    NotRunning,
    /// No dial succeeded before the poll budget ran out.
    StartupTimeout,
    /// The server process could not be launched.
    SpawnFailed,
}

/// The outcome of the outside action a state called for.
#[derive(Debug, Clone, Copy, PartialEq, Eq, Structural)]
pub enum ConnectEvent {
    /// A dial at the endpoint artifact succeeded or failed.
    Dialed(bool),
    /// The lock artifact was looked at: whether it exists, and whether
    /// the process it names is alive.
    LockInspected { present: bool, owner_alive: bool },
    /// Trying to take the lock succeeded or failed.
    LockTried(bool),
    /// Launching the server process succeeded or failed.
    Spawned(bool),
}

/// What the caller must do next for a given state.
#[derive(Debug, Clone, Copy, PartialEq, Eq, Structural)]
pub enum ConnectAction {
    /// Dial the endpoint artifact once.
    Dial,
    /// Look at the lock artifact and report what it holds.
    InspectLock,
    /// Try to take the lock artifact exclusively.
    TryAcquireLock,
    /// Launch the server process bound to the known artifact paths.
    SpawnServer,
    /// Sleep one backoff delay, then dial the endpoint once.
    BackoffAndDial,
    /// The connection is established: hand it to the operation.
    UseConnection,
    /// Surface the failure the state carries.
    GiveUp,
}

/// Whether a state ends the attempt.
pub open spec fn connect_done(state: ConnectState) -> bool {
    state is Connected || state is Failed
}

/// The action a state calls for.
pub open spec fn connect_action_spec(state: ConnectState) -> ConnectAction {
    match state {
        ConnectState::Init => ConnectAction::Dial,
        ConnectState::LockCheck => ConnectAction::InspectLock,
        ConnectState::Electing => ConnectAction::TryAcquireLock,
        ConnectState::Spawning => ConnectAction::SpawnServer,
        ConnectState::Polling { .. } => ConnectAction::BackoffAndDial,
        ConnectState::Connected => ConnectAction::UseConnection,
        ConnectState::Failed(_) => ConnectAction::GiveUp,
    }
}

/// Whether an event is the outcome of the action `state` calls for.
pub open spec fn event_fits(state: ConnectState, event: ConnectEvent) -> bool {
    match state {
        ConnectState::Init => event is Dialed,
        ConnectState::LockCheck => event is LockInspected,
        ConnectState::Electing => event is LockTried,
        ConnectState::Spawning => event is Spawned,
        ConnectState::Polling { .. } => event is Dialed,
        ConnectState::Connected => false,
        ConnectState::Failed(_) => false,
    }
}

/// One transition of the connect state machine; a finished state, or an
/// event that is not the outcome of the state's own action, changes
/// nothing.
///
/// The machine follows the connect algorithm: dial first and use any
/// live server; on a failed dial inspect the lock, and without the
/// start capability fail with `NotRunning`; with it, run the lock
/// election — the winner spawns, a loser polls towards the winner's
/// soon-to-exist endpoint instead of erroring; polling retries a failed
/// dial a bounded number of times before `StartupTimeout`.
pub open spec fn connect_step_spec(
    c: DaemonConnector,
    state: ConnectState,
    event: ConnectEvent,
) -> ConnectState {
    if !event_fits(state, event) {
        state
    } else {
        match (state, event) {
            (ConnectState::Init, ConnectEvent::Dialed(ok)) => {
                if ok {
                    ConnectState::Connected
                } else {
                    ConnectState::LockCheck
                }
            },
            (ConnectState::LockCheck, ConnectEvent::LockInspected { .. }) => {
                if c.can_start_server {
                    ConnectState::Electing
                } else {
                    ConnectState::Failed(ConnectFailure::NotRunning)
                }
            },
            (ConnectState::Electing, ConnectEvent::LockTried(acquired)) => {
                if acquired {
                    ConnectState::Spawning
                } else {
                    ConnectState::Polling { spawned: false, attempts_left: CONNECT_POLL_ATTEMPTS }
                }
            },
            (ConnectState::Spawning, ConnectEvent::Spawned(ok)) => {
                if ok {
                    ConnectState::Polling { spawned: true, attempts_left: CONNECT_POLL_ATTEMPTS }
                } else {
                    ConnectState::Failed(ConnectFailure::SpawnFailed)
                }
            },
            (ConnectState::Polling { spawned, attempts_left }, ConnectEvent::Dialed(ok)) => {
                if ok {
                    ConnectState::Connected
                } else if attempts_left > 0 {
                    ConnectState::Polling { spawned, attempts_left: (attempts_left - 1) as u64 }
                } else {
                    ConnectState::Failed(ConnectFailure::StartupTimeout)
                }
            },
            _ => state,
        }
    }
}

/// The state a run of the machine reaches from `state` after the whole
/// event sequence is fed in, first event first.
pub open spec fn connect_run(
    c: DaemonConnector,
    state: ConnectState,
    events: Seq<ConnectEvent>,
) -> ConnectState
    decreases events.len(),
{
    if events.len() == 0 {
        state
    } else {
        connect_run(c, connect_step_spec(c, state, events.first()), events.drop_first())
    }
}

/// The error a finished connect attempt surfaces.
pub open spec fn failure_error_spec(failure: ConnectFailure) -> DaemonError {
    match failure {
        ConnectFailure::NotRunning => DaemonError::NotRunning,
        ConnectFailure::StartupTimeout => DaemonError::StartupTimeout,
        ConnectFailure::SpawnFailed => DaemonError::Io,
    }
}

/// The action the caller must perform for the current state of a
/// connect attempt.
pub fn connect_action(state: &ConnectState) -> (r: ConnectAction)
    ensures
        r == connect_action_spec(*state),
{
    match state {
        ConnectState::Init => ConnectAction::Dial,
        ConnectState::LockCheck => ConnectAction::InspectLock,
        ConnectState::Electing => ConnectAction::TryAcquireLock,
        ConnectState::Spawning => ConnectAction::SpawnServer,
        ConnectState::Polling { .. } => ConnectAction::BackoffAndDial,
        ConnectState::Connected => ConnectAction::UseConnection,
        ConnectState::Failed(_) => ConnectAction::GiveUp,
    }
}

/// The error a finished attempt surfaces to the invocation.
pub fn failure_error(failure: ConnectFailure) -> (r: DaemonError)
    ensures
        r == failure_error_spec(failure),
{
    match failure {
        ConnectFailure::NotRunning => DaemonError::NotRunning,
        ConnectFailure::StartupTimeout => DaemonError::StartupTimeout,
        ConnectFailure::SpawnFailed => DaemonError::Io,
    }
}

impl DaemonConnector {
    /// Advances a connect attempt by the outcome of the action its
    /// state called for.
    pub fn connect_step(&self, state: &mut ConnectState, event: ConnectEvent)
        requires
            !connect_done(*old(state)),
            event_fits(*old(state), event),
        ensures
            *final(state) == connect_step_spec(*self, *old(state), event),
    {
        let next: ConnectState = match (&*state, &event) {
            (ConnectState::Init, ConnectEvent::Dialed(ok)) => {
                if *ok {
                    ConnectState::Connected
                } else {
                    ConnectState::LockCheck
                }
            },
            (ConnectState::LockCheck, ConnectEvent::LockInspected { .. }) => {
                if self.can_start_server {
                    ConnectState::Electing
                } else {
                    ConnectState::Failed(ConnectFailure::NotRunning)
                }
            },
            (ConnectState::Electing, ConnectEvent::LockTried(acquired)) => {
                if *acquired {
                    ConnectState::Spawning
                } else {
                    ConnectState::Polling { spawned: false, attempts_left: CONNECT_POLL_ATTEMPTS }
                }
            },
            (ConnectState::Spawning, ConnectEvent::Spawned(ok)) => {
                if *ok {
                    ConnectState::Polling { spawned: true, attempts_left: CONNECT_POLL_ATTEMPTS }
                } else {
                    ConnectState::Failed(ConnectFailure::SpawnFailed)
                }
            },
            (ConnectState::Polling { spawned, attempts_left }, ConnectEvent::Dialed(ok)) => {
                if *ok {
                    ConnectState::Connected
                } else if *attempts_left > 0 {
                    ConnectState::Polling { spawned: *spawned, attempts_left: *attempts_left - 1 }
                } else {
                    ConnectState::Failed(ConnectFailure::StartupTimeout)
                }
            },
            _ => unreached(),
        };
        *state = next;
    }

    /// The connector for the second run of the connect algorithm after
    /// a restart acknowledgement.
    ///
    /// A restart intent dials the live server without the start
    /// capability, as a stop does; but once the old instance has
    /// acknowledged that it is shutting down, the fresh instance this
    /// operation owes its caller can only come from a new election, so
    /// the re-run carries the start capability. Paths and the kill
    /// capability are kept.
    pub fn restart_reconnector(&self) -> (r: DaemonConnector)
        ensures
            r.can_start_server,
            r.can_kill_server == self.can_kill_server,
            r.pid_file == self.pid_file,
            r.sock_file == self.sock_file,
    {
        DaemonConnector {
            can_start_server: true,
            can_kill_server: self.can_kill_server,
            pid_file: self.pid_file.clone(),
            sock_file: self.sock_file.clone(),
        }
    }

    /// The status record an invocation displays: the server-reported
    /// uptime and log file, completed with the artifact paths this
    /// connector was built with.
    pub fn status_record(&self, uptime_ms: u64, log_file: String) -> (r: DaemonStatus)
        ensures
            r.uptime_ms == uptime_ms,
            r.log_file == log_file,
            r.pid_file == self.pid_file,
            r.sock_file == self.sock_file,
    {
        DaemonStatus {
            uptime_ms,
            log_file,
            pid_file: self.pid_file.clone(),
            sock_file: self.sock_file.clone(),
        }
    }
}

/// Whether a lock artifact must be cleared before going on: exactly
/// when it exists but the process it names is no longer alive — a
/// leftover of a crash, not a live server's lock.
pub fn should_clear_stale_lock(present: bool, owner_alive: bool) -> (r: bool)
    ensures
        r == (present && !owner_alive),
{
    present && !owner_alive
}

/// The states a connector without the start capability can ever be in.
pub open spec fn no_start_state(state: ConnectState) -> bool {
    ||| state is Init
    ||| state is LockCheck
    ||| state is Connected
    ||| state == ConnectState::Failed(ConnectFailure::NotRunning)
}

/// A connector that may not start a server keeps to the passive states:
/// one step never takes it to the lock election, the spawn, or the poll
/// loop, and the only failure it can reach is `NotRunning`.
pub proof fn no_start_step_stays_passive(
    c: DaemonConnector,
    state: ConnectState,
    event: ConnectEvent,
)
    requires
        !c.can_start_server,
        no_start_state(state),
    ensures
        no_start_state(connect_step_spec(c, state, event)),
{
}

/// An invocation that may not start a server never acquires the lock,
/// never spawns, and never polls: whatever outcomes come back, a whole
/// run from the initial state either connects to a live server or ends
/// as exactly `Failed(NotRunning)` — and so it creates neither lock nor
/// endpoint artifacts.
pub proof fn no_start_never_spawns(c: DaemonConnector, events: Seq<ConnectEvent>)
    requires
        !c.can_start_server,
    ensures
        no_start_state(connect_run(c, ConnectState::Init, events)),
        connect_action_spec(connect_run(c, ConnectState::Init, events)) != ConnectAction::TryAcquireLock,
        connect_action_spec(connect_run(c, ConnectState::Init, events)) != ConnectAction::SpawnServer,
{
    no_start_run_stays_passive(c, ConnectState::Init, events);
}

/// Run-level closure of the passive states under every event sequence.
pub proof fn no_start_run_stays_passive(
    c: DaemonConnector,
    state: ConnectState,
    events: Seq<ConnectEvent>,
)
    requires
        !c.can_start_server,
        no_start_state(state),
    ensures
        no_start_state(connect_run(c, state, events)),
    decreases events.len(),
{
    if events.len() > 0 {
        no_start_step_stays_passive(c, state, events.first());
        no_start_run_stays_passive(c, connect_step_spec(c, state, events.first()), events.drop_first());
    }
}

/// The spawn step is reached only by winning the lock election: a run
/// whose events never report a successful lock acquisition never stands
/// in the spawning state. Since the lock is held by at most one process
/// at a time, at most one of any number of concurrent invocations
/// spawns; the rest converge on the winner's endpoint.
pub proof fn spawn_only_by_winning_election(
    c: DaemonConnector,
    state: ConnectState,
    events: Seq<ConnectEvent>,
)
    requires
        !(state is Spawning),
        forall|i: int| 0 <= i < events.len() ==> events[i] != ConnectEvent::LockTried(true),
    ensures
        !(connect_run(c, state, events) is Spawning),
    decreases events.len(),
{
    if events.len() > 0 {
        assert(events[0] != ConnectEvent::LockTried(true));
        spawn_only_by_winning_election(c, connect_step_spec(c, state, events.first()), events.drop_first());
    }
}

/// A reconnect after a restart acknowledgement can always produce the
/// replacement server: a connector with the start capability — as
/// [`DaemonConnector::restart_reconnector`] grants — never ends a run
/// in `Failed(NotRunning)`, whatever outcomes come back; its attempt
/// either connects or fails only for startup reasons.
pub proof fn with_start_capability_never_not_running(
    c: DaemonConnector,
    state: ConnectState,
    events: Seq<ConnectEvent>,
)
    requires
        c.can_start_server,
        state != ConnectState::Failed(ConnectFailure::NotRunning),
    ensures
        connect_run(c, state, events) != ConnectState::Failed(ConnectFailure::NotRunning),
    decreases events.len(),
{
    if events.len() > 0 {
        with_start_capability_never_not_running(
            c,
            connect_step_spec(c, state, events.first()),
            events.drop_first(),
        );
    }
}

/// A connection is only ever reached through a dial that succeeded: a
/// run whose events never report one never ends connected. Every
/// client an attempt yields is therefore bound to the endpoint
/// artifact it dialed.
pub proof fn connected_only_by_successful_dial(
    c: DaemonConnector,
    state: ConnectState,
    events: Seq<ConnectEvent>,
)
    requires
        !(state is Connected),
        forall|i: int| 0 <= i < events.len() ==> events[i] != ConnectEvent::Dialed(true),
    ensures
        !(connect_run(c, state, events) is Connected),
    decreases events.len(),
{
    if events.len() > 0 {
        assert(events[0] != ConnectEvent::Dialed(true));
        connected_only_by_successful_dial(
            c,
            connect_step_spec(c, state, events.first()),
            events.drop_first(),
        );
    }
}

/// Whether a state keeps within the poll budget.
pub open spec fn poll_budget_respected(state: ConnectState) -> bool {
    state matches ConnectState::Polling { attempts_left, .. } ==> attempts_left
        <= CONNECT_POLL_ATTEMPTS
}

/// No run from the initial state ever holds more than the full poll
/// budget: every polling state it passes through keeps within
/// `CONNECT_POLL_ATTEMPTS`, which together with the decrease on each
/// failed dial bounds the whole spawn-and-poll phase.
pub proof fn runs_respect_poll_budget(
    c: DaemonConnector,
    state: ConnectState,
    events: Seq<ConnectEvent>,
)
    requires
        poll_budget_respected(state),
    ensures
        poll_budget_respected(connect_run(c, state, events)),
    decreases events.len(),
{
    if events.len() > 0 {
        runs_respect_poll_budget(c, connect_step_spec(c, state, events.first()), events.drop_first());
    }
}

/// The poll loop is bounded: every failed dial while polling either
/// strictly lowers the number of attempts left or ends the attempt with
/// `StartupTimeout`, so the connector never retries indefinitely.
pub proof fn polling_is_bounded(c: DaemonConnector, spawned: bool, attempts_left: u64)
    ensures
        ({
            let next = connect_step_spec(
                c,
                ConnectState::Polling { spawned, attempts_left },
                ConnectEvent::Dialed(false),
            );
            next matches ConnectState::Polling { attempts_left: left2, .. } ==> left2 < attempts_left
        }),
        attempts_left == 0 ==> connect_step_spec(
            c,
            ConnectState::Polling { spawned, attempts_left },
            ConnectEvent::Dialed(false),
        ) == ConnectState::Failed(ConnectFailure::StartupTimeout),
{
}

} // verus!
