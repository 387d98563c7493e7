use vstd::prelude::*;

use crate::bump_timeout::BumpTimeout;
use crate::command::DaemonError;
use crate::command::DaemonStatus;

verus! {

/// One of the four operations a client can send over an established
/// connection.
#[derive(Debug, Clone, Copy, PartialEq, Eq, Structural)]
pub enum DaemonRequest {
    /// Ask for the current status record; `json` is the client's
    /// display preference and does not change the record.
    Status { json: bool },
    /// A successful connection is itself the acknowledgement; the
    /// operation asks for nothing further.
    Start,
    /// Ask the server to shut down.
    Stop,
    /// Ask the server to shut down so a fresh one can take its place.
    Restart,
}

/// The server's answer to one request.
#[derive(Debug)]
pub enum DaemonResponse {
    /// The status record in force when the request was handled.
    Status(DaemonStatus),
    /// A bare acknowledgement.
    Ack,
}

/// The state a running server keeps: its idle budget, the deadline that
/// budget currently extends to, the single shutdown flag, and the
/// artifact paths it reports in status records. The listener, the lock
/// file and the clock live with the caller; every decision on their
/// readings is made here.
#[derive(Debug)]
pub struct DaemonServer {
    /// The idle budget, in milliseconds: how long the server stays up
    /// past the last activity.
    pub idle_ms: u64,
    /// The self-extending deadline the idle watcher sleeps towards.
    pub timeout: BumpTimeout,
    /// The single-fire shutdown signal, set by idle expiry or by a
    /// stop or restart request.
    pub shutdown_requested: bool,
    /// Path of the server's log file.
    pub log_file: String,
    /// Path of the lock artifact (pid file).
    pub pid_file: String,
    /// Path of the endpoint artifact (socket file).
    pub sock_file: String,
}

impl DaemonServer {
    /// The status record the server reports when asked `now_ms` after
    /// it started: its uptime and the paths it serves from.
    pub open spec fn status_record_spec(self, now_ms: u64) -> DaemonStatus {
        DaemonStatus {
            uptime_ms: now_ms,
            log_file: self.log_file,
            pid_file: self.pid_file,
            sock_file: self.sock_file,
        }
    }

    /// The server state after one request handled `now_ms` after start:
    /// the deadline is pushed a full idle budget past `now_ms`, and a
    /// stop or restart request raises the shutdown flag.
    pub open spec fn dispatch_state_spec(self, request: DaemonRequest, now_ms: u64) -> DaemonServer {
        DaemonServer {
            timeout: self.timeout.after_reset(now_ms, self.idle_ms),
            shutdown_requested: self.shutdown_requested || request is Stop || request is Restart,
            ..self
        }
    }

    /// The answer to one request handled `now_ms` after start: the
    /// status record for a status request, a bare acknowledgement for
    /// the rest.
    pub open spec fn dispatch_response_spec(self, request: DaemonRequest, now_ms: u64) -> DaemonResponse {
        match request {
            DaemonRequest::Status { .. } => DaemonResponse::Status(self.status_record_spec(now_ms)),
            _ => DaemonResponse::Ack,
        }
    }

    /// A freshly started server: full idle budget ahead of it, shutdown
    /// not signalled, serving from the given paths.
    pub fn new(idle_ms: u64, log_file: String, pid_file: String, sock_file: String) -> (r: Self)
        ensures
            r.idle_ms == idle_ms,
            r.timeout.deadline_millis() == idle_ms,
            !r.shutdown_requested,
            r.log_file == log_file,
            r.pid_file == pid_file,
            r.sock_file == sock_file,
    {
        DaemonServer {
            idle_ms,
            timeout: BumpTimeout::new(idle_ms),
            shutdown_requested: false,
            log_file,
            pid_file,
            sock_file,
        }
    }

    /// Handles one successfully dispatched request, received `now_ms`
    /// after the server started.
    ///
    /// Every request first resets the deadline — activity always
    /// postpones auto-exit — then is answered: status with the current
    /// record and no effect on the shutdown flag, stop and restart with
    /// an acknowledgement and the shutdown flag raised.
    pub fn dispatch(&mut self, request: &DaemonRequest, now_ms: u64) -> (r: DaemonResponse)
        requires
            now_ms + old(self).idle_ms <= u64::MAX,
        ensures
            *final(self) == old(self).dispatch_state_spec(*request, now_ms),
            r == old(self).dispatch_response_spec(*request, now_ms),
    {
        let idle_ms: u64 = self.idle_ms;
        self.timeout.reset(now_ms, idle_ms);
        match request {
            DaemonRequest::Status { .. } => {
                let record = DaemonStatus {
                    uptime_ms: now_ms,
                    log_file: self.log_file.clone(),
                    pid_file: self.pid_file.clone(),
                    sock_file: self.sock_file.clone(),
                };
                DaemonResponse::Status(record)
            },
            DaemonRequest::Start => DaemonResponse::Ack,
            DaemonRequest::Stop => {
                self.shutdown_requested = true;
                DaemonResponse::Ack
            },
            DaemonRequest::Restart => {
                self.shutdown_requested = true;
                DaemonResponse::Ack
            },
        }
    }

    /// The idle watcher's check, made `now_ms` after start once a wait
    /// on the deadline returned: true exactly when the deadline has
    /// passed, which is when the server shuts itself down.
    pub fn idle_expired(&self, now_ms: u64) -> (r: bool)
        ensures
            r == self.timeout.expired_at(now_ms),
    {
        self.timeout.deadline() <= now_ms
    }

    /// Raises the single-fire shutdown signal; everything else is kept.
    pub fn trigger_shutdown(&mut self)
        ensures
            *final(self) == (DaemonServer { shutdown_requested: true, ..*old(self) }),
    {
        self.shutdown_requested = true;
    }
}

/// Binding outcome of `serve`: failing to take the lock is fatal with
/// `AlreadyRunning`, a lock taken but a listener that would not bind is
/// fatal with `Io`, and only both together let the server run.
pub fn check_bind(lock_acquired: bool, bind_ok: bool) -> (r: Result<(), DaemonError>)
    ensures
        !lock_acquired ==> r == Err::<(), DaemonError>(DaemonError::AlreadyRunning),
        lock_acquired && !bind_ok ==> r == Err::<(), DaemonError>(DaemonError::Io),
        (lock_acquired && bind_ok) <==> r is Ok,
{
    if !lock_acquired {
        Err(DaemonError::AlreadyRunning)
    } else if !bind_ok {
        Err(DaemonError::Io)
    } else {
        Ok(())
    }
}

/// With idle budget `T` and no activity after a request at `last_ms`,
/// the deadline stands at `last_ms + T`, so the idle check first
/// signals shutdown exactly once `T` has elapsed since that last
/// request — neither earlier nor later.
pub proof fn idle_shutdown_tracks_last_activity(
    s: DaemonServer,
    request: DaemonRequest,
    last_ms: u64,
    check_ms: u64,
)
    requires
        last_ms + s.idle_ms <= u64::MAX,
    ensures
        s.dispatch_state_spec(request, last_ms).timeout.expired_at(check_ms)
            <==> check_ms >= last_ms + s.idle_ms,
{
}

/// Activity always postpones auto-exit: as long as every check happens
/// within a full idle budget of the most recent request, the idle
/// watcher never sees the deadline expired, so a server with activity
/// at intervals shorter than its budget never shuts itself down.
pub proof fn activity_prevents_auto_shutdown(
    s: DaemonServer,
    request: DaemonRequest,
    last_ms: u64,
    check_ms: u64,
)
    requires
        last_ms + s.idle_ms <= u64::MAX,
        check_ms < last_ms + s.idle_ms,
    ensures
        !s.dispatch_state_spec(request, last_ms).timeout.expired_at(check_ms),
{
}

/// The server state after a whole run of requests, each given with the
/// instant (milliseconds after start) at which it was handled.
pub open spec fn server_after_requests(
    s: DaemonServer,
    requests: Seq<(DaemonRequest, u64)>,
) -> DaemonServer
    decreases requests.len(),
{
    if requests.len() == 0 {
        s
    } else {
        server_after_requests(s, requests.drop_last()).dispatch_state_spec(
            requests.last().0,
            requests.last().1,
        )
    }
}

/// Requests leave the idle budget itself untouched, however many are
/// handled.
pub proof fn requests_keep_idle_budget(s: DaemonServer, requests: Seq<(DaemonRequest, u64)>)
    ensures
        server_after_requests(s, requests).idle_ms == s.idle_ms,
    decreases requests.len(),
{
    if requests.len() > 0 {
        requests_keep_idle_budget(s, requests.drop_last());
    }
}

/// With activity recurring indefinitely — any run of requests at all —
/// the server never auto-shuts down before a full idle budget has
/// passed since the most recent request: every check made within
/// `idle_ms` of the last request finds the deadline unexpired.
pub proof fn recurring_activity_prevents_auto_shutdown(
    s: DaemonServer,
    requests: Seq<(DaemonRequest, u64)>,
    check_ms: u64,
)
    requires
        requests.len() > 0,
        requests.last().1 + s.idle_ms <= u64::MAX,
        check_ms < requests.last().1 + s.idle_ms,
    ensures
        !server_after_requests(s, requests).timeout.expired_at(check_ms),
{
    requests_keep_idle_budget(s, requests.drop_last());
}

/// The deadline's visible value is monotonically non-decreasing across
/// a session: a request handled at a later instant never pulls the
/// deadline back before where an earlier request left it.
pub proof fn deadline_never_retreats(
    s: DaemonServer,
    first: DaemonRequest,
    second: DaemonRequest,
    first_ms: u64,
    second_ms: u64,
)
    requires
        first_ms <= second_ms,
        second_ms + s.idle_ms <= u64::MAX,
    ensures
        s.dispatch_state_spec(first, first_ms)
            .dispatch_state_spec(second, second_ms)
            .timeout.deadline_millis()
            >= s.dispatch_state_spec(first, first_ms).timeout.deadline_millis(),
{
}

/// A status request never disturbs the shutdown flag, and a stop or
/// restart request always raises it.
pub proof fn shutdown_raised_exactly_by_stop_or_restart(
    s: DaemonServer,
    request: DaemonRequest,
    now_ms: u64,
)
    ensures
        request matches DaemonRequest::Status { .. } ==> s.dispatch_state_spec(request, now_ms).shutdown_requested == s.shutdown_requested,
        (request is Stop || request is Restart) ==> s.dispatch_state_spec(request, now_ms).shutdown_requested,
{
}

} // verus!
