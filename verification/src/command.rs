use vstd::prelude::*;

verus! {

/// Everything that can go wrong while running or reaching a daemon.
#[derive(Debug)]
pub enum DaemonError {
    /// The lock artifact is held by a live process.
    AlreadyRunning,
    /// No server is reachable and this invocation may not spawn one.
    NotRunning,
    /// A spawned server never became dialable before the startup
    /// timeout elapsed.
    StartupTimeout,
    /// The idle-duration string failed to parse; carries the raw input.
    InvalidTimeout(String),
    /// The channel to the server closed mid-request.
    ConnectionLost,
    /// Artifact creation or removal, binding, or a dial-level failure.
    Io,
}

/// The subcommand a daemon invocation carries.
#[derive(Debug, Clone, Copy, PartialEq, Eq, Structural)]
pub enum DaemonCommand {
    /// Report the running server's status, humanly or as JSON.
    Status { json: bool },
    /// Ensure a server is running, spawning one if need be.
    Start,
    /// Ask the running server to shut down.
    Stop,
    /// Ask the running server to shut down, then bring up a fresh one.
    Restart,
}

/// The capability flags a subcommand grants: `(can_start_server,
/// can_kill_server)`. A status-only invocation must never spawn a
/// server; a stop or restart may terminate but not create one on its
/// initial dial, so against nothing listening both fail with
/// `NotRunning`; only a start intent may create one. A restart still
/// yields a fresh server: once the old instance acknowledges, the
/// connect algorithm is re-run with the start capability granted by
/// `DaemonConnector::restart_reconnector`.
pub open spec fn capabilities_spec(command: DaemonCommand) -> (bool, bool) {
    match command {
        DaemonCommand::Status { .. } => (false, false),
        DaemonCommand::Restart | DaemonCommand::Stop => (false, true),
        DaemonCommand::Start => (true, true),
    }
}

/// Maps a subcommand to the capability flags its connector is built
/// with: `(can_start_server, can_kill_server)`.
pub fn capabilities(command: &DaemonCommand) -> (r: (bool, bool))
    ensures
        r == capabilities_spec(*command),
{
    match command {
        DaemonCommand::Status { .. } => (false, false),
        DaemonCommand::Restart | DaemonCommand::Stop => (false, true),
        DaemonCommand::Start => (true, true),
    }
}

/// What a server reports about itself, completed with the artifact
/// paths the connector already knows.
#[derive(Debug)]
pub struct DaemonStatus {
    /// Time the server has been up, in milliseconds.
    pub uptime_ms: u64,
    /// Path of the server's log file, as the server reports it.
    pub log_file: String,
    /// Path of the lock artifact (pid file).
    pub pid_file: String,
    /// Path of the endpoint artifact (socket file).
    pub sock_file: String,
}

/// The idle budget used when no `--idle-time` flag is given: four
/// hours, in nanoseconds.
pub const DEFAULT_IDLE_TIMEOUT_NANOS: u64 = 14_400_000_000_000;

/// The nanosecond value that a Go-style duration string (such as
/// "300ms" or "2h45m") denotes, or nothing where the string is not a
/// valid duration.
pub uninterp spec fn go_duration_nanos(s: Seq<char>) -> Option<i64>;

/// The most characters an idle-duration string may have before it is
/// rejected out of hand rather than handed to the duration scanner.
pub const MAX_IDLE_TIME_CHARS: usize = 19;

/// The inputs on which the duration scanner is known to run to
/// completion: pure ASCII, at most [`MAX_IDLE_TIME_CHARS`] characters.
///
/// The scanner indexes characters by byte positions, so any multi-byte
/// character can derail it; its fraction scan stops advancing once the
/// accumulated digits overflow a signed 64-bit count, which takes a
/// fraction of nineteen digits (with the dot, twenty characters); and
/// its running total is summed in signed 64-bit arithmetic, which two
/// near-maximal components — at least twenty characters — can exceed.
/// Short ASCII strings are clear of all three.
pub open spec fn safe_go_duration_input(s: Seq<char>) -> bool {
    s.len() <= MAX_IDLE_TIME_CHARS && vstd::utf8::is_ascii_chars(s)
}

/// Whether the duration scanner can be trusted with the string: see
/// [`safe_go_duration_input`].
pub fn is_safe_go_duration_input(s: &str) -> (r: bool)
    ensures
        r == safe_go_duration_input(s@),
{
    s.unicode_len() <= MAX_IDLE_TIME_CHARS && s.is_ascii()
}

/// Relies on go_parse_duration::parse_duration: parses a Go-style
/// duration string to nanoseconds; the result depends on the string
/// alone, with a parse failure reported as an error. The scanner walks
/// bytes as characters and keeps its counts in signed 64-bit
/// arithmetic, so only inputs within [`safe_go_duration_input`] are
/// handed to it: on others it can abort or fail to return.
#[verifier::external_body]
fn parse_go_duration(s: &str) -> (r: Option<i64>)
    requires
        safe_go_duration_input(s@),
    ensures
        r == go_duration_nanos(s@),
{
    match go_parse_duration::parse_duration(s) {
        Ok(n) => Some(n),
        Err(_) => None,
    }
}

/// Turns the optional `--idle-time` flag into the idle budget in
/// nanoseconds: the parsed value where the flag is given and parses,
/// the four-hour default where it is absent, and `InvalidTimeout`
/// carrying the raw string where it does not parse — or where it lies
/// outside [`safe_go_duration_input`], the inputs the scanner handles;
/// such a string is rejected without consulting it. A negative parsed
/// value is taken as-cast to an unsigned count, as the stored budget
/// is.
pub fn resolve_idle_timeout(idle_time: &Option<String>) -> (r: Result<u64, DaemonError>)
    ensures
        idle_time is None ==> r == Ok::<u64, DaemonError>(DEFAULT_IDLE_TIMEOUT_NANOS),
        idle_time matches Some(s) ==> {
            if safe_go_duration_input(s@) {
                match go_duration_nanos(s@) {
                    Some(n) => r == Ok::<u64, DaemonError>(n as u64),
                    None => (r matches Err(DaemonError::InvalidTimeout(raw)) && raw@ == s@),
                }
            } else {
                (r matches Err(DaemonError::InvalidTimeout(raw)) && raw@ == s@)
            }
        },
{
    match idle_time {
        None => Ok(DEFAULT_IDLE_TIMEOUT_NANOS),
        Some(s) => {
            if !is_safe_go_duration_input(s.as_str()) {
                Err(DaemonError::InvalidTimeout(s.clone()))
            } else {
                match parse_go_duration(s.as_str()) {
                    Some(n) => Ok(n as u64),
                    None => Err(DaemonError::InvalidTimeout(s.clone())),
                }
            }
        },
    }
}

/// Converts a duration in nanoseconds to whole milliseconds, as the
/// idle deadline stores it.
pub fn nanos_to_millis(nanos: u64) -> (r: u64)
    ensures
        r == nanos / 1_000_000,
{
    nanos / 1_000_000
}

/// After a stop request was acknowledged and the grace period ran out,
/// decides whether the connector falls back to terminating the server
/// by process id: only where the invocation may kill and the process
/// has not exited on its own.
pub fn should_force_kill(can_kill_server: bool, exited_within_grace: bool) -> (r: bool)
    ensures
        r == (can_kill_server && !exited_within_grace),
{
    can_kill_server && !exited_within_grace
}

} // verus!
