//! The streaming status shown to the user, and how each event of a
//! stream changes it.
use vstd::prelude::*;

verus! {

/// Status of the stream as the user sees it.
#[derive(Debug, Clone)]
pub struct RuntimeStatus {
    pub streaming: bool,
    pub connected: bool,
    pub message: String,
    pub last_error: Option<String>,
}

/// `RuntimeStatus` with its text taken as characters.
pub struct RuntimeView {
    pub streaming: bool,
    pub connected: bool,
    pub message: Seq<char>,
    pub last_error: Option<Seq<char>>,
}

impl View for RuntimeStatus {
    type V = RuntimeView;

    open spec fn view(&self) -> RuntimeView {
        RuntimeView {
            streaming: self.streaming,
            connected: self.connected,
            message: self.message@,
            last_error: match self.last_error {
                Some(e) => Some(e@),
                None => None,
            },
        }
    }
}

impl Default for RuntimeStatus {
    fn default() -> (status: Self)
        ensures
            status@ == (RuntimeView {
                streaming: false,
                connected: false,
                message: Seq::empty(),
                last_error: None,
            }),
    {
        RuntimeStatus { streaming: false, connected: false, message: String::new(), last_error: None }
    }
}

/// Shown while the camera is being started.
pub open spec fn starting_message() -> Seq<char> {
    "가상 카메라를 시작하는 중…"@
}

/// Shown once frames are being sent.
pub open spec fn running_message() -> Seq<char> {
    "카메라가 실행 중입니다"@
}

/// Shown while an application reads the camera.
pub open spec fn in_use_message() -> Seq<char> {
    "앱에서 카메라를 사용 중입니다"@
}

/// Shown while the camera runs and no application reads it.
pub open spec fn waiting_message() -> Seq<char> {
    "카메라가 실행 중이며 연결을 기다립니다"@
}

/// Shown while the camera is off.
pub open spec fn off_message() -> Seq<char> {
    "카메라가 꺼져 있습니다"@
}

/// What happened to the stream.
#[derive(Debug, Clone)]
pub enum RuntimeUpdate {
    /// A stream is being started.
    Starting,
    /// The stream sends frames.
    Running,
    /// The periodic connection check found a reader, or none.
    Connection(bool),
    /// The stream, or its start, failed with this message.
    Failed(String),
    /// The stream's worker ended.
    Finished,
    /// The user stopped the stream.
    Stopped,
    /// The application started with no stream.
    Idle,
}

/// The status after `update`.
pub open spec fn updated(status: RuntimeView, update: RuntimeUpdate) -> RuntimeView {
    match update {
        RuntimeUpdate::Starting => RuntimeView {
            streaming: false,
            connected: false,
            message: starting_message(),
            last_error: None,
        },
        RuntimeUpdate::Running => RuntimeView {
            streaming: true,
            message: running_message(),
            ..status
        },
        RuntimeUpdate::Connection(connected) => RuntimeView {
            connected,
            message: if connected { in_use_message() } else { waiting_message() },
            ..status
        },
        RuntimeUpdate::Failed(error) => RuntimeView {
            message: error@,
            last_error: Some(error@),
            ..status
        },
        RuntimeUpdate::Finished => RuntimeView {
            streaming: false,
            connected: false,
            message: if status.last_error.is_none() { off_message() } else { status.message },
            last_error: status.last_error,
        },
        RuntimeUpdate::Stopped => RuntimeView {
            streaming: false,
            connected: false,
            message: off_message(),
            last_error: None,
        },
        RuntimeUpdate::Idle => RuntimeView { message: off_message(), ..status },
    }
}

/// Applies `update` to `status`.
pub fn set_runtime(status: &mut RuntimeStatus, update: RuntimeUpdate)
    ensures
        final(status)@ == updated(old(status)@, update),
{
    match update {
        RuntimeUpdate::Starting => {
            status.streaming = false;
            status.connected = false;
            status.message = "가상 카메라를 시작하는 중…".to_owned();
            status.last_error = None;
        },
        RuntimeUpdate::Running => {
            status.streaming = true;
            status.message = "카메라가 실행 중입니다".to_owned();
        },
        RuntimeUpdate::Connection(connected) => {
            status.connected = connected;
            status.message = if connected {
                "앱에서 카메라를 사용 중입니다".to_owned()
            } else {
                "카메라가 실행 중이며 연결을 기다립니다".to_owned()
            };
        },
        RuntimeUpdate::Failed(error) => {
            let copy = error.clone();
            status.last_error = Some(error);
            status.message = copy;
        },
        RuntimeUpdate::Finished => {
            status.streaming = false;
            status.connected = false;
            if status.last_error.is_none() {
                status.message = "카메라가 꺼져 있습니다".to_owned();
            }
        },
        RuntimeUpdate::Stopped => {
            status.streaming = false;
            status.connected = false;
            status.message = "카메라가 꺼져 있습니다".to_owned();
            status.last_error = None;
        },
        RuntimeUpdate::Idle => {
            status.message = "카메라가 꺼져 있습니다".to_owned();
        },
    }
}

/// Once a stream fails, its worker ending leaves the failure on show: the
/// message is the error, which is kept as the last error, and the stream
/// is off.
pub proof fn lemma_failure_outlives_finish(status: RuntimeView, error: String)
    ensures
        ({
            let after = updated(updated(status, RuntimeUpdate::Failed(error)), RuntimeUpdate::Finished);
            &&& after.message == error@
            &&& after.last_error == Some(error@)
            &&& !after.streaming
            &&& !after.connected
        }),
{
}

/// Stopping the camera turns the status off and clears any error,
/// whatever it was before.
pub proof fn lemma_stop_resets(first: RuntimeView, second: RuntimeView)
    ensures
        updated(first, RuntimeUpdate::Stopped) == updated(second, RuntimeUpdate::Stopped),
        updated(first, RuntimeUpdate::Stopped).message == off_message(),
        !updated(first, RuntimeUpdate::Stopped).streaming,
        updated(first, RuntimeUpdate::Stopped).last_error.is_none(),
{
}

/// A stream that starts, runs and ends without failing ends off with no
/// error, whatever connection checks came in between.
pub proof fn lemma_clean_run_ends_off(status: RuntimeView, connected: bool)
    ensures
        ({
            let started = updated(updated(status, RuntimeUpdate::Starting), RuntimeUpdate::Running);
            let checked = updated(started, RuntimeUpdate::Connection(connected));
            let after = updated(checked, RuntimeUpdate::Finished);
            &&& started.streaming
            &&& after.message == off_message()
            &&& after.last_error.is_none()
            &&& !after.streaming
            &&& !after.connected
        }),
{
}

/// A connection check changes only whether a reader is connected and the
/// message that says so: whether the camera streams, and the last error,
/// stay as they were.
pub proof fn lemma_connection_keeps_stream(status: RuntimeView, connected: bool)
    ensures
        ({
            let after = updated(status, RuntimeUpdate::Connection(connected));
            &&& after.streaming == status.streaming
            &&& after.last_error == status.last_error
            &&& after.connected == connected
            &&& after.message == (if connected { in_use_message() } else { waiting_message() })
        }),
{
}

/// Only the latest connection check counts: a check overrides the one
/// before it.
pub proof fn lemma_latest_connection_counts(status: RuntimeView, first: bool, second: bool)
    ensures
        updated(updated(status, RuntimeUpdate::Connection(first)), RuntimeUpdate::Connection(second))
            == updated(status, RuntimeUpdate::Connection(second)),
{
}

/// A stream that starts sending frames is shown as streaming, and keeps
/// its connection state and last error.
pub proof fn lemma_running_keeps_connection(status: RuntimeView)
    ensures
        ({
            let after = updated(status, RuntimeUpdate::Running);
            &&& after.streaming
            &&& after.connected == status.connected
            &&& after.last_error == status.last_error
            &&& after.message == running_message()
        }),
{
}

/// A failure shows its message and keeps it as the last error; it does not
/// by itself change whether the camera streams or is connected.
pub proof fn lemma_failure_keeps_stream(status: RuntimeView, error: String)
    ensures
        ({
            let after = updated(status, RuntimeUpdate::Failed(error));
            &&& after.streaming == status.streaming
            &&& after.connected == status.connected
            &&& after.message == error@
            &&& after.last_error == Some(error@)
        }),
{
}

/// An idle start only shows that the camera is off: every other part of the
/// status stays.
pub proof fn lemma_idle_changes_message_only(status: RuntimeView)
    ensures
        ({
            let after = updated(status, RuntimeUpdate::Idle);
            &&& after.streaming == status.streaming
            &&& after.connected == status.connected
            &&& after.last_error == status.last_error
            &&& after.message == off_message()
        }),
{
}

/// How long a heartbeat keeps the camera counted as in use, in
/// milliseconds.
pub const HEARTBEAT_TIMEOUT_MS: u64 = 2000;

/// How often the connection is checked, in milliseconds.
pub const CONNECTION_CHECK_INTERVAL_MS: u64 = 500;

/// Tracks the heartbeat that a reader of the shared block advances.
pub struct HeartbeatMonitor {
    /// The last heartbeat value seen.
    pub last_heartbeat: u64,
    /// When, on a monotonic millisecond clock, the heartbeat last changed.
    pub seen_at_ms: Option<u64>,
}

/// Whether a reader counts as connected at `now_ms`.
pub open spec fn heartbeat_fresh(seen_at_ms: Option<u64>, now_ms: u64) -> bool {
    match seen_at_ms {
        None => false,
        Some(t) => (if now_ms >= t { now_ms - t } else { 0 }) < HEARTBEAT_TIMEOUT_MS,
    }
}

impl HeartbeatMonitor {
    /// A monitor that has seen no heartbeat.
    pub fn new() -> (monitor: Self)
        ensures
            monitor.last_heartbeat == 0,
            monitor.seen_at_ms.is_none(),
    {
        HeartbeatMonitor { last_heartbeat: 0, seen_at_ms: None }
    }

    /// Records the heartbeat read at `now_ms`; a new non-zero value counts
    /// as a sign of life. Returns whether the reader is connected.
    pub fn observe(&mut self, heartbeat: u64, now_ms: u64) -> (connected: bool)
        ensures
            if heartbeat != 0 && heartbeat != old(self).last_heartbeat {
                &&& final(self).last_heartbeat == heartbeat
                &&& final(self).seen_at_ms == Some(now_ms)
            } else {
                &&& final(self).last_heartbeat == old(self).last_heartbeat
                &&& final(self).seen_at_ms == old(self).seen_at_ms
            },
            connected == heartbeat_fresh(final(self).seen_at_ms, now_ms),
    {
        if heartbeat != 0 && heartbeat != self.last_heartbeat {
            self.last_heartbeat = heartbeat;
            self.seen_at_ms = Some(now_ms);
        }
        match self.seen_at_ms {
            None => false,
            Some(t) => now_ms.saturating_sub(t) < HEARTBEAT_TIMEOUT_MS,
        }
    }
}

/// Whether the connection is due to be checked at `now_ms`, given when it
/// was last checked; the first check is due at once.
pub fn connection_check_due(last_check_ms: Option<u64>, now_ms: u64) -> (due: bool)
    ensures
        due == match last_check_ms {
            None => true,
            Some(t) => (if now_ms >= t { now_ms - t } else { 0 }) >= CONNECTION_CHECK_INTERVAL_MS,
        },
{
    match last_check_ms {
        None => true,
        Some(t) => now_ms.saturating_sub(t) >= CONNECTION_CHECK_INTERVAL_MS,
    }
}

} // verus!
