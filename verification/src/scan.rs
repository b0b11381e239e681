//! The scan session: how long a scan runs, when it gives up, and when it
//! restarts the adapter's scan because events stopped coming.
//!
//! The session performs nothing itself. Each call of [`ScanSession::step`]
//! takes what just happened, with the time on a monotonic clock in
//! nanoseconds and the application's scanning flag as read at that moment,
//! and names the request that the caller carries out next. The clock is as
//! fine as the platform's, so that a health check that comes after 45
//! seconds of silence finds more than 45 seconds gone.

use vstd::prelude::*;
use crate::advert::{Sighting, device_of};
use crate::device::BleDevice;
use crate::registry::{DeviceRegistry, upserted};

verus! {

/// The scan length, in seconds, where the caller asks for none.
pub const DEFAULT_SCAN_SECS: u64 = 10;

/// The longest bounded scan, in seconds.
pub const MAX_SCAN_SECS: u64 = 180;

/// The nanoseconds of a second.
pub const NANOS_PER_SECOND: u64 = 1_000_000_000;

/// How long, in nanoseconds, no event may arrive before the scan counts as
/// stalled: 45 seconds.
pub const STALL_THRESHOLD_NANOS: u64 = 45_000_000_000;

/// The least time, in nanoseconds, between two restarts caused by a stall:
/// 30 seconds.
pub const RESTART_BACKOFF_NANOS: u64 = 30_000_000_000;

/// The number of restarts after which a stall no longer causes one.
pub const MAX_RESTARTS: u32 = 5;

/// The time between two health ticks, in milliseconds.
pub const HEALTH_TICK_MS: u64 = 5_000;

/// The pause between stopping and starting the adapter's scan in a restart,
/// in milliseconds.
pub const RESTART_PAUSE_MS: u64 = 200;

/// The event under which a device record goes to the application at each
/// sighting.
pub const DEVICE_DISCOVERED_EVENT: &'static str = "device-discovered";

/// The event that tells the application that a scan is over.
pub const SCAN_COMPLETED_EVENT: &'static str = "scan-completed";

/// How long a scan may run.
#[derive(Debug, Clone, Copy, PartialEq, Eq, Structural)]
pub enum ScanLimit {
    /// Until it is stopped.
    Unbounded,
    /// For this many seconds, between 1 and 180.
    Seconds(u64),
}

/// The duration that a caller asked for, where it may come wrapped in an
/// argument record or directly: the wrapped one wins.
pub fn requested_duration(wrapped: Option<u64>, direct: Option<u64>) -> (requested: Option<u64>)
    ensures
        requested == if wrapped is Some {
            wrapped
        } else {
            direct
        },
{
    match wrapped {
        Some(secs) => Some(secs),
        None => direct,
    }
}

/// The limit for a requested duration: ten seconds where none is given,
/// unbounded for zero, and otherwise the request cut to at most 180 seconds.
pub open spec fn limit_for(requested: Option<u64>) -> ScanLimit {
    match requested {
        None => ScanLimit::Seconds(10),
        Some(secs) => if secs == 0 {
            ScanLimit::Unbounded
        } else if secs > 180 {
            ScanLimit::Seconds(180)
        } else {
            ScanLimit::Seconds(secs)
        },
    }
}

/// Turns a requested duration in seconds into the limit of a scan. No
/// request is rejected.
pub fn scan_limit(requested: Option<u64>) -> (limit: ScanLimit)
    ensures
        limit == limit_for(requested),
        limit matches ScanLimit::Seconds(secs) ==> 1 <= secs <= 180,
{
    let secs = match requested {
        Some(secs) => secs,
        None => DEFAULT_SCAN_SECS,
    };
    if secs == 0 {
        ScanLimit::Unbounded
    } else if secs > MAX_SCAN_SECS {
        ScanLimit::Seconds(MAX_SCAN_SECS)
    } else {
        ScanLimit::Seconds(secs)
    }
}

/// Why the adapter's scan is being restarted.
#[derive(Debug, Clone, Copy, PartialEq, Eq, Structural)]
pub enum RestartCause {
    /// No event arrived for longer than the stall threshold.
    Stall,
    /// The event stream ended or failed.
    StreamLost,
}

/// Where a scan session stands.
#[derive(Debug, Clone, Copy, PartialEq, Eq, Structural)]
pub enum ScanPhase {
    /// The adapter's scan is being started.
    Starting,
    /// The scan runs; the next health tick or stream item is awaited.
    Waiting,
    /// A health tick came; the radio's state is being queried.
    ProbingRadio,
    /// The adapter's scan is being stopped and started again.
    Restarting(RestartCause),
    /// The session is over.
    Exited,
}

/// What the caller carries out next.
#[derive(Debug, Clone, Copy, PartialEq, Eq, Structural)]
pub enum ScanNext {
    /// Start the adapter's scan and report `Started` or `StartFailed`.
    Start,
    /// Wait for the next health tick or the next item of the event stream,
    /// whichever comes first, and report it.
    Wait,
    /// Ask whether the radio is enabled and report `Radio`.
    ProbeRadio,
    /// Stop the adapter's scan, pause, start it again and, if that succeeds,
    /// subscribe to its event stream anew; report `Restarted` or
    /// `RestartFailed`.
    Restart,
    /// Stop the adapter's scan, clear the scanning flag, then emit the
    /// completion signal. The session is over. Every session ends in this
    /// request, one whose scan never started included.
    Finish,
    /// Nothing: the session was over already.
    Idle,
}

/// Model of a [`ScanInput`].
pub enum ScanInputModel {
    Started,
    StartFailed(Seq<char>),
    Tick,
    Radio(Option<bool>),
    Advertisement,
    ScanStarted,
    ScanStopped,
    StreamEnded,
    StreamFailed(Seq<char>),
    Restarted,
    RestartFailed(Seq<char>),
}

/// What happened since the last request.
#[derive(Debug, Clone)]
pub enum ScanInput {
    /// The adapter's scan started.
    Started,
    /// The adapter's scan could not be started; the stack's error text.
    StartFailed(String),
    /// A health tick came.
    Tick,
    /// The radio's state: enabled, disabled, or unknown where the query
    /// failed.
    Radio(Option<bool>),
    /// The stream reported a peripheral found or updated.
    Advertisement,
    /// The stream reported that scanning started.
    ScanStarted,
    /// The stream reported that scanning stopped.
    ScanStopped,
    /// The stream ended.
    StreamEnded,
    /// The stream failed; the stack's error text.
    StreamFailed(String),
    /// The restart succeeded.
    Restarted,
    /// The adapter's scan could not be started again; the stack's error text.
    RestartFailed(String),
}

impl View for ScanInput {
    type V = ScanInputModel;

    open spec fn view(&self) -> ScanInputModel {
        match self {
            ScanInput::Started => ScanInputModel::Started,
            ScanInput::StartFailed(cause) => ScanInputModel::StartFailed(cause@),
            ScanInput::Tick => ScanInputModel::Tick,
            ScanInput::Radio(state) => ScanInputModel::Radio(*state),
            ScanInput::Advertisement => ScanInputModel::Advertisement,
            ScanInput::ScanStarted => ScanInputModel::ScanStarted,
            ScanInput::ScanStopped => ScanInputModel::ScanStopped,
            ScanInput::StreamEnded => ScanInputModel::StreamEnded,
            ScanInput::StreamFailed(cause) => ScanInputModel::StreamFailed(cause@),
            ScanInput::Restarted => ScanInputModel::Restarted,
            ScanInput::RestartFailed(cause) => ScanInputModel::RestartFailed(cause@),
        }
    }
}

/// Model of a [`ScanSignal`].
pub enum ScanSignalModel {
    StartFailed(Seq<char>),
    RadioOff,
    RestartFailed(Seq<char>),
    StreamFailed(Seq<char>),
    Restarted,
}

/// A signal for the application, emitted before the next request is carried
/// out.
#[derive(Debug, Clone)]
pub enum ScanSignal {
    /// The scan could not be started.
    StartFailed(String),
    /// The radio is disabled; the scan stops.
    RadioOff,
    /// The scan stalled and could not be started again.
    RestartFailed(String),
    /// The event stream failed.
    StreamFailed(String),
    /// The scan stalled and was restarted.
    Restarted,
}

impl View for ScanSignal {
    type V = ScanSignalModel;

    open spec fn view(&self) -> ScanSignalModel {
        match self {
            ScanSignal::StartFailed(cause) => ScanSignalModel::StartFailed(cause@),
            ScanSignal::RadioOff => ScanSignalModel::RadioOff,
            ScanSignal::RestartFailed(cause) => ScanSignalModel::RestartFailed(cause@),
            ScanSignal::StreamFailed(cause) => ScanSignalModel::StreamFailed(cause@),
            ScanSignal::Restarted => ScanSignalModel::Restarted,
        }
    }
}

impl DeepView for ScanSignal {
    type V = ScanSignalModel;

    open spec fn deep_view(&self) -> ScanSignalModel {
        self@
    }
}

/// Whether a signal reports an error; the one other kind is information.
pub open spec fn is_error_signal(signal: ScanSignalModel) -> bool {
    !(signal is Restarted)
}

/// The event under which a signal goes to the application.
pub open spec fn signal_event(signal: ScanSignalModel) -> Seq<char> {
    if is_error_signal(signal) {
        "scan-error"@
    } else {
        "scan-info"@
    }
}

/// The text of a signal. A stack error is quoted verbatim after its label.
pub open spec fn signal_text(signal: ScanSignalModel) -> Seq<char> {
    match signal {
        ScanSignalModel::StartFailed(cause) => "启动连续扫描失败: "@ + cause,
        ScanSignalModel::RadioOff => "蓝牙适配器已关闭，停止扫描"@,
        ScanSignalModel::RestartFailed(cause) => "自动重启扫描失败: "@ + cause,
        ScanSignalModel::StreamFailed(cause) => "扫描事件流错误: "@ + cause,
        ScanSignalModel::Restarted => "扫描已自动重启"@,
    }
}

impl ScanSignal {
    /// Whether the signal goes out as an error rather than as information.
    pub fn is_error(&self) -> (error: bool)
        ensures
            error == is_error_signal(self@),
    {
        match self {
            ScanSignal::Restarted => false,
            _ => true,
        }
    }

    /// The event under which the signal goes to the application.
    pub fn event(&self) -> (name: &'static str)
        ensures
            name@ == signal_event(self@),
    {
        if self.is_error() {
            "scan-error"
        } else {
            "scan-info"
        }
    }

    /// The text that the application shows for the signal.
    pub fn message(&self) -> (text: String)
        ensures
            text@ == signal_text(self@),
    {
        match self {
            ScanSignal::StartFailed(cause) => String::from_str("启动连续扫描失败: ").concat(cause.as_str()),
            ScanSignal::RadioOff => String::from_str("蓝牙适配器已关闭，停止扫描"),
            ScanSignal::RestartFailed(cause) => String::from_str("自动重启扫描失败: ").concat(cause.as_str()),
            ScanSignal::StreamFailed(cause) => String::from_str("扫描事件流错误: ").concat(cause.as_str()),
            ScanSignal::Restarted => String::from_str("扫描已自动重启"),
        }
    }
}

/// What a step hands back: a signal to emit, if any, and the next request.
#[derive(Debug, Clone)]
pub struct ScanOutput {
    pub signal: Option<ScanSignal>,
    pub next: ScanNext,
}

/// One scan session, from the request to start the adapter's scan to the end
/// of the background task.
#[derive(Debug, Clone, Copy, PartialEq, Eq, Structural)]
pub struct ScanSession {
    /// How long the scan may run.
    pub limit: ScanLimit,
    /// Where the session stands.
    pub phase: ScanPhase,
    /// When the adapter's scan started.
    pub started_at: u64,
    /// When the stream last showed a sign of life.
    pub last_event_at: u64,
    /// When the scan was last restarted, if ever.
    pub last_restart_at: Option<u64>,
    /// How often the scan was restarted.
    pub restart_count: u32,
}

/// The time from `since` to `now`; zero where `now` is the earlier one.
pub open spec fn elapsed(now: u64, since: u64) -> int {
    if now >= since {
        now - since
    } else {
        0
    }
}

/// Whether a bounded scan has run its time.
pub open spec fn expired(s: ScanSession, now: u64) -> bool {
    match s.limit {
        ScanLimit::Unbounded => false,
        ScanLimit::Seconds(secs) => elapsed(now, s.started_at) >= secs * 1_000_000_000,
    }
}

/// Whether a stall is due to be answered with a restart: no event for longer
/// than the stall threshold, the last restart longer ago than the backoff,
/// and fewer restarts so far than the maximum.
pub open spec fn restart_due(s: ScanSession, now: u64) -> bool {
    &&& elapsed(now, s.last_event_at) > 45_000_000_000
    &&& match s.last_restart_at {
        Some(at) => elapsed(now, at) > 30_000_000_000,
        None => true,
    }
    &&& s.restart_count < 5
}

/// The session after a restart that succeeded at `now`.
pub open spec fn restarted(s: ScanSession, now: u64) -> ScanSession {
    ScanSession {
        last_event_at: now,
        last_restart_at: Some(now),
        restart_count: if s.restart_count < u32::MAX {
            (s.restart_count + 1) as u32
        } else {
            s.restart_count
        },
        ..s
    }
}

/// The session as it exits.
pub open spec fn exited(s: ScanSession) -> ScanSession {
    ScanSession { phase: ScanPhase::Exited, ..s }
}

/// The result of one step: the session, the signal, the next request.
pub type ScanStep = (ScanSession, Option<ScanSignalModel>, ScanNext);

/// The top of the loop: the session ends where the scanning flag was cleared
/// or a bounded scan has run its time, and waits on otherwise.
pub open spec fn resume(s: ScanSession, signal: Option<ScanSignalModel>, now: u64, keep_running: bool) -> ScanStep {
    if !keep_running || expired(s, now) {
        (exited(s), signal, ScanNext::Finish)
    } else {
        (ScanSession { phase: ScanPhase::Waiting, ..s }, signal, ScanNext::Wait)
    }
}

/// The request that a phase is waiting on.
pub open spec fn pending(phase: ScanPhase) -> ScanNext {
    match phase {
        ScanPhase::Starting => ScanNext::Start,
        ScanPhase::Waiting => ScanNext::Wait,
        ScanPhase::ProbingRadio => ScanNext::ProbeRadio,
        ScanPhase::Restarting(_) => ScanNext::Restart,
        ScanPhase::Exited => ScanNext::Idle,
    }
}

/// The rules of the session: what each input does in each phase. An input
/// that the phase does not expect changes nothing and repeats the pending
/// request.
pub open spec fn scan_step(s: ScanSession, input: ScanInputModel, now: u64, keep_running: bool) -> ScanStep {
    let unbounded = s.limit is Unbounded;
    match (s.phase, input) {
        (ScanPhase::Starting, ScanInputModel::Started) => resume(
            ScanSession { started_at: now, last_event_at: now, ..s },
            None,
            now,
            keep_running,
        ),
        (ScanPhase::Starting, ScanInputModel::StartFailed(cause)) => (
            exited(s),
            Some(ScanSignalModel::StartFailed(cause)),
            ScanNext::Finish,
        ),
        (ScanPhase::Waiting, ScanInputModel::Tick) => if unbounded {
            (ScanSession { phase: ScanPhase::ProbingRadio, ..s }, None, ScanNext::ProbeRadio)
        } else {
            resume(s, None, now, keep_running)
        },
        (ScanPhase::ProbingRadio, ScanInputModel::Radio(state)) => if state == Some(false) {
            (exited(s), Some(ScanSignalModel::RadioOff), ScanNext::Finish)
        } else if restart_due(s, now) {
            (ScanSession { phase: ScanPhase::Restarting(RestartCause::Stall), ..s }, None, ScanNext::Restart)
        } else {
            resume(s, None, now, keep_running)
        },
        (ScanPhase::Waiting, ScanInputModel::Advertisement) => resume(
            ScanSession { last_event_at: now, ..s },
            None,
            now,
            keep_running,
        ),
        (ScanPhase::Waiting, ScanInputModel::ScanStarted) => resume(
            ScanSession { last_event_at: now, ..s },
            None,
            now,
            keep_running,
        ),
        (ScanPhase::Waiting, ScanInputModel::ScanStopped) => (exited(s), None, ScanNext::Finish),
        (ScanPhase::Waiting, ScanInputModel::StreamEnded) => if unbounded {
            (ScanSession { phase: ScanPhase::Restarting(RestartCause::StreamLost), ..s }, None, ScanNext::Restart)
        } else {
            (exited(s), None, ScanNext::Finish)
        },
        (ScanPhase::Waiting, ScanInputModel::StreamFailed(cause)) => if unbounded {
            (
                ScanSession { phase: ScanPhase::Restarting(RestartCause::StreamLost), ..s },
                Some(ScanSignalModel::StreamFailed(cause)),
                ScanNext::Restart,
            )
        } else {
            (exited(s), Some(ScanSignalModel::StreamFailed(cause)), ScanNext::Finish)
        },
        (ScanPhase::Restarting(RestartCause::Stall), ScanInputModel::Restarted) => resume(
            restarted(s, now),
            Some(ScanSignalModel::Restarted),
            now,
            keep_running,
        ),
        (ScanPhase::Restarting(RestartCause::Stall), ScanInputModel::RestartFailed(cause)) => (
            exited(s),
            Some(ScanSignalModel::RestartFailed(cause)),
            ScanNext::Finish,
        ),
        (ScanPhase::Restarting(RestartCause::StreamLost), ScanInputModel::Restarted) => resume(
            restarted(s, now),
            None,
            now,
            keep_running,
        ),
        (ScanPhase::Restarting(RestartCause::StreamLost), ScanInputModel::RestartFailed(_)) => (
            exited(s),
            None,
            ScanNext::Finish,
        ),
        _ => (s, None, pending(s.phase)),
    }
}

impl ScanSession {
    /// A session for a requested duration, about to start the adapter's
    /// scan. The first request is [`ScanNext::Start`].
    pub fn begin(requested: Option<u64>) -> (session: ScanSession)
        ensures
            session == (ScanSession {
                limit: limit_for(requested),
                phase: ScanPhase::Starting,
                started_at: 0,
                last_event_at: 0,
                last_restart_at: None,
                restart_count: 0,
            }),
    {
        ScanSession {
            limit: scan_limit(requested),
            phase: ScanPhase::Starting,
            started_at: 0,
            last_event_at: 0,
            last_restart_at: None,
            restart_count: 0,
        }
    }

    /// Whether the session is over.
    pub fn is_over(&self) -> (over: bool)
        ensures
            over == (self.phase is Exited),
    {
        match self.phase {
            ScanPhase::Exited => true,
            _ => false,
        }
    }

    fn time_since(now: u64, since: u64) -> (ms: u64)
        ensures
            ms as int == elapsed(now, since),
    {
        if now >= since {
            now - since
        } else {
            0
        }
    }

    fn has_expired(&self, now: u64) -> (over: bool)
        ensures
            over == expired(*self, now),
    {
        match self.limit {
            ScanLimit::Unbounded => false,
            ScanLimit::Seconds(secs) => {
                let run: u64 = Self::time_since(now, self.started_at);
                if secs > u64::MAX / NANOS_PER_SECOND {
                    false
                } else {
                    run >= secs * NANOS_PER_SECOND
                }
            },
        }
    }

    fn is_restart_due(&self, now: u64) -> (due: bool)
        ensures
            due == restart_due(*self, now),
    {
        let backed_off = match self.last_restart_at {
            Some(at) => Self::time_since(now, at) > RESTART_BACKOFF_NANOS,
            None => true,
        };
        Self::time_since(now, self.last_event_at) > STALL_THRESHOLD_NANOS && backed_off && self.restart_count
            < MAX_RESTARTS
    }

    fn exit(&mut self, signal: Option<ScanSignal>, next: ScanNext) -> (out: ScanOutput)
        ensures
            *final(self) == exited(*old(self)),
            out.signal == signal,
            out.next == next,
    {
        self.phase = ScanPhase::Exited;
        ScanOutput { signal, next }
    }

    fn resume(&mut self, signal: Option<ScanSignal>, now: u64, keep_running: bool) -> (out: ScanOutput)
        ensures
            (*final(self), out.signal.deep_view(), out.next) == resume(
                *old(self),
                signal.deep_view(),
                now,
                keep_running,
            ),
    {
        if !keep_running || self.has_expired(now) {
            self.exit(signal, ScanNext::Finish)
        } else {
            self.phase = ScanPhase::Waiting;
            ScanOutput { signal, next: ScanNext::Wait }
        }
    }

    fn note_restart(&mut self, now: u64)
        ensures
            *final(self) == restarted(*old(self), now),
    {
        self.last_event_at = now;
        self.last_restart_at = Some(now);
        if self.restart_count < u32::MAX {
            self.restart_count = self.restart_count + 1;
        }
    }

    fn pending_request(&self) -> (next: ScanNext)
        ensures
            next == pending(self.phase),
    {
        match self.phase {
            ScanPhase::Starting => ScanNext::Start,
            ScanPhase::Waiting => ScanNext::Wait,
            ScanPhase::ProbingRadio => ScanNext::ProbeRadio,
            ScanPhase::Restarting(_) => ScanNext::Restart,
            ScanPhase::Exited => ScanNext::Idle,
        }
    }

    /// Takes what happened at time `now`, with the scanning flag as read
    /// then, and says what to emit and what to do next.
    pub fn step(&mut self, input: ScanInput, now: u64, keep_running: bool) -> (out: ScanOutput)
        ensures
            (*final(self), out.signal.deep_view(), out.next) == scan_step(*old(self), input@, now, keep_running),
    {
        let unbounded = match self.limit {
            ScanLimit::Unbounded => true,
            ScanLimit::Seconds(_) => false,
        };
        match (self.phase, input) {
            (ScanPhase::Starting, ScanInput::Started) => {
                self.started_at = now;
                self.last_event_at = now;
                self.resume(None, now, keep_running)
            },
            (ScanPhase::Starting, ScanInput::StartFailed(cause)) => {
                self.exit(Some(ScanSignal::StartFailed(cause)), ScanNext::Finish)
            },
            (ScanPhase::Waiting, ScanInput::Tick) => {
                if unbounded {
                    self.phase = ScanPhase::ProbingRadio;
                    ScanOutput { signal: None, next: ScanNext::ProbeRadio }
                } else {
                    self.resume(None, now, keep_running)
                }
            },
            (ScanPhase::ProbingRadio, ScanInput::Radio(state)) => {
                let off = match state {
                    Some(enabled) => !enabled,
                    None => false,
                };
                if off {
                    self.exit(Some(ScanSignal::RadioOff), ScanNext::Finish)
                } else if self.is_restart_due(now) {
                    self.phase = ScanPhase::Restarting(RestartCause::Stall);
                    ScanOutput { signal: None, next: ScanNext::Restart }
                } else {
                    self.resume(None, now, keep_running)
                }
            },
            (ScanPhase::Waiting, ScanInput::Advertisement) => {
                self.last_event_at = now;
                self.resume(None, now, keep_running)
            },
            (ScanPhase::Waiting, ScanInput::ScanStarted) => {
                self.last_event_at = now;
                self.resume(None, now, keep_running)
            },
            (ScanPhase::Waiting, ScanInput::ScanStopped) => self.exit(None, ScanNext::Finish),
            (ScanPhase::Waiting, ScanInput::StreamEnded) => {
                if unbounded {
                    self.phase = ScanPhase::Restarting(RestartCause::StreamLost);
                    ScanOutput { signal: None, next: ScanNext::Restart }
                } else {
                    self.exit(None, ScanNext::Finish)
                }
            },
            (ScanPhase::Waiting, ScanInput::StreamFailed(cause)) => {
                if unbounded {
                    self.phase = ScanPhase::Restarting(RestartCause::StreamLost);
                    ScanOutput { signal: Some(ScanSignal::StreamFailed(cause)), next: ScanNext::Restart }
                } else {
                    self.exit(Some(ScanSignal::StreamFailed(cause)), ScanNext::Finish)
                }
            },
            (ScanPhase::Restarting(RestartCause::Stall), ScanInput::Restarted) => {
                self.note_restart(now);
                self.resume(Some(ScanSignal::Restarted), now, keep_running)
            },
            (ScanPhase::Restarting(RestartCause::Stall), ScanInput::RestartFailed(cause)) => {
                self.exit(Some(ScanSignal::RestartFailed(cause)), ScanNext::Finish)
            },
            (ScanPhase::Restarting(RestartCause::StreamLost), ScanInput::Restarted) => {
                self.note_restart(now);
                self.resume(None, now, keep_running)
            },
            (ScanPhase::Restarting(RestartCause::StreamLost), ScanInput::RestartFailed(_)) => {
                self.exit(None, ScanNext::Finish)
            },
            _ => ScanOutput { signal: None, next: self.pending_request() },
        }
    }

    /// Takes a peripheral found or updated at time `now`: records it in the
    /// registry, counts it as a sign of life, and hands back the device
    /// record for the application's notification with the next request.
    pub fn advertise(
        &mut self,
        registry: &mut DeviceRegistry,
        sighting: &Sighting,
        now: u64,
        keep_running: bool,
    ) -> (out: (BleDevice, ScanOutput))
        requires
            old(registry).wf(),
        ensures
            out.0@ == device_of(sighting@),
            final(registry)@ == upserted(old(registry)@, device_of(sighting@)),
            final(registry).wf(),
            (*final(self), out.1.signal.deep_view(), out.1.next) == scan_step(
                *old(self),
                ScanInputModel::Advertisement,
                now,
                keep_running,
            ),
    {
        let device = registry.observe(sighting);
        let output = self.step(ScanInput::Advertisement, now, keep_running);
        (device, output)
    }
}

/// A session ends once.
///
/// Once a session is over, no input changes it, emits a signal or asks for
/// anything, so the request to finish, and with it the completion signal,
/// is made at most once.
pub proof fn lemma_exit_is_final(s: ScanSession, input: ScanInputModel, now: u64, keep_running: bool)
    requires
        s.phase is Exited,
    ensures
        scan_step(s, input, now, keep_running) == (s, None::<ScanSignalModel>, ScanNext::Idle),
{
}

/// Every exit is a request to finish.
///
/// By whatever path a session ends (the deadline, the cleared flag, a stop
/// event, a disabled radio, a start or restart that failed, a lost stream),
/// it ends with the request to stop the adapter's scan, clear the scanning
/// flag and emit the completion signal; and that request is made only as
/// the session ends.
pub proof fn lemma_finish_exits(s: ScanSession, input: ScanInputModel, now: u64, keep_running: bool)
    requires
        !(s.phase is Exited),
    ensures
        ({
            let after = scan_step(s, input, now, keep_running);
            after.0.phase is Exited <==> after.2 is Finish
        }),
{
}

/// A cleared scanning flag and a deadline are honoured at every wake-up of a
/// running scan.
///
/// Whatever a waiting session is told of the stream, short of its end or
/// failure, it finishes if the scanning flag is cleared or a bounded scan
/// has run its time; a bounded scan does so at a health tick too.
pub proof fn lemma_stop_is_honoured(s: ScanSession, input: ScanInputModel, now: u64, keep_running: bool)
    requires
        s.phase is Waiting,
        input is Advertisement || input is ScanStarted || (input is Tick && !(s.limit is Unbounded)),
        !keep_running || expired(s, now),
    ensures
        scan_step(s, input, now, keep_running).2 is Finish,
{
}

/// A stall restarts the scan only within its limits.
///
/// A restart is asked for at a health check only if no event came for more
/// than the stall threshold, the last restart is longer ago than the
/// backoff, and fewer than the maximum of restarts were made.
pub proof fn lemma_stall_restart_is_limited(s: ScanSession, state: Option<bool>, now: u64, keep_running: bool)
    requires
        s.phase is ProbingRadio,
    ensures
        scan_step(s, ScanInputModel::Radio(state), now, keep_running).2 is Restart <==> (state != Some(false)
            && elapsed(now, s.last_event_at) > 45_000_000_000 && s.restart_count < 5 && (s.last_restart_at
            matches Some(at) ==> elapsed(now, at) > 30_000_000_000)),
{
}

/// What a run of health checks came to.
pub struct HealthRun {
    /// The session after the run.
    pub session: ScanSession,
    /// The restarts that were asked for and made.
    pub restarts: nat,
    /// The signals of information that went out.
    pub notices: nat,
    /// The signals of an error that went out.
    pub errors: nat,
    /// Whether the session was asked to finish.
    pub finished: bool,
}

/// One if the signal is of the given kind, zero otherwise and for no signal.
pub open spec fn counted(signal: Option<ScanSignalModel>, error: bool) -> nat {
    match signal {
        Some(s) => if is_error_signal(s) == error {
            1
        } else {
            0
        },
        None => 0,
    }
}

/// One health check of a scan whose radio is on and whose scanning flag is
/// set: the tick at time `at`, the radio's answer at that time, and, where
/// the session asks for a restart, the restart's success at time `back`.
pub open spec fn health_check(run: HealthRun, at: u64, back: u64) -> HealthRun {
    let ticked = scan_step(run.session, ScanInputModel::Tick, at, true);
    let probed = scan_step(ticked.0, ScanInputModel::Radio(Some(true)), at, true);
    let restart = probed.2 is Restart;
    let ended = if restart {
        scan_step(probed.0, ScanInputModel::Restarted, back, true)
    } else {
        (probed.0, None, probed.2)
    };
    HealthRun {
        session: ended.0,
        restarts: if restart {
            run.restarts + 1
        } else {
            run.restarts
        },
        notices: run.notices + counted(ticked.1, false) + counted(probed.1, false) + counted(ended.1, false),
        errors: run.errors + counted(ticked.1, true) + counted(probed.1, true) + counted(ended.1, true),
        finished: run.finished || ticked.2 is Finish || probed.2 is Finish || ended.2 is Finish,
    }
}

/// A run of health checks, each given by its time and by the time at which
/// a restart made at it succeeds.
pub open spec fn health_run(s: ScanSession, checks: Seq<(u64, u64)>) -> HealthRun
    decreases checks.len(),
{
    if checks.len() == 0 {
        HealthRun { session: s, restarts: 0, notices: 0, errors: 0, finished: false }
    } else {
        health_check(health_run(s, checks.drop_last()), checks.last().0, checks.last().1)
    }
}

/// An unbounded scan that has just started at time `start` and waits.
pub open spec fn silent_since(start: u64) -> ScanSession {
    ScanSession {
        limit: ScanLimit::Unbounded,
        phase: ScanPhase::Waiting,
        started_at: start,
        last_event_at: start,
        last_restart_at: None,
        restart_count: 0,
    }
}

/// Whether the health checks come in the order of time, none before `start`
/// and none after `end`.
pub open spec fn checks_in_order(start: u64, checks: Seq<(u64, u64)>, end: int) -> bool {
    &&& forall|k: int| 0 <= k < checks.len() ==> start <= (#[trigger] checks[k]).0 <= checks[k].1 <= end
    &&& forall|k: int, l: int|
        0 <= k < l < checks.len() ==> (#[trigger] checks[k]).1 <= (#[trigger] checks[l]).0
}

/// Whether some health check comes later than time `t`.
pub open spec fn some_check_after(checks: Seq<(u64, u64)>, t: int) -> bool {
    exists|k: int| 0 <= k < checks.len() && (#[trigger] checks[k]).0 > t
}

/// Forty-six seconds of silence restart an unbounded scan exactly once.
///
/// Let an unbounded scan start and no event arrive. Let health checks come
/// at any times within 46 seconds of the start, the radio on, the scanning
/// flag set, every restart succeeding. Then exactly one restart is made if
/// a health check comes later than 45 seconds after the start, and none
/// otherwise. One signal of information goes out for the restart, no signal
/// of an error goes out, and the session is not asked to finish.
pub proof fn lemma_silence_restarts_once(start: u64, checks: Seq<(u64, u64)>)
    requires
        start + 46_000_000_000 <= u64::MAX,
        checks_in_order(start, checks, start + 46_000_000_000),
    ensures
        ({
            let run = health_run(silent_since(start), checks);
            &&& run.restarts == if some_check_after(checks, start + 45_000_000_000) {
                1nat
            } else {
                0nat
            }
            &&& run.notices == run.restarts
            &&& run.errors == 0
            &&& !run.finished
            &&& run.session.phase is Waiting
            &&& run.session.restart_count == run.restarts
            &&& run.restarts == 0 ==> run.session == silent_since(start)
            &&& run.restarts == 1 ==> {
                &&& checks.len() > 0
                &&& start + 45_000_000_000 < run.session.last_event_at <= checks.last().1
                &&& run.session.last_restart_at == Some(run.session.last_event_at)
                &&& run.session.limit is Unbounded
            }
        }),
    decreases checks.len(),
{
    let late = start + 45_000_000_000;
    if checks.len() > 0 {
        let front = checks.drop_last();
        let last = checks.last();
        assert forall|k: int| 0 <= k < front.len() implies front[k] == checks[k] by {}
        assert(checks_in_order(start, front, start + 46_000_000_000));
        lemma_silence_restarts_once(start, front);
        let before = health_run(silent_since(start), front);
        assert(some_check_after(checks, late) == (some_check_after(front, late) || last.0 > late)) by {
            if some_check_after(front, late) {
                let k = choose|k: int| 0 <= k < front.len() && (#[trigger] front[k]).0 > late;
                assert(checks[k].0 > late);
            }
            if last.0 > late {
                assert(checks[checks.len() - 1].0 > late);
            }
            if some_check_after(checks, late) {
                let k = choose|k: int| 0 <= k < checks.len() && (#[trigger] checks[k]).0 > late;
                if k < front.len() {
                    assert(front[k].0 > late);
                }
            }
        }
        if before.restarts == 1 {
            assert(front.last() == checks[checks.len() - 2]);
            assert(checks[checks.len() - 2].1 <= checks[checks.len() - 1].0);
        }
    }
}

} // verus!
