//! The session driver: one transport session for one test case, expressed
//! as a state machine. The driver decides; the surrounding harness performs
//! each returned [`Action`] (create, poll, submit, sleep, read statistics,
//! destroy) and feeds the resulting [`Event`] back through [`SessionDriver::on_event`].
//! All sleeping, clock reading and transport calls thus stay outside the
//! library, and the driver's behaviour is verified for every possible reply.

use vstd::prelude::*;
use crate::CoreError;
use crate::classify::{classify_spec, interpret_return_code, Outcome};
use crate::format::VideoFormat;
use crate::pacing::{
    clamp_ticks, frame_timestamp, next_deadline, next_deadline_spec, saturating_add_ticks,
    ticks_per_frame, TICKS_PER_SECOND,
};

verus! {

/// Statistics snapshot read from the transport; opaque counters, carried
/// for reporting only.
#[derive(Clone, Copy, Debug, PartialEq, Eq, Structural)]
pub struct TransportStats {
    pub bytes_sent: u64,
    pub frames: u64,
    pub frames_dropped: u64,
    pub codec_time_ms: u64,
}

/// Final report of one session.
#[derive(Clone, Copy, Debug, PartialEq, Eq, Structural)]
pub struct SessionReport {
    /// The transport's final counters.
    pub stats: TransportStats,
    /// Frames the driver set out to submit.
    pub frames_to_send: u64,
    /// `bytes_sent * 8 / duration`, saturating.
    pub avg_bits_per_sec: u64,
    /// Whether a peer ever connected.
    pub peer_seen: bool,
    /// Whether the run was truncated by peer loss (a note, not an error).
    pub peer_lost: bool,
}

/// What the harness must perform next on behalf of the driver.
#[derive(Clone, Copy, Debug, PartialEq, Eq, Structural)]
pub enum Action {
    /// Create the transport session; reply with `Created`.
    CreateSession,
    /// Sleep `delay_ms`, then read the connection count; reply with
    /// `Connections`.
    PollConnections { delay_ms: u64 },
    /// Sleep `delay_ms`, then sleep until session tick `not_before` if it
    /// is still in the future, then submit the pattern buffer with this
    /// timestamp; reply with `SendResult`.
    SubmitFrame { timestamp: i64, not_before: i64, delay_ms: u64 },
    /// Read and report interim statistics; reply with `Stats`.
    ReadPeriodicStats,
    /// Read the session clock; reply with `TimeNow`.
    ReadTime,
    /// Read the final statistics; reply with `Stats`.
    ReadFinalStats,
    /// Release the session handle; reply with `Destroyed`.
    Destroy,
    /// The session is over; `outcome` holds the result.
    Finished,
}

/// The harness's reply to the most recent action.
#[derive(Clone, Copy, Debug, PartialEq, Eq, Structural)]
pub enum Event {
    /// Whether the transport returned a usable (non-null) session handle.
    Created { ok: bool },
    /// The transport's connection count.
    Connections { count: u32 },
    /// The signed return code of a frame submission.
    SendResult { rc: i32 },
    /// Session clock reading, in ticks since session start.
    TimeNow { now: i64 },
    /// A statistics snapshot.
    Stats { stats: TransportStats },
    /// The session handle was released.
    Destroyed,
}

/// Where the session stands.
#[derive(Clone, Copy, Debug, PartialEq, Eq, Structural)]
pub enum Phase {
    Creating,
    WaitingForPeer { attempts: u32 },
    Submitting,
    CheckingPeer { rc: i32 },
    ReportingStats,
    Pacing,
    Draining,
    Closing,
    Done,
}

/// Maximum peer polls before streaming best-effort without a peer.
pub const PEER_POLL_ATTEMPTS: u32 = 30;

/// Milliseconds slept between peer polls and before a backpressure retry.
pub const RETRY_DELAY_MS: u64 = 100;

/// Which event answers which phase's pending action.
pub open spec fn event_fits(p: Phase, e: Event) -> bool {
    match p {
        Phase::Creating => e is Created,
        Phase::WaitingForPeer { .. } => e is Connections,
        Phase::Submitting => e is SendResult,
        Phase::CheckingPeer { .. } => e is Connections,
        Phase::ReportingStats => e is Stats,
        Phase::Pacing => e matches Event::TimeNow { now } && now >= 0,
        Phase::Draining => e is Stats,
        Phase::Closing => e is Destroyed,
        Phase::Done => false,
    }
}

/// Driver of one session.
#[derive(Clone, Copy, Debug)]
pub struct SessionDriver {
    /// floor(duration * num / den).
    pub frames_to_send: u64,
    /// floor(10^7 * den / num): the timestamp increment and frame period.
    pub ticks_per_frame: i64,
    /// Statistics are read once per this many accepted frames.
    pub stats_interval: u64,
    pub duration_secs: u32,
    pub phase: Phase,
    /// Frames accepted so far; the next submission is for this index.
    pub frame_index: u64,
    /// Timestamp of the next submission.
    pub pts: i64,
    pub stats_counter: u64,
    /// The pacing deadline of the most recent submission, in session ticks.
    pub deadline: i64,
    pub peer_seen: bool,
    pub peer_lost: bool,
    /// How many `Destroy` actions the driver has issued.
    pub destroys_issued: u32,
    /// Set when the session reaches `Closing`; final from `Done`.
    pub outcome: Option<Result<SessionReport, CoreError>>,
}

/// `bytes * 8 / dur` saturated to the unsigned 64-bit range.
pub open spec fn spec_avg_bps(bytes: int, dur: int) -> int {
    if bytes * 8 / dur <= u64::MAX as int {
        bytes * 8 / dur
    } else {
        u64::MAX as int
    }
}

/// The final report assembled while draining.
pub open spec fn spec_report(s: SessionDriver, st: TransportStats) -> SessionReport {
    SessionReport {
        stats: st,
        frames_to_send: s.frames_to_send,
        avg_bits_per_sec: spec_avg_bps(st.bytes_sent as int, s.duration_secs as int) as u64,
        peer_seen: s.peer_seen,
        peer_lost: s.peer_lost,
    }
}

/// Entering the streaming phase: submit frame 0 immediately, or go straight
/// to draining when there is nothing to send.
pub open spec fn spec_start_streaming(s: SessionDriver) -> (SessionDriver, Action) {
    if s.frames_to_send == 0 {
        (SessionDriver { phase: Phase::Draining, ..s }, Action::ReadFinalStats)
    } else {
        (
            SessionDriver { phase: Phase::Submitting, ..s },
            Action::SubmitFrame { timestamp: s.pts, not_before: s.deadline, delay_ms: 0 },
        )
    }
}

/// A frame was delivered: advance timestamp and index, then read interim
/// statistics if they are due, else consult the pacing clock.
pub open spec fn spec_accept(s: SessionDriver) -> (SessionDriver, Action) {
    let s2 = SessionDriver {
        pts: clamp_ticks(s.pts + s.ticks_per_frame) as i64,
        frame_index: (s.frame_index + 1) as u64,
        stats_counter: (s.stats_counter + 1) as u64,
        ..s
    };
    if s2.stats_counter >= s.stats_interval {
        (SessionDriver { phase: Phase::ReportingStats, ..s2 }, Action::ReadPeriodicStats)
    } else {
        (SessionDriver { phase: Phase::Pacing, ..s2 }, Action::ReadTime)
    }
}

/// The transition relation of the session state machine.
pub open spec fn step_spec(s: SessionDriver, e: Event) -> (SessionDriver, Action) {
    match (s.phase, e) {
        (Phase::Creating, Event::Created { ok }) => {
            if ok {
                (
                    SessionDriver { phase: Phase::WaitingForPeer { attempts: 0 }, ..s },
                    Action::PollConnections { delay_ms: 0 },
                )
            } else {
                (
                    SessionDriver {
                        phase: Phase::Done,
                        outcome: Some(Err(CoreError::SessionCreateFailed)),
                        ..s
                    },
                    Action::Finished,
                )
            }
        },
        (Phase::WaitingForPeer { attempts }, Event::Connections { count }) => {
            if count > 0 {
                spec_start_streaming(SessionDriver { peer_seen: true, ..s })
            } else if attempts + 1 < PEER_POLL_ATTEMPTS {
                (
                    SessionDriver {
                        phase: Phase::WaitingForPeer { attempts: (attempts + 1) as u32 },
                        ..s
                    },
                    Action::PollConnections { delay_ms: RETRY_DELAY_MS },
                )
            } else {
                spec_start_streaming(s)
            }
        },
        (Phase::Submitting, Event::SendResult { rc }) => {
            if rc == 0 {
                spec_accept(s)
            } else {
                (
                    SessionDriver { phase: Phase::CheckingPeer { rc }, ..s },
                    Action::PollConnections { delay_ms: 0 },
                )
            }
        },
        (Phase::CheckingPeer { rc }, Event::Connections { count }) => {
            if count == 0 {
                (
                    SessionDriver { phase: Phase::Draining, peer_lost: true, ..s },
                    Action::ReadFinalStats,
                )
            } else if classify_spec(rc as int) is TransientBackpressure {
                (
                    SessionDriver { phase: Phase::Submitting, ..s },
                    Action::SubmitFrame {
                        timestamp: s.pts,
                        not_before: 0,
                        delay_ms: RETRY_DELAY_MS,
                    },
                )
            } else if classify_spec(rc as int) is Fatal {
                (
                    SessionDriver {
                        phase: Phase::Closing,
                        outcome: Some(Err(CoreError::SubmissionFatal { rc })),
                        destroys_issued: 1,
                        ..s
                    },
                    Action::Destroy,
                )
            } else {
                spec_accept(s)
            }
        },
        (Phase::ReportingStats, Event::Stats { .. }) => {
            (
                SessionDriver { stats_counter: 0, phase: Phase::Pacing, ..s },
                Action::ReadTime,
            )
        },
        (Phase::Pacing, Event::TimeNow { now }) => {
            let d2 = next_deadline_spec(s.deadline as int, now as int, s.ticks_per_frame as int);
            let s2 = SessionDriver { deadline: d2 as i64, ..s };
            if s.frame_index < s.frames_to_send {
                (
                    SessionDriver { phase: Phase::Submitting, ..s2 },
                    Action::SubmitFrame { timestamp: s.pts, not_before: d2 as i64, delay_ms: 0 },
                )
            } else {
                (SessionDriver { phase: Phase::Draining, ..s2 }, Action::ReadFinalStats)
            }
        },
        (Phase::Draining, Event::Stats { stats }) => {
            (
                SessionDriver {
                    phase: Phase::Closing,
                    outcome: Some(Ok(spec_report(s, stats))),
                    destroys_issued: 1,
                    ..s
                },
                Action::Destroy,
            )
        },
        (Phase::Closing, Event::Destroyed) => {
            (SessionDriver { phase: Phase::Done, ..s }, Action::Finished)
        },
        _ => (s, Action::Finished),
    }
}

impl SessionDriver {
    /// The driver's invariant, preserved by every step.
    pub open spec fn inv(self) -> bool {
        &&& 0 <= self.ticks_per_frame
        &&& 1 <= self.duration_secs
        &&& self.frame_index <= self.frames_to_send
        &&& self.stats_counter <= self.frame_index
        &&& 0 <= self.pts
        &&& self.pts == frame_timestamp(self.frame_index as int, self.ticks_per_frame as int)
        &&& 0 <= self.deadline
        &&& (self.phase matches Phase::CheckingPeer { rc } ==> rc != 0)
        &&& (self.phase matches Phase::WaitingForPeer { attempts } ==> attempts
            < PEER_POLL_ATTEMPTS)
        &&& (self.phase is Submitting ==> self.frame_index < self.frames_to_send)
        &&& (self.phase is CheckingPeer ==> self.frame_index < self.frames_to_send)
        &&& (self.phase is Creating || self.phase is WaitingForPeer ==> self.frame_index == 0)
        &&& (match self.phase {
            Phase::Closing | Phase::Done => self.outcome is Some,
            _ => self.outcome is None,
        })
        &&& (self.phase is Closing ==> !(self.outcome == Some(
            Result::<SessionReport, CoreError>::Err(CoreError::SessionCreateFailed),
        )))
        &&& self.destroys_issued == (if self.phase is Closing {
            1u32
        } else if self.phase is Done {
            if self.outcome == Some(Result::<SessionReport, CoreError>::Err(
                CoreError::SessionCreateFailed,
            )) {
                0u32
            } else {
                1u32
            }
        } else {
            0u32
        })
    }

    /// Set up the driver for one `(format, duration)` case.
    pub fn new(format: &VideoFormat, duration_secs: u32) -> (r: SessionDriver)
        requires
            format.wf(),
            1 <= duration_secs,
        ensures
            r.inv(),
            r.phase is Creating,
            r.frames_to_send == duration_secs * format.fps_n / (format.fps_d as int),
            r.ticks_per_frame == TICKS_PER_SECOND * format.fps_d / (format.fps_n as int),
            r.stats_interval == format.fps_n as int / format.fps_d as int,
            r.duration_secs == duration_secs,
            r.frame_index == 0,
            r.pts == 0,
            r.deadline == 0,
            r.stats_counter == 0,
            !r.peer_seen,
            !r.peer_lost,
            r.destroys_issued == 0,
            r.outcome is None,
    {
        proof {
            assert((duration_secs as u64) * (format.fps_n as u64) == duration_secs * format.fps_n
                && 0 <= duration_secs * format.fps_n < 0x8000_0000_0000_0000) by (nonlinear_arith)
                requires
                    0 <= duration_secs < 0x1_0000_0000,
                    0 < format.fps_n < 0x8000_0000,
            ;
            assert(0 <= duration_secs * format.fps_n / format.fps_d as int <= duration_secs
                * format.fps_n) by (nonlinear_arith)
                requires
                    0 <= duration_secs * format.fps_n,
                    0 < format.fps_d,
            ;
        }
        let frames: u64 = (duration_secs as u64) * (format.fps_n as u64) / (format.fps_d as u64);
        SessionDriver {
            frames_to_send: frames,
            ticks_per_frame: ticks_per_frame(format.fps_n, format.fps_d),
            stats_interval: (format.fps_n as u64) / (format.fps_d as u64),
            duration_secs,
            phase: Phase::Creating,
            frame_index: 0,
            pts: 0,
            stats_counter: 0,
            deadline: 0,
            peer_seen: false,
            peer_lost: false,
            destroys_issued: 0,
            outcome: None,
        }
    }

    /// A frame was delivered (rc zero or informational): advance.
    fn accept(&mut self) -> (a: Action)
        requires
            old(self).inv(),
            old(self).frame_index < old(self).frames_to_send,
            old(self).phase is Submitting || old(self).phase is CheckingPeer,
        ensures
            (*final(self), a) == spec_accept(*old(self)),
            final(self).inv(),
    {
        proof {
            lemma_timestamp_step(old(self).frame_index as int, old(self).ticks_per_frame as int);
        }
        self.pts = saturating_add_ticks(self.pts, self.ticks_per_frame);
        self.frame_index = self.frame_index + 1;
        self.stats_counter = self.stats_counter + 1;
        if self.stats_counter >= self.stats_interval {
            self.phase = Phase::ReportingStats;
            Action::ReadPeriodicStats
        } else {
            self.phase = Phase::Pacing;
            Action::ReadTime
        }
    }

    /// Feed back the reply to the pending action; returns the next action.
    pub fn on_event(&mut self, e: Event) -> (a: Action)
        requires
            old(self).inv(),
            event_fits(old(self).phase, e),
        ensures
            (*final(self), a) == step_spec(*old(self), e),
            final(self).inv(),
    {
        let phase = self.phase;
        match (phase, e) {
            (Phase::Creating, Event::Created { ok }) => {
                if ok {
                    self.phase = Phase::WaitingForPeer { attempts: 0 };
                    Action::PollConnections { delay_ms: 0 }
                } else {
                    self.phase = Phase::Done;
                    self.outcome = Some(Err(CoreError::SessionCreateFailed));
                    Action::Finished
                }
            },
            (Phase::WaitingForPeer { attempts }, Event::Connections { count }) => {
                if count > 0 {
                    self.peer_seen = true;
                    self.start_streaming()
                } else if attempts + 1 < PEER_POLL_ATTEMPTS {
                    self.phase = Phase::WaitingForPeer { attempts: attempts + 1 };
                    Action::PollConnections { delay_ms: RETRY_DELAY_MS }
                } else {
                    self.start_streaming()
                }
            },
            (Phase::Submitting, Event::SendResult { rc }) => {
                if rc == 0 {
                    self.accept()
                } else {
                    self.phase = Phase::CheckingPeer { rc };
                    Action::PollConnections { delay_ms: 0 }
                }
            },
            (Phase::CheckingPeer { rc }, Event::Connections { count }) => {
                if count == 0 {
                    self.phase = Phase::Draining;
                    self.peer_lost = true;
                    Action::ReadFinalStats
                } else {
                    match interpret_return_code(rc) {
                        Outcome::TransientBackpressure => {
                            self.phase = Phase::Submitting;
                            Action::SubmitFrame {
                                timestamp: self.pts,
                                not_before: 0,
                                delay_ms: RETRY_DELAY_MS,
                            }
                        },
                        Outcome::Fatal => {
                            self.phase = Phase::Closing;
                            self.outcome = Some(Err(CoreError::SubmissionFatal { rc }));
                            self.destroys_issued = 1;
                            Action::Destroy
                        },
                        _ => self.accept(),
                    }
                }
            },
            (Phase::ReportingStats, Event::Stats { .. }) => {
                self.stats_counter = 0;
                self.phase = Phase::Pacing;
                Action::ReadTime
            },
            (Phase::Pacing, Event::TimeNow { now }) => {
                let d2 = next_deadline(self.deadline, now, self.ticks_per_frame);
                self.deadline = d2;
                if self.frame_index < self.frames_to_send {
                    self.phase = Phase::Submitting;
                    Action::SubmitFrame { timestamp: self.pts, not_before: d2, delay_ms: 0 }
                } else {
                    self.phase = Phase::Draining;
                    Action::ReadFinalStats
                }
            },
            (Phase::Draining, Event::Stats { stats }) => {
                let report = self.build_report(stats);
                self.phase = Phase::Closing;
                self.outcome = Some(Ok(report));
                self.destroys_issued = 1;
                Action::Destroy
            },
            (Phase::Closing, Event::Destroyed) => {
                self.phase = Phase::Done;
                Action::Finished
            },
            _ => Action::Finished,
        }
    }

    /// Enter streaming, or drain at once when nothing is to be sent.
    fn start_streaming(&mut self) -> (a: Action)
        requires
            old(self).inv(),
            old(self).frame_index == 0,
            old(self).phase is WaitingForPeer,
        ensures
            (*final(self), a) == spec_start_streaming(*old(self)),
            final(self).inv(),
    {
        if self.frames_to_send == 0 {
            self.phase = Phase::Draining;
            Action::ReadFinalStats
        } else {
            self.phase = Phase::Submitting;
            Action::SubmitFrame { timestamp: self.pts, not_before: self.deadline, delay_ms: 0 }
        }
    }

    /// Assemble the final report from the transport's counters.
    fn build_report(&self, stats: TransportStats) -> (r: SessionReport)
        requires
            1 <= self.duration_secs,
        ensures
            r == spec_report(*self, stats),
    {
        let bits: u128 = (stats.bytes_sent as u128) * 8;
        let avg: u128 = bits / (self.duration_secs as u128);
        let avg64: u64 = if avg > u64::MAX as u128 {
            u64::MAX
        } else {
            avg as u64
        };
        SessionReport {
            stats,
            frames_to_send: self.frames_to_send,
            avg_bits_per_sec: avg64,
            peer_seen: self.peer_seen,
            peer_lost: self.peer_lost,
        }
    }
}

/// Advancing one frame advances the saturating timestamp by one increment.
proof fn lemma_timestamp_step(n: int, d: int)
    requires
        0 <= n,
        0 <= d,
    ensures
        clamp_ticks(frame_timestamp(n, d) + d) == frame_timestamp(n + 1, d),
{
    assert((n + 1) * d == n * d + d) by (nonlinear_arith);
}

/// Law: every frame submission the driver issues carries the timestamp of
/// the frame index it stands for — `frame_timestamp(i, delta)`, the
/// saturating sequence `0, delta, 2 delta, ...`. A backpressure retry
/// resubmits the index it retries, so its timestamp repeats; otherwise the
/// timestamps emitted over a session are exactly that sequence in order.
pub proof fn lemma_submission_timestamps(s: SessionDriver, e: Event)
    requires
        s.inv(),
        event_fits(s.phase, e),
    ensures
        step_spec(s, e).1 matches Action::SubmitFrame { timestamp, .. } ==> timestamp
            == frame_timestamp(
            step_spec(s, e).0.frame_index as int,
            s.ticks_per_frame as int,
        ),
{
}

/// Without saturation the timestamp sequence is strictly increasing with
/// the exact per-frame increment `delta`: frame `n` is stamped `n * delta`.
pub proof fn lemma_timestamp_sequence(m: int, n: int, d: int)
    requires
        0 <= m < n,
        0 < d,
        n * d <= i64::MAX as int,
    ensures
        frame_timestamp(m, d) == m * d,
        frame_timestamp(n, d) == n * d,
        frame_timestamp(m, d) < frame_timestamp(n, d),
{
    assert(m * d < n * d) by (nonlinear_arith)
        requires
            0 <= m < n,
            0 < d,
    ;
}

/// Law: transient backpressure with the peer still connected resubmits the
/// same frame after the retry delay — the same timestamp, the same frame
/// index, nothing advanced.
pub proof fn lemma_backpressure_resubmits_same(s: SessionDriver, count: u32)
    requires
        s.inv(),
        s.phase == (Phase::CheckingPeer { rc: 26984 }),
        count > 0,
    ensures
        ({
            let (s2, a) = step_spec(s, Event::Connections { count });
            &&& s2.phase is Submitting
            &&& s2.frame_index == s.frame_index
            &&& s2.pts == s.pts
            &&& a == (Action::SubmitFrame {
                timestamp: s.pts,
                not_before: 0,
                delay_ms: RETRY_DELAY_MS,
            })
        }),
{
}

/// Law: the driver issues `Destroy` exactly on the transition into
/// `Closing`, and never a second time; a session that reaches `Done` has
/// issued exactly one destroy unless its creation failed, in which case
/// there was never a handle to release and it has issued none.
pub proof fn lemma_destroy_exactly_once(s: SessionDriver, e: Event)
    requires
        s.inv(),
        event_fits(s.phase, e),
    ensures
        step_spec(s, e).1 is Destroy ==> s.destroys_issued == 0 && step_spec(
            s,
            e,
        ).0.destroys_issued == 1,
        step_spec(s, e).0.destroys_issued <= 1,
        step_spec(s, e).0.phase is Done && !(step_spec(s, e).0.outcome == Some(
            Result::<SessionReport, CoreError>::Err(CoreError::SessionCreateFailed),
        )) ==> step_spec(s, e).0.destroys_issued == 1,
{
}

/// Law: losing the peer while streaming truncates the session rather than
/// failing it: the driver moves straight to draining with the frame index
/// where it stood, records the loss as a note, and the eventual outcome is
/// built by `spec_report`, which is `Ok`.
pub proof fn lemma_peer_loss_truncates(s: SessionDriver, rc: i32)
    requires
        s.inv(),
        s.phase == (Phase::CheckingPeer { rc }),
    ensures
        ({
            let (s2, a) = step_spec(s, Event::Connections { count: 0 });
            &&& s2.phase is Draining
            &&& s2.peer_lost
            &&& s2.frame_index == s.frame_index
            &&& a is ReadFinalStats
        }),
{
}

/// Law: once draining has begun no further frame is submitted; the session
/// only moves forward through `Closing` to `Done`.
pub proof fn lemma_no_submission_after_draining(s: SessionDriver, e: Event)
    requires
        s.inv(),
        event_fits(s.phase, e),
        s.phase is Draining || s.phase is Closing,
    ensures
        !(step_spec(s, e).1 is SubmitFrame),
        step_spec(s, e).0.phase is Closing || step_spec(s, e).0.phase is Done,
{
}

/// One step preserves the driver invariant.
pub proof fn lemma_step_preserves_inv(s: SessionDriver, e: Event)
    requires
        s.inv(),
        event_fits(s.phase, e),
    ensures
        step_spec(s, e).0.inv(),
{
    lemma_timestamp_step(s.frame_index as int, s.ticks_per_frame as int);
}

/// The state after feeding a whole event trace through the driver.
pub open spec fn run_driver(s: SessionDriver, es: Seq<Event>) -> SessionDriver
    decreases es.len(),
{
    if es.len() == 0 {
        s
    } else {
        run_driver(step_spec(s, es[0]).0, es.drop_first())
    }
}

/// A trace in which every event answers the action pending at its point.
pub open spec fn events_fit(s: SessionDriver, es: Seq<Event>) -> bool
    decreases es.len(),
{
    es.len() == 0 || (event_fits(s.phase, es[0]) && events_fit(
        step_spec(s, es[0]).0,
        es.drop_first(),
    ))
}

/// The invariant holds along every well-formed run.
pub proof fn lemma_run_preserves_inv(s: SessionDriver, es: Seq<Event>)
    requires
        s.inv(),
        events_fit(s, es),
    ensures
        run_driver(s, es).inv(),
    decreases es.len(),
{
    if es.len() > 0 {
        lemma_step_preserves_inv(s, es[0]);
        lemma_run_preserves_inv(step_spec(s, es[0]).0, es.drop_first());
    }
}

/// Law: over any whole run from a fresh driver, destroy is issued at most
/// once, and exactly once whenever the run ends in `Done` with any outcome
/// other than a creation failure — every termination path releases the
/// session it created.
pub proof fn lemma_run_destroys_exactly_once(s: SessionDriver, es: Seq<Event>)
    requires
        s.inv(),
        events_fit(s, es),
    ensures
        run_driver(s, es).destroys_issued <= 1,
        run_driver(s, es).phase is Done && !(run_driver(s, es).outcome == Some(
            Result::<SessionReport, CoreError>::Err(CoreError::SessionCreateFailed),
        )) ==> run_driver(s, es).destroys_issued == 1,
{
    lemma_run_preserves_inv(s, es);
}

/// Timestamps of the frame submissions a run issues, in order.
pub open spec fn run_timestamps(s: SessionDriver, es: Seq<Event>) -> Seq<i64>
    decreases es.len(),
{
    if es.len() == 0 {
        Seq::empty()
    } else {
        let rest = run_timestamps(step_spec(s, es[0]).0, es.drop_first());
        match step_spec(s, es[0]).1 {
            Action::SubmitFrame { timestamp, .. } => seq![timestamp] + rest,
            _ => rest,
        }
    }
}

/// No submission in the trace was answered with transient backpressure.
pub open spec fn no_backpressure(es: Seq<Event>) -> bool {
    forall|i: int| 0 <= i < es.len() ==> !(#[trigger] es[i] matches Event::SendResult { rc: 26984 })
}

/// The frame index of the next submission the driver will issue: while a
/// submission's result is pending, the one after it.
pub open spec fn next_submit_index(s: SessionDriver) -> int {
    if s.phase is Submitting || s.phase is CheckingPeer {
        s.frame_index + 1
    } else {
        s.frame_index as int
    }
}

/// The saturating timestamp ramp `start, start + 1, ...` of length
/// `count`, scaled by `d` ticks per frame.
pub open spec fn timestamp_ramp(start: int, count: int, d: int) -> Seq<i64> {
    Seq::new(count as nat, |k: int| frame_timestamp(start + k, d) as i64)
}

/// Once streaming is over nothing further is submitted.
proof fn lemma_no_timestamps_after_streaming(s: SessionDriver, es: Seq<Event>)
    requires
        s.inv(),
        events_fit(s, es),
        s.phase is Draining || s.phase is Closing || s.phase is Done,
    ensures
        run_timestamps(s, es).len() == 0,
    decreases es.len(),
{
    if es.len() > 0 {
        lemma_step_preserves_inv(s, es[0]);
        lemma_no_timestamps_after_streaming(step_spec(s, es[0]).0, es.drop_first());
    }
}

/// Law: along any run without transient backpressure, the submitted
/// timestamps are consecutive points of the saturating ramp — from a fresh
/// driver, exactly `0, delta, 2 delta, ...`.
pub proof fn lemma_run_timestamps_consecutive(s: SessionDriver, es: Seq<Event>)
    requires
        s.inv(),
        events_fit(s, es),
        no_backpressure(es),
        s.phase matches Phase::CheckingPeer { rc } ==> rc != 26984,
    ensures
        run_timestamps(s, es) =~= timestamp_ramp(
            next_submit_index(s),
            run_timestamps(s, es).len() as int,
            s.ticks_per_frame as int,
        ),
    decreases es.len(),
{
    if es.len() > 0 {
        let e = es[0];
        let s2 = step_spec(s, e).0;
        let a = step_spec(s, e).1;
        let tail = es.drop_first();
        lemma_step_preserves_inv(s, e);
        assert(forall|i: int| 0 <= i < tail.len() ==> tail[i] == es[i + 1]);
        if s2.phase is Draining || s2.phase is Closing || s2.phase is Done {
            lemma_no_timestamps_after_streaming(s2, tail);
        } else {
            lemma_run_timestamps_consecutive(s2, tail);
            let rest = run_timestamps(s2, tail);
            let d = s.ticks_per_frame as int;
            match a {
                Action::SubmitFrame { timestamp, .. } => {
                    assert(s2.ticks_per_frame == s.ticks_per_frame);
                    assert(next_submit_index(s2) == next_submit_index(s) + 1);
                    assert(timestamp == frame_timestamp(next_submit_index(s), d)) by {
                        lemma_submission_timestamps(s, e);
                    }
                    assert forall|k: int|
                        0 <= k < run_timestamps(s, es).len() implies run_timestamps(s, es)[k]
                        == frame_timestamp(next_submit_index(s) + k, d) as i64 by {
                        if k > 0 {
                            assert(run_timestamps(s, es)[k] == rest[k - 1]);
                            assert(rest[k - 1] == frame_timestamp(
                                next_submit_index(s2) + (k - 1),
                                d,
                            ) as i64);
                        }
                    }
                },
                _ => {
                    assert(s2.ticks_per_frame == s.ticks_per_frame);
                    assert(next_submit_index(s2) == next_submit_index(s));
                },
            }
        }
    }
}

/// Law: a full session run from a fresh driver that never sees transient
/// backpressure submits exactly the timestamps `0, delta, 2 delta, ...`.
pub proof fn lemma_session_timestamp_sequence(s: SessionDriver, es: Seq<Event>)
    requires
        s.inv(),
        s.phase is Creating,
        events_fit(s, es),
        no_backpressure(es),
    ensures
        run_timestamps(s, es) =~= timestamp_ramp(
            0,
            run_timestamps(s, es).len() as int,
            s.ticks_per_frame as int,
        ),
{
    lemma_run_timestamps_consecutive(s, es);
}

} // verus!
