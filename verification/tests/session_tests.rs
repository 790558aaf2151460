use omt_send::format::{ColorSpace, Encoding, VideoFormat};
use omt_send::session::{Action, Event, Phase, SessionDriver, SessionReport, TransportStats};
use omt_send::CoreError;

fn fmt(encoding: Encoding, width: i32, height: i32, fps_n: i32, fps_d: i32) -> VideoFormat {
    VideoFormat { encoding, width, height, fps_n, fps_d, name: "case" }
}

fn stats() -> TransportStats {
    TransportStats { bytes_sent: 1_000_000, frames: 30, frames_dropped: 0, codec_time_ms: 4 }
}

struct RunLog {
    timestamps: Vec<i64>,
    destroys: u32,
    peer_polls: u32,
}

/// Drive a created session to completion against a scripted fake
/// transport: `peer_conns` answers the initial peer wait, `rc_of(k)` is
/// the return code of the k-th submission (0-based), and `conns_of(k)`
/// answers the liveness check made after submission k came back non-zero.
fn drive(
    drv: &mut SessionDriver,
    peer_conns: u32,
    rc_of: impl Fn(usize) -> i32,
    conns_of: impl Fn(usize) -> u32,
) -> RunLog {
    let mut log = RunLog { timestamps: Vec::new(), destroys: 0, peer_polls: 0 };
    let mut now: i64 = 0;
    let mut a = drv.on_event(Event::Created { ok: true });
    for _ in 0..1_000_000 {
        match a {
            Action::CreateSession => unreachable!("session is already created"),
            Action::PollConnections { .. } => {
                let c = if matches!(drv.phase, Phase::WaitingForPeer { .. }) {
                    log.peer_polls += 1;
                    peer_conns
                } else {
                    conns_of(log.timestamps.len() - 1)
                };
                a = drv.on_event(Event::Connections { count: c });
            }
            Action::SubmitFrame { timestamp, .. } => {
                log.timestamps.push(timestamp);
                let rc = rc_of(log.timestamps.len() - 1);
                a = drv.on_event(Event::SendResult { rc });
            }
            Action::ReadPeriodicStats | Action::ReadFinalStats => {
                a = drv.on_event(Event::Stats { stats: stats() });
            }
            Action::ReadTime => {
                now += drv.ticks_per_frame;
                a = drv.on_event(Event::TimeNow { now });
            }
            Action::Destroy => {
                log.destroys += 1;
                a = drv.on_event(Event::Destroyed);
            }
            Action::Finished => return log,
        }
    }
    panic!("driver did not finish");
}

fn report(drv: &SessionDriver) -> SessionReport {
    drv.outcome.expect("no outcome").expect("session failed")
}

#[test]
fn uyvy_720p30_one_second_clean_run() {
    let f = fmt(Encoding::Uyvy, 1280, 720, 30, 1);
    assert_eq!(f.buffer_size(), 1_843_200);
    let mut drv = SessionDriver::new(&f, 1);
    let log = drive(&mut drv, 1, |_| 0, |_| 1);
    assert_eq!(log.timestamps.len(), 30);
    assert_eq!(*log.timestamps.last().unwrap(), 29 * 333_333);
    assert_eq!(*log.timestamps.last().unwrap(), 9_666_657);
    assert_eq!(log.destroys, 1);
    let r = report(&drv);
    assert!(!r.peer_lost);
    assert!(r.peer_seen);
    assert_eq!(r.frames_to_send, 30);
}

#[test]
fn timestamps_form_exact_arithmetic_sequence() {
    let f = fmt(Encoding::Uyvy, 1280, 720, 30, 1);
    let mut drv = SessionDriver::new(&f, 1);
    let log = drive(&mut drv, 1, |_| 0, |_| 1);
    let expected: Vec<i64> = (0..30).map(|i| i * 333_333).collect();
    assert_eq!(log.timestamps, expected);
}

#[test]
fn bgra_1080p30_two_seconds_with_alpha() {
    let f = fmt(Encoding::Bgra, 1920, 1080, 30, 1);
    assert_eq!(f.buffer_size(), 8_294_400);
    assert!(f.frame_config(true).alpha);
    let mut drv = SessionDriver::new(&f, 2);
    let log = drive(&mut drv, 1, |_| 0, |_| 1);
    assert_eq!(log.timestamps.len(), 60);
    assert_eq!(log.destroys, 1);
    assert!(!report(&drv).peer_lost);
}

#[test]
fn nv12_720p30_one_second() {
    let f = fmt(Encoding::Nv12, 1280, 720, 30, 1);
    assert_eq!(f.buffer_size(), 1_382_400);
    assert_eq!(f.frame_config(false).color_space, ColorSpace::Bt709);
    let mut drv = SessionDriver::new(&f, 1);
    let log = drive(&mut drv, 1, |_| 0, |_| 1);
    assert_eq!(log.timestamps.len(), 30);
    assert_eq!(log.destroys, 1);
}

#[test]
fn backpressure_resubmits_same_timestamp_once() {
    // 640x480 @ 60/1 for one second; the 10th submission (index 9) hits
    // transient backpressure once, is retried with the same timestamp, and
    // the session still delivers all 60 distinct timestamps.
    let f = fmt(Encoding::Uyvy, 640, 480, 60, 1);
    let mut drv = SessionDriver::new(&f, 1);
    let log = drive(&mut drv, 1, |k| if k == 9 { 26984 } else { 0 }, |_| 1);
    assert_eq!(log.timestamps.len(), 61);
    let resubmitted = 9 * 166_666;
    assert_eq!(
        log.timestamps.iter().filter(|&&t| t == resubmitted).count(),
        2
    );
    let mut distinct = log.timestamps.clone();
    distinct.dedup();
    assert_eq!(distinct.len(), 60);
    assert_eq!(*log.timestamps.last().unwrap(), 59 * 166_666);
    assert_eq!(log.destroys, 1);
    assert!(!report(&drv).peer_lost);
}

#[test]
fn peer_loss_truncates_run_without_failing() {
    // Submission 45 (1-based) returns 1 and the liveness check finds no
    // peer: the loop exits between 45 and 46, the case is not a failure.
    let f = fmt(Encoding::Bgra, 1280, 720, 30, 1);
    let mut drv = SessionDriver::new(&f, 5);
    let log = drive(&mut drv, 1, |k| if k == 44 { 1 } else { 0 }, |k| {
        if k == 44 {
            0
        } else {
            1
        }
    });
    assert_eq!(log.timestamps.len(), 45);
    assert_eq!(log.destroys, 1);
    let r = report(&drv);
    assert!(r.peer_lost);
}

#[test]
fn unknown_positive_code_with_peer_is_informational() {
    let f = fmt(Encoding::Uyvy, 1280, 720, 30, 1);
    let mut drv = SessionDriver::new(&f, 1);
    let log = drive(&mut drv, 1, |k| if k == 3 { 99999 } else { 0 }, |_| 1);
    assert_eq!(log.timestamps.len(), 30);
    assert!(!report(&drv).peer_lost);
}

#[test]
fn negative_code_is_fatal_and_still_destroys() {
    let f = fmt(Encoding::Uyvy, 1280, 720, 30, 1);
    let mut drv = SessionDriver::new(&f, 1);
    let log = drive(&mut drv, 1, |k| if k == 5 { -1 } else { 0 }, |_| 1);
    assert_eq!(log.timestamps.len(), 6);
    assert_eq!(log.destroys, 1);
    assert_eq!(
        drv.outcome,
        Some(Err(CoreError::SubmissionFatal { rc: -1 }))
    );
}

#[test]
fn create_failure_destroys_nothing() {
    let f = fmt(Encoding::Uyvy, 1280, 720, 30, 1);
    let mut drv = SessionDriver::new(&f, 1);
    let a = drv.on_event(Event::Created { ok: false });
    assert!(matches!(a, Action::Finished));
    assert_eq!(drv.outcome, Some(Err(CoreError::SessionCreateFailed)));
    assert_eq!(drv.destroys_issued, 0);
}

#[test]
fn no_peer_streams_best_effort_after_thirty_polls() {
    let f = fmt(Encoding::Uyvy, 1280, 720, 30, 1);
    let mut drv = SessionDriver::new(&f, 1);
    let log = drive(&mut drv, 0, |_| 0, |_| 1);
    assert_eq!(log.peer_polls, 30);
    assert_eq!(log.timestamps.len(), 30);
    let r = report(&drv);
    assert!(!r.peer_seen);
}

#[test]
fn pacing_drift_resets_deadline_to_now_plus_period() {
    // Walk the protocol by hand: after the first accepted frame the driver
    // asks for the time; answering with a reading more than two periods
    // past the nominal deadline makes the next submission's deadline
    // now + period rather than a catch-up burst.
    let f = fmt(Encoding::Uyvy, 1280, 720, 30, 1);
    let period = 333_333;
    let mut drv = SessionDriver::new(&f, 1);
    let a = drv.on_event(Event::Created { ok: true });
    assert!(matches!(a, Action::PollConnections { .. }));
    let a = drv.on_event(Event::Connections { count: 1 });
    match a {
        Action::SubmitFrame { timestamp, not_before, .. } => {
            assert_eq!(timestamp, 0);
            assert_eq!(not_before, 0);
        }
        other => panic!("expected a submission, got {:?}", other),
    }
    let a = drv.on_event(Event::SendResult { rc: 0 });
    assert!(matches!(a, Action::ReadTime));
    // Blocked inside the transport: far past deadline 0 + period.
    let now = period + 2 * period + 1;
    let a = drv.on_event(Event::TimeNow { now });
    match a {
        Action::SubmitFrame { timestamp, not_before, .. } => {
            assert_eq!(timestamp, period);
            assert_eq!(not_before, now + period);
        }
        other => panic!("expected a submission, got {:?}", other),
    }
}

#[test]
fn pacing_on_time_advances_deadline_by_one_period() {
    let f = fmt(Encoding::Uyvy, 1280, 720, 30, 1);
    let period = 333_333;
    let mut drv = SessionDriver::new(&f, 1);
    drv.on_event(Event::Created { ok: true });
    drv.on_event(Event::Connections { count: 1 });
    drv.on_event(Event::SendResult { rc: 0 });
    let a = drv.on_event(Event::TimeNow { now: 100 });
    match a {
        Action::SubmitFrame { not_before, .. } => assert_eq!(not_before, period),
        other => panic!("expected a submission, got {:?}", other),
    }
}

#[test]
fn zero_frames_drains_immediately() {
    // A rate below one frame per second over one second yields nothing to
    // send; the session still reads final statistics and destroys once.
    let f = fmt(Encoding::Uyvy, 1280, 720, 1, 2);
    let mut drv = SessionDriver::new(&f, 1);
    let log = drive(&mut drv, 1, |_| 0, |_| 1);
    assert_eq!(log.timestamps.len(), 0);
    assert_eq!(log.destroys, 1);
    assert!(drv.outcome.unwrap().is_ok());
}

#[test]
fn periodic_stats_once_per_second() {
    // 2 seconds at 30 fps: interim statistics are read once every 30
    // accepted frames, so twice, plus the final read.
    let f = fmt(Encoding::Uyvy, 1280, 720, 30, 1);
    let mut drv = SessionDriver::new(&f, 2);
    let mut stats_reads = 0u32;
    let mut final_reads = 0u32;
    let mut now: i64 = 0;
    let mut a = drv.on_event(Event::Created { ok: true });
    loop {
        match a {
            Action::PollConnections { .. } => {
                a = drv.on_event(Event::Connections { count: 1 });
            }
            Action::SubmitFrame { .. } => {
                a = drv.on_event(Event::SendResult { rc: 0 });
            }
            Action::ReadPeriodicStats => {
                stats_reads += 1;
                a = drv.on_event(Event::Stats { stats: stats() });
            }
            Action::ReadFinalStats => {
                final_reads += 1;
                a = drv.on_event(Event::Stats { stats: stats() });
            }
            Action::ReadTime => {
                now += drv.ticks_per_frame;
                a = drv.on_event(Event::TimeNow { now });
            }
            Action::Destroy => {
                a = drv.on_event(Event::Destroyed);
            }
            Action::Finished => break,
            Action::CreateSession => unreachable!(),
        }
    }
    assert_eq!(stats_reads, 2);
    assert_eq!(final_reads, 1);
}

#[test]
fn report_average_bitrate() {
    let f = fmt(Encoding::Uyvy, 1280, 720, 30, 1);
    let mut drv = SessionDriver::new(&f, 2);
    let mut a = drv.on_event(Event::Created { ok: true });
    a = drv.on_event(Event::Connections { count: 1 });
    // Terminate early through peer loss to reach the report quickly.
    assert!(matches!(a, Action::SubmitFrame { .. }));
    a = drv.on_event(Event::SendResult { rc: 7 });
    assert!(matches!(a, Action::PollConnections { .. }));
    a = drv.on_event(Event::Connections { count: 0 });
    assert!(matches!(a, Action::ReadFinalStats));
    let st = TransportStats {
        bytes_sent: 10_000_000,
        frames: 1,
        frames_dropped: 0,
        codec_time_ms: 0,
    };
    a = drv.on_event(Event::Stats { stats: st });
    assert!(matches!(a, Action::Destroy));
    drv.on_event(Event::Destroyed);
    let r = report(&drv);
    // 10 MB in 2 s = 40,000,000 bits per second.
    assert_eq!(r.avg_bits_per_sec, 40_000_000);
    assert!(r.peer_lost);
}
