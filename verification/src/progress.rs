//! Progress and ETA reporting for long batch jobs. The tracker derives
//! throughput, position, completion percentage and remaining time from a
//! frame counter and wall-clock milliseconds supplied by the caller, in
//! fixed-point arithmetic (tenths for rates and percentages, milliseconds for
//! spans), and renders one of two presentations: an in-place
//! carriage-return line for terminals, or a discrete log line otherwise.
//! Updates are rate-limited to one per 500 ms after the first frame.

use vstd::prelude::*;
use vstd::string::StrSliceExecFns;
use vstd::string::StringExecFns;

use crate::textfmt::fmt_dec;
use crate::textfmt::fmt_deci;
use crate::textfmt::fmt_hms_millis;
use crate::textfmt::spec_dec;
use crate::textfmt::spec_deci;
use crate::textfmt::spec_hms_millis;

verus! {

/// How many milliseconds must pass between two rendered updates.
pub const UPDATE_INTERVAL_MS: u64 = 500;

/// The derived quantities of one progress update, all in fixed point.
pub struct ProgressReport {
    /// 1-based index of the frame just processed.
    pub frame_idx: u64,
    /// Total number of frames, when an estimate is known.
    pub total: Option<u64>,
    /// Stream position, `frame_idx / fps`, in milliseconds.
    pub pos_ms: u64,
    /// Wall-clock time since the tracker started, in milliseconds.
    pub elapsed_ms: u64,
    /// Processing speed, `frame_idx / elapsed`, in tenths of frames/second.
    pub speed_deci: u64,
    /// Completion, `frame_idx / total * 100`, in tenths of a percent.
    pub pct_deci: Option<u64>,
    /// Estimated remaining time, `(total - frame_idx) / speed`, in
    /// milliseconds.
    pub eta_ms: Option<u64>,
}

/// `x` saturated to the 64-bit range.
pub open spec fn spec_sat64(x: int) -> int {
    if x > u64::MAX {
        u64::MAX as int
    } else {
        x
    }
}

/// `a * b / d`, saturated to 64 bits.
fn mul_div_sat(a: u64, b: u64, d: u64) -> (r: u64)
    requires
        d > 0,
    ensures
        r == spec_sat64((a as int * b as int) / d as int),
{
    proof {
        assert(a as int * b as int <= u64::MAX as int * u64::MAX as int) by (nonlinear_arith)
            requires
                a <= u64::MAX,
                b <= u64::MAX,
        ;
    }
    let p: u128 = a as u128 * b as u128;
    let q: u128 = p / (d as u128);
    if q > u64::MAX as u128 {
        u64::MAX
    } else {
        q as u64
    }
}

/// Whether a percentage and an ETA can be derived: a positive total is known
/// and at least one frame arrived in positive elapsed time.
pub open spec fn spec_has_eta(total: Option<u64>, frame_idx: int, elapsed_ms: int) -> bool {
    &&& total is Some
    &&& total.unwrap() > 0
    &&& frame_idx > 0
    &&& elapsed_ms > 0
}

/// The report the tracker derives for `frame_idx` at `now_ms`.
pub open spec fn spec_report(t: ProgressTracker, frame_idx: u64, now_ms: u64) -> ProgressReport {
    let elapsed = now_ms - t.started_ms;
    let remaining = if t.total_frames.unwrap() > frame_idx {
        t.total_frames.unwrap() - frame_idx
    } else {
        0
    };
    ProgressReport {
        frame_idx,
        total: t.total_frames,
        pos_ms: spec_sat64(frame_idx * 1000000 / t.fps_millis as int) as u64,
        elapsed_ms: elapsed as u64,
        speed_deci: if elapsed > 0 {
            spec_sat64(frame_idx * 10000 / elapsed) as u64
        } else {
            0
        },
        pct_deci: if spec_has_eta(t.total_frames, frame_idx as int, elapsed) {
            Some(spec_sat64(frame_idx * 1000 / t.total_frames.unwrap() as int) as u64)
        } else {
            None
        },
        eta_ms: if spec_has_eta(t.total_frames, frame_idx as int, elapsed) {
            Some(spec_sat64(remaining * elapsed / frame_idx as int) as u64)
        } else {
            None
        },
    }
}

/// The text of one update, without the presentation prefix. Fields that are
/// unavailable are omitted, never printed as placeholders.
pub open spec fn spec_body(r: ProgressReport) -> Seq<char> {
    match (r.total, r.pct_deci, r.eta_ms) {
        (Some(t), Some(p), Some(e)) => "frame "@ + spec_dec(r.frame_idx as int) + "/"@ + spec_dec(
            t as int,
        ) + " ("@ + spec_deci(p as int) + "%) pos "@ + spec_hms_millis(r.pos_ms as int)
            + " elapsed "@ + spec_hms_millis(r.elapsed_ms as int) + " speed "@ + spec_deci(
            r.speed_deci as int,
        ) + " fps ETA "@ + spec_hms_millis(e as int),
        (Some(t), _, _) => "frame "@ + spec_dec(r.frame_idx as int) + "/"@ + spec_dec(t as int)
            + " pos "@ + spec_hms_millis(r.pos_ms as int) + " elapsed "@ + spec_hms_millis(
            r.elapsed_ms as int,
        ) + " speed "@ + spec_deci(r.speed_deci as int) + " fps"@,
        _ => "frame "@ + spec_dec(r.frame_idx as int) + " pos "@ + spec_hms_millis(r.pos_ms as int)
            + " elapsed "@ + spec_hms_millis(r.elapsed_ms as int) + " speed "@ + spec_deci(
            r.speed_deci as int,
        ) + " fps"@,
    }
}

/// One rendered update: the in-place line for a terminal (led by a carriage
/// return, ended by nothing), or a discrete log line otherwise.
pub open spec fn spec_line(r: ProgressReport, tty: bool) -> Seq<char> {
    if tty {
        seq!['\r'] + spec_body(r)
    } else {
        "Progress: "@ + spec_body(r)
    }
}

/// Whether a call at `now_ms` for `frame_idx` renders an update: only on an
/// enabled tracker, unconditionally for the first frame, afterwards at most
/// once per `UPDATE_INTERVAL_MS` of wall-clock time.
pub open spec fn spec_update_due(t: ProgressTracker, frame_idx: u64, now_ms: u64) -> bool {
    t.enabled && (frame_idx == 1 || now_ms - t.last_update_ms >= UPDATE_INTERVAL_MS)
}

/// The rate-limit law: once an update has rendered at `now_ms`, no later call
/// within the interval renders again (unless it is the first frame), however
/// many such calls are made — each leaves the tracker unchanged.
pub proof fn lemma_rate_limited(t: ProgressTracker, frame_idx: u64, now_ms: u64, later: u64)
    requires
        frame_idx != 1,
        now_ms <= later < now_ms + UPDATE_INTERVAL_MS,
    ensures
        !spec_update_due(ProgressTracker { last_update_ms: now_ms, ..t }, frame_idx, later),
{
}

/// Rate-limited progress reporting. All times are caller-supplied monotonic
/// milliseconds; the tracker itself never reads a clock.
pub struct ProgressTracker {
    /// Reporting happens only in headless batch mode.
    pub enabled: bool,
    /// Selects the in-place terminal presentation over discrete log lines.
    pub tty: bool,
    /// Total number of frames, when an estimate is known.
    pub total_frames: Option<u64>,
    /// Playback rate in thousandths of frames/second, at least 1.
    pub fps_millis: u32,
    /// When the tracker was created.
    pub started_ms: u64,
    /// When the last update was rendered.
    pub last_update_ms: u64,
}

impl ProgressTracker {
    /// The tracker's internal invariant.
    pub open spec fn wf(self) -> bool {
        &&& self.fps_millis >= 1
        &&& self.started_ms <= self.last_update_ms
    }

    /// A tracker started at `now_ms`. A zero playback rate is clamped to the
    /// smallest representable one.
    pub fn new(enabled: bool, tty: bool, fps_millis: u32, total_frames: Option<u64>, now_ms: u64)
        -> (r: ProgressTracker)
        ensures
            r == (ProgressTracker {
                enabled,
                tty,
                total_frames,
                fps_millis: if fps_millis >= 1 {
                    fps_millis
                } else {
                    1
                },
                started_ms: now_ms,
                last_update_ms: now_ms,
            }),
            r.wf(),
    {
        ProgressTracker {
            enabled,
            tty,
            total_frames,
            fps_millis: if fps_millis >= 1 {
                fps_millis
            } else {
                1
            },
            started_ms: now_ms,
            last_update_ms: now_ms,
        }
    }

    /// The derived quantities for `frame_idx` at `now_ms`.
    pub fn compute_report(&self, frame_idx: u64, now_ms: u64) -> (r: ProgressReport)
        requires
            self.wf(),
            now_ms >= self.started_ms,
        ensures
            r == spec_report(*self, frame_idx, now_ms),
    {
        let elapsed_ms: u64 = now_ms - self.started_ms;
        let pos_ms = mul_div_sat(frame_idx, 1000000, self.fps_millis as u64);
        let speed_deci = if elapsed_ms > 0 {
            mul_div_sat(frame_idx, 10000, elapsed_ms)
        } else {
            0
        };
        let (pct_deci, eta_ms) = match self.total_frames {
            Some(total) => {
                if total > 0 && frame_idx > 0 && elapsed_ms > 0 {
                    let remaining = if total > frame_idx {
                        total - frame_idx
                    } else {
                        0
                    };
                    (
                        Some(mul_div_sat(frame_idx, 1000, total)),
                        Some(mul_div_sat(remaining, elapsed_ms, frame_idx)),
                    )
                } else {
                    (None, None)
                }
            },
            None => (None, None),
        };
        ProgressReport { frame_idx, total: self.total_frames, pos_ms, elapsed_ms, speed_deci, pct_deci, eta_ms }
    }

    /// Renders an update if one is due: always on the first frame, afterwards
    /// at most once per `UPDATE_INTERVAL_MS` of wall-clock time. Every other
    /// call, and every call on a disabled tracker, changes nothing and
    /// renders nothing.
    pub fn maybe_update(&mut self, frame_idx: u64, now_ms: u64) -> (r: Option<String>)
        requires
            old(self).wf(),
            now_ms >= old(self).last_update_ms,
        ensures
            final(self).wf(),
            r is Some <==> spec_update_due(*old(self), frame_idx, now_ms),
            r is Some ==> *final(self) == (ProgressTracker {
                last_update_ms: now_ms,
                ..*old(self)
            }),
            r is None ==> *final(self) == *old(self),
            r matches Some(line) ==> line@ == spec_line(
                spec_report(*old(self), frame_idx, now_ms),
                old(self).tty,
            ),
    {
        if !self.enabled {
            return None;
        }
        if frame_idx != 1 && now_ms - self.last_update_ms < UPDATE_INTERVAL_MS {
            return None;
        }
        let report = self.compute_report(frame_idx, now_ms);
        let line = render_line(&report, self.tty);
        self.last_update_ms = now_ms;
        Some(line)
    }

    /// Renders one final update, bypassing the rate limit; for the terminal
    /// presentation a trailing newline ends the in-place updates cleanly.
    pub fn finish(&mut self, frame_idx: u64, now_ms: u64) -> (r: Option<String>)
        requires
            old(self).wf(),
            now_ms >= old(self).last_update_ms,
        ensures
            final(self).wf(),
            r is Some <==> old(self).enabled,
            r is Some ==> *final(self) == (ProgressTracker {
                last_update_ms: now_ms,
                ..*old(self)
            }),
            r is None ==> *final(self) == *old(self),
            r matches Some(line) ==> line@ == spec_line(
                spec_report(*old(self), frame_idx, now_ms),
                old(self).tty,
            ) + if old(self).tty {
                seq!['\n']
            } else {
                Seq::<char>::empty()
            },
    {
        if !self.enabled {
            return None;
        }
        let report = self.compute_report(frame_idx, now_ms);
        let mut line = render_line(&report, self.tty);
        if self.tty {
            proof {
                reveal_strlit("\n");
            }
            line.append("\n");
        }
        self.last_update_ms = now_ms;
        assert(line@ =~= spec_line(spec_report(*old(self), frame_idx, now_ms), old(self).tty)
            + if old(self).tty {
            seq!['\n']
        } else {
            Seq::<char>::empty()
        });
        Some(line)
    }
}

/// Renders the text of one update, without the presentation prefix.
fn render_body(report: &ProgressReport) -> (s: String)
    ensures
        s@ == spec_body(*report),
{
    proof {
        reveal_strlit("frame ");
        reveal_strlit("/");
        reveal_strlit(" (");
        reveal_strlit("%) pos ");
        reveal_strlit(" pos ");
        reveal_strlit(" elapsed ");
        reveal_strlit(" speed ");
        reveal_strlit(" fps ETA ");
        reveal_strlit(" fps");
    }
    let mut s = String::from_str("frame ");
    let idx = fmt_dec(report.frame_idx);
    s.append(idx.as_str());
    match (report.total, report.pct_deci, report.eta_ms) {
        (Some(t), Some(p), Some(e)) => {
            s.append("/");
            let total = fmt_dec(t);
            s.append(total.as_str());
            s.append(" (");
            let pct = fmt_deci(p);
            s.append(pct.as_str());
            s.append("%) pos ");
            let pos = fmt_hms_millis(report.pos_ms);
            s.append(pos.as_str());
            s.append(" elapsed ");
            let elapsed = fmt_hms_millis(report.elapsed_ms);
            s.append(elapsed.as_str());
            s.append(" speed ");
            let speed = fmt_deci(report.speed_deci);
            s.append(speed.as_str());
            s.append(" fps ETA ");
            let eta = fmt_hms_millis(e);
            s.append(eta.as_str());
        },
        (Some(t), _, _) => {
            s.append("/");
            let total = fmt_dec(t);
            s.append(total.as_str());
            s.append(" pos ");
            let pos = fmt_hms_millis(report.pos_ms);
            s.append(pos.as_str());
            s.append(" elapsed ");
            let elapsed = fmt_hms_millis(report.elapsed_ms);
            s.append(elapsed.as_str());
            s.append(" speed ");
            let speed = fmt_deci(report.speed_deci);
            s.append(speed.as_str());
            s.append(" fps");
        },
        _ => {
            s.append(" pos ");
            let pos = fmt_hms_millis(report.pos_ms);
            s.append(pos.as_str());
            s.append(" elapsed ");
            let elapsed = fmt_hms_millis(report.elapsed_ms);
            s.append(elapsed.as_str());
            s.append(" speed ");
            let speed = fmt_deci(report.speed_deci);
            s.append(speed.as_str());
            s.append(" fps");
        },
    }
    s
}

/// Renders one report in the chosen presentation.
pub fn render_line(report: &ProgressReport, tty: bool) -> (s: String)
    ensures
        s@ == spec_line(*report, tty),
{
    let body = render_body(report);
    if tty {
        proof {
            reveal_strlit("\r");
        }
        let prefix = String::from_str("\r");
        let s = prefix.concat(body.as_str());
        assert(s@ =~= spec_line(*report, true));
        s
    } else {
        proof {
            reveal_strlit("Progress: ");
        }
        let prefix = String::from_str("Progress: ");
        let s = prefix.concat(body.as_str());
        s
    }
}

} // verus!
