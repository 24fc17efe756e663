//! The per-frame driver, as a verified state machine. Each iteration the
//! caller reports one event — a frame arrived, the stream ended cleanly, or
//! the user cancelled — and receives the exact ordered list of actions to
//! perform: advance the progress tracker, run inference at the configured
//! cadence, forward a frame (naming which one) to the encoder and display
//! sinks, and, at the end, tear the bridges down. The teardown order encodes
//! the failure policy: the encoder's input is always closed before the
//! encoder is waited on, and the encoder is finished even on cancellation,
//! while the decoder is waited on only after a clean end of stream and killed
//! otherwise.

use vstd::prelude::*;

verus! {

/// The cadence rule: with 1-based frame index `n` and interval `k`, inference
/// runs exactly on every `k`-th frame; `k == 0` disables it entirely.
pub open spec fn spec_should_infer(frame_idx: int, infer_every: u32) -> bool {
    infer_every > 0 && frame_idx % (infer_every as int) == 0
}

/// Decides whether inference runs on this frame.
pub fn should_infer(frame_idx: u64, infer_every: u32) -> (r: bool)
    ensures
        r == spec_should_infer(frame_idx as int, infer_every),
{
    infer_every > 0 && frame_idx % (infer_every as u64) == 0
}

/// Which frame an iteration forwards to the sinks.
#[derive(Clone, Copy, Debug, PartialEq, Eq, Structural)]
pub enum FrameSource {
    /// The raw frame just decoded, un-annotated.
    Raw,
    /// The retained result of the most recent inference.
    LastAnnotated,
    /// The annotation produced by this iteration's inference run.
    NewAnnotation,
}

/// One thing the caller reports to the driver.
#[derive(Clone, Copy, Debug, PartialEq, Eq, Structural)]
pub enum DriverEvent {
    /// The decoder bridge produced the next raw frame.
    FrameArrived,
    /// The decoder bridge reached a clean end of stream.
    EndOfStream,
    /// The user asked to quit, or the display window was closed.
    Quit,
}

/// One thing the driver tells the caller to do. Within a step, actions are
/// performed in the order given.
#[derive(Clone, Copy, Debug, PartialEq, Eq, Structural)]
pub enum DriverAction {
    /// Report this frame index to the progress tracker.
    UpdateProgress(u64),
    /// Run inference and annotation on the raw frame; retain the result as
    /// the new last annotation.
    RunInference,
    /// Write the named frame to the encoder bridge.
    WriteEncoder(FrameSource),
    /// Show the named frame on the display sink.
    Display(FrameSource),
    /// Read the next frame from the decoder bridge.
    ReadFrame,
    /// Close the encoder's input pipe, signalling end of stream.
    CloseEncoderInput,
    /// Wait for the encoder process and check its exit status.
    WaitEncoder,
    /// Render the final progress update for this frame index.
    FinishProgress(u64),
    /// Wait for the decoder process and check its exit status.
    WaitDecoder,
    /// Kill the decoder process without waiting for it.
    KillDecoder,
}

/// The driver's state between iterations.
#[derive(Clone, Copy, Debug, PartialEq, Eq, Structural)]
pub struct PipelineDriver {
    /// The cadence interval; zero disables inference.
    pub infer_every: u32,
    /// Whether an encoder bridge is attached.
    pub has_encoder: bool,
    /// Whether a display sink is attached.
    pub has_display: bool,
    /// 1-based index of the last frame that arrived.
    pub frame_idx: u64,
    /// Whether a last-annotated frame is retained.
    pub has_annotation: bool,
    /// Whether the stream has ended and teardown was issued.
    pub done: bool,
    /// Whether the driver stopped on cancellation rather than exhaustion.
    pub stopped_early: bool,
}

/// The frame the sinks receive this iteration: a fresh annotation when
/// inference ran, else the retained one, else the raw input.
pub open spec fn spec_frame_source(infer: bool, has_annotation: bool) -> FrameSource {
    if infer {
        FrameSource::NewAnnotation
    } else if has_annotation {
        FrameSource::LastAnnotated
    } else {
        FrameSource::Raw
    }
}

/// The actions of one streaming iteration.
pub open spec fn spec_frame_actions(s: PipelineDriver, infer: bool) -> Seq<DriverAction> {
    let src = spec_frame_source(infer, s.has_annotation);
    seq![DriverAction::UpdateProgress((s.frame_idx + 1) as u64)] + (if infer {
        seq![DriverAction::RunInference]
    } else {
        Seq::empty()
    }) + (if s.has_encoder {
        seq![DriverAction::WriteEncoder(src)]
    } else {
        Seq::empty()
    }) + (if s.has_display {
        seq![DriverAction::Display(src)]
    } else {
        Seq::empty()
    }) + seq![DriverAction::ReadFrame]
}

/// The teardown actions: finish an attached encoder (close its input, then
/// wait) whether or not the stop was a cancellation, render the final
/// progress update, then wait for the decoder after a clean end of stream but
/// kill it on cancellation.
pub open spec fn spec_teardown_actions(s: PipelineDriver, cancelled: bool) -> Seq<DriverAction> {
    (if s.has_encoder {
        seq![DriverAction::CloseEncoderInput, DriverAction::WaitEncoder]
    } else {
        Seq::empty()
    }) + seq![DriverAction::FinishProgress(s.frame_idx)] + (if cancelled {
        seq![DriverAction::KillDecoder]
    } else {
        seq![DriverAction::WaitDecoder]
    })
}

/// One driver step: the state after the event, and the ordered actions the
/// caller performs.
pub open spec fn spec_step(s: PipelineDriver, e: DriverEvent) -> (PipelineDriver, Seq<
    DriverAction,
>) {
    match e {
        DriverEvent::FrameArrived => {
            let infer = spec_should_infer(s.frame_idx + 1, s.infer_every);
            (
                PipelineDriver {
                    frame_idx: (s.frame_idx + 1) as u64,
                    has_annotation: s.has_annotation || infer,
                    ..s
                },
                spec_frame_actions(s, infer),
            )
        },
        DriverEvent::EndOfStream => (
            PipelineDriver { done: true, stopped_early: false, ..s },
            spec_teardown_actions(s, false),
        ),
        DriverEvent::Quit => (
            PipelineDriver { done: true, stopped_early: true, ..s },
            spec_teardown_actions(s, true),
        ),
    }
}

/// The whole driver loop: events are folded through `spec_step` until the
/// stream is torn down; whatever follows is ignored.
pub open spec fn spec_run(s: PipelineDriver, events: Seq<DriverEvent>) -> (PipelineDriver, Seq<
    DriverAction,
>)
    decreases events.len(),
{
    if events.len() == 0 || s.done {
        (s, Seq::empty())
    } else {
        let first = spec_step(s, events[0]);
        let rest = spec_run(first.0, events.skip(1));
        (rest.0, first.1 + rest.1)
    }
}

impl PipelineDriver {
    /// A driver about to read its first frame.
    pub fn new(infer_every: u32, has_encoder: bool, has_display: bool) -> (r: PipelineDriver)
        ensures
            r == (PipelineDriver {
                infer_every,
                has_encoder,
                has_display,
                frame_idx: 0,
                has_annotation: false,
                done: false,
                stopped_early: false,
            }),
    {
        PipelineDriver {
            infer_every,
            has_encoder,
            has_display,
            frame_idx: 0,
            has_annotation: false,
            done: false,
            stopped_early: false,
        }
    }

    /// Advances the driver by one event and returns the actions to perform,
    /// in order.
    pub fn step(&mut self, event: DriverEvent) -> (r: Vec<DriverAction>)
        requires
            !old(self).done,
            old(self).frame_idx < u64::MAX,
        ensures
            *final(self) == spec_step(*old(self), event).0,
            r@ == spec_step(*old(self), event).1,
    {
        match event {
            DriverEvent::FrameArrived => {
                let next_idx = self.frame_idx + 1;
                let infer = should_infer(next_idx, self.infer_every);
                let src = if infer {
                    FrameSource::NewAnnotation
                } else if self.has_annotation {
                    FrameSource::LastAnnotated
                } else {
                    FrameSource::Raw
                };
                let mut r: Vec<DriverAction> = Vec::new();
                r.push(DriverAction::UpdateProgress(next_idx));
                if infer {
                    r.push(DriverAction::RunInference);
                }
                if self.has_encoder {
                    r.push(DriverAction::WriteEncoder(src));
                }
                if self.has_display {
                    r.push(DriverAction::Display(src));
                }
                r.push(DriverAction::ReadFrame);
                self.frame_idx = next_idx;
                self.has_annotation = self.has_annotation || infer;
                assert(r@ =~= spec_step(*old(self), event).1);
                r
            },
            DriverEvent::EndOfStream => {
                let r = self.teardown_actions(false);
                self.done = true;
                self.stopped_early = false;
                assert(r@ =~= spec_step(*old(self), event).1);
                r
            },
            DriverEvent::Quit => {
                let r = self.teardown_actions(true);
                self.done = true;
                self.stopped_early = true;
                assert(r@ =~= spec_step(*old(self), event).1);
                r
            },
        }
    }

    /// The teardown sequence for a clean or cancelled stop.
    fn teardown_actions(&self, cancelled: bool) -> (r: Vec<DriverAction>)
        ensures
            r@ == spec_teardown_actions(*self, cancelled),
    {
        let mut r: Vec<DriverAction> = Vec::new();
        if self.has_encoder {
            r.push(DriverAction::CloseEncoderInput);
            r.push(DriverAction::WaitEncoder);
        }
        r.push(DriverAction::FinishProgress(self.frame_idx));
        if cancelled {
            r.push(DriverAction::KillDecoder);
        } else {
            r.push(DriverAction::WaitDecoder);
        }
        assert(r@ =~= spec_teardown_actions(*self, cancelled));
        r
    }
}

/// Runs the driver over a whole event trace: the per-frame loop as one fold.
pub fn run(infer_every: u32, has_encoder: bool, has_display: bool, events: &Vec<DriverEvent>) -> (r:
    (PipelineDriver, Vec<DriverAction>))
    ensures
        (r.0, r.1@) == spec_run(
            PipelineDriver {
                infer_every,
                has_encoder,
                has_display,
                frame_idx: 0,
                has_annotation: false,
                done: false,
                stopped_early: false,
            },
            events@,
        ),
{
    let s0 = PipelineDriver::new(infer_every, has_encoder, has_display);
    let mut s = s0;
    let mut actions: Vec<DriverAction> = Vec::new();
    let mut i: usize = 0;
    proof {
        assert(events@.skip(0) =~= events@);
        assert(Seq::<DriverAction>::empty() + spec_run(s0, events@).1 =~= spec_run(s0, events@).1);
    }
    while i < events.len() && !s.done
        invariant
            0 <= i <= events@.len(),
            s.frame_idx <= i,
            spec_run(s0, events@) == {
                let rest = spec_run(s, events@.skip(i as int));
                (rest.0, actions@ + rest.1)
            },
        decreases events@.len() - i,
    {
        let ev = events[i];
        let ghost pre = s;
        let ghost pre_actions = actions@;
        let mut step_actions = s.step(ev);
        actions.append(&mut step_actions);
        proof {
            assert(events@.skip(i as int)[0] == ev);
            assert(events@.skip(i as int).skip(1) =~= events@.skip(i + 1));
            assert(actions@ =~= pre_actions + spec_step(pre, ev).1);
            let rest = spec_run(s, events@.skip(i + 1));
            assert(pre_actions + (spec_step(pre, ev).1 + rest.1) =~= actions@ + rest.1);
        }
        i = i + 1;
    }
    proof {
        if i == events@.len() {
            assert(events@.skip(i as int) =~= Seq::<DriverEvent>::empty());
        }
        assert(spec_run(s, events@.skip(i as int)).1 =~= Seq::<DriverAction>::empty());
        assert(actions@ + Seq::<DriverAction>::empty() =~= actions@);
    }
    (s, actions)
}

/// Whether `m` is a multiple of `k`.
pub open spec fn spec_is_multiple(m: int, k: u32) -> bool {
    m % (k as int) == 0
}

/// Whether the interval `(a, b]` holds a multiple of `k`.
pub open spec fn spec_has_multiple(a: int, b: int, k: u32) -> bool {
    exists|m: int| a < m <= b && #[trigger] spec_is_multiple(m, k)
}

/// No action of a streaming iteration touches the encoder's lifecycle, and
/// its first action is the progress update.
proof fn lemma_frame_chunk(s: PipelineDriver, infer: bool)
    ensures
        spec_frame_actions(s, infer).len() > 0,
        spec_frame_actions(s, infer)[0] == DriverAction::UpdateProgress((s.frame_idx + 1) as u64),
        forall|j: int|
            0 <= j < spec_frame_actions(s, infer).len() ==> #[trigger] spec_frame_actions(
                s,
                infer,
            )[j] != DriverAction::WaitEncoder && spec_frame_actions(s, infer)[j]
                != DriverAction::CloseEncoderInput,
{
}

/// The teardown's shape: a `WaitEncoder` occurs exactly when an encoder is
/// attached, and then only immediately after `CloseEncoderInput`.
proof fn lemma_teardown_chunk(s: PipelineDriver, cancelled: bool)
    ensures
        spec_teardown_actions(s, cancelled).len() > 0,
        spec_teardown_actions(s, cancelled)[0] != DriverAction::WaitEncoder,
        forall|j: int|
            0 <= j < spec_teardown_actions(s, cancelled).len() ==> (#[trigger]
            spec_teardown_actions(s, cancelled)[j] == DriverAction::WaitEncoder ==> (j > 0
                && spec_teardown_actions(s, cancelled)[j - 1] == DriverAction::CloseEncoderInput)),
        s.has_encoder ==> spec_teardown_actions(s, cancelled)[0]
            == DriverAction::CloseEncoderInput && spec_teardown_actions(s, cancelled)[1]
            == DriverAction::WaitEncoder,
{
}

/// Cadence, per frame: inference runs on frame `n` exactly when `k > 0`
/// divides `n`; the sinks receive the fresh annotation then, the retained one
/// if any otherwise, and the raw frame only while nothing was ever annotated;
/// an annotation, once made, is retained until superseded.
pub proof fn lemma_step_cadence(s: PipelineDriver)
    ensures
        spec_should_infer(s.frame_idx + 1, s.infer_every) ==> spec_step(
            s,
            DriverEvent::FrameArrived,
        ).1[1] == DriverAction::RunInference,
        !spec_should_infer(s.frame_idx + 1, s.infer_every) ==> forall|j: int|
            0 <= j < spec_step(s, DriverEvent::FrameArrived).1.len() ==> #[trigger] spec_step(
                s,
                DriverEvent::FrameArrived,
            ).1[j] != DriverAction::RunInference,
        forall|j: int|
            0 <= j < spec_step(s, DriverEvent::FrameArrived).1.len() ==> match #[trigger] spec_step(
                s,
                DriverEvent::FrameArrived,
            ).1[j] {
                DriverAction::Display(src) => src == spec_frame_source(
                    spec_should_infer(s.frame_idx + 1, s.infer_every),
                    s.has_annotation,
                ),
                DriverAction::WriteEncoder(src) => src == spec_frame_source(
                    spec_should_infer(s.frame_idx + 1, s.infer_every),
                    s.has_annotation,
                ),
                _ => true,
            },
        spec_step(s, DriverEvent::FrameArrived).0.has_annotation == (s.has_annotation
            || spec_should_infer(s.frame_idx + 1, s.infer_every)),
{
}

/// Cadence, over a whole uninterrupted stream: after `events` frames, an
/// annotation is retained exactly when one was already retained or the
/// frames passed a multiple of the (enabled) interval.
pub proof fn lemma_annotation_retention(s: PipelineDriver, events: Seq<DriverEvent>)
    requires
        !s.done,
        forall|j: int| 0 <= j < events.len() ==> events[j] == DriverEvent::FrameArrived,
        s.frame_idx + events.len() <= u64::MAX,
    ensures
        spec_run(s, events).0.frame_idx == s.frame_idx + events.len(),
        spec_run(s, events).0.has_annotation <==> (s.has_annotation || (s.infer_every > 0
            && spec_has_multiple(s.frame_idx as int, s.frame_idx + events.len(), s.infer_every))),
    decreases events.len(),
{
    let k = s.infer_every;
    let a = s.frame_idx as int;
    let b = a + events.len();
    if events.len() == 0 {
        assert(!spec_has_multiple(a, a, k));
    } else {
        assert(events[0] == DriverEvent::FrameArrived);
        let s1 = spec_step(s, events[0]).0;
        assert(forall|j: int|
            0 <= j < events.skip(1).len() ==> #[trigger] events.skip(1)[j]
                == DriverEvent::FrameArrived);
        lemma_annotation_retention(s1, events.skip(1));
        if k > 0 {
            assert(spec_has_multiple(a, b, k) <==> ((a + 1) % (k as int) == 0 || spec_has_multiple(
                a + 1,
                b,
                k,
            ))) by {
                if spec_has_multiple(a, b, k) {
                    let m = choose|m: int| a < m <= b && #[trigger] spec_is_multiple(m, k);
                    if m != a + 1 {
                        assert(a + 1 < m <= b && spec_is_multiple(m, k));
                    }
                }
                if (a + 1) % (k as int) == 0 {
                    assert(a < a + 1 <= b && spec_is_multiple(a + 1, k));
                }
            }
        }
    }
}

/// With `k > 0` and a fresh driver, the first annotation exists exactly from
/// frame `k` on: the first `k - 1` frames of a stream are shown raw.
pub proof fn lemma_first_annotation(k: u32, j: int)
    requires
        k > 0,
        0 <= j,
    ensures
        spec_has_multiple(0, j, k) <==> j >= k,
{
    if j >= k {
        assert(0 < k <= j && spec_is_multiple(k as int, k));
    }
    if spec_has_multiple(0, j, k) {
        let m = choose|m: int| 0 < m <= j && #[trigger] spec_is_multiple(m, k);
        assert(m >= k) by (nonlinear_arith)
            requires
                m % (k as int) == 0,
                0 < m,
                k > 0,
        ;
    }
}

/// Inference disabled: with `k == 0` and nothing annotated, no event trace
/// ever runs inference, every forwarded frame is the raw input, and nothing
/// becomes annotated.
pub proof fn lemma_inference_disabled(s: PipelineDriver, events: Seq<DriverEvent>)
    requires
        s.infer_every == 0,
        !s.has_annotation,
    ensures
        !spec_run(s, events).0.has_annotation,
        forall|j: int|
            0 <= j < spec_run(s, events).1.len() ==> #[trigger] spec_run(s, events).1[j]
                != DriverAction::RunInference,
        forall|j: int|
            0 <= j < spec_run(s, events).1.len() ==> match #[trigger] spec_run(s, events).1[j] {
                DriverAction::Display(src) => src == FrameSource::Raw,
                DriverAction::WriteEncoder(src) => src == FrameSource::Raw,
                _ => true,
            },
    decreases events.len(),
{
    if events.len() == 0 || s.done {
    } else {
        let first = spec_step(s, events[0]);
        lemma_inference_disabled(first.0, events.skip(1));
        match events[0] {
            DriverEvent::FrameArrived => {
                lemma_frame_chunk(s, false);
            },
            DriverEvent::EndOfStream => {
                lemma_teardown_chunk(s, false);
            },
            DriverEvent::Quit => {
                lemma_teardown_chunk(s, true);
            },
        }
    }
}

/// The encoder teardown policy, over any event trace: the encoder's input
/// pipe is closed immediately before — and only before — the encoder is
/// waited on, and a stop of either kind (exhaustion or cancellation) with an
/// encoder attached always closes and waits on it.
pub proof fn lemma_encoder_close_before_wait(s: PipelineDriver, events: Seq<DriverEvent>)
    ensures
        forall|j: int|
            0 <= j < spec_run(s, events).1.len() ==> (#[trigger] spec_run(s, events).1[j]
                == DriverAction::WaitEncoder ==> (j > 0 && spec_run(s, events).1[j - 1]
                == DriverAction::CloseEncoderInput)),
        !s.done && spec_run(s, events).0.done && s.has_encoder ==> exists|j: int|
            0 <= j < spec_run(s, events).1.len() && #[trigger] spec_run(s, events).1[j]
                == DriverAction::WaitEncoder,
    decreases events.len(),
{
    if events.len() == 0 || s.done {
    } else {
        let first = spec_step(s, events[0]);
        let rest = spec_run(first.0, events.skip(1));
        lemma_encoder_close_before_wait(first.0, events.skip(1));
        match events[0] {
            DriverEvent::FrameArrived => {
                lemma_frame_chunk(s, spec_should_infer(s.frame_idx + 1, s.infer_every));
            },
            DriverEvent::EndOfStream => {
                lemma_teardown_chunk(s, false);
            },
            DriverEvent::Quit => {
                lemma_teardown_chunk(s, true);
            },
        }
        assert(rest.1.len() == 0 || rest.1[0] != DriverAction::WaitEncoder) by {
            if rest.1.len() > 0 && rest.1[0] == DriverAction::WaitEncoder {
                assert(!(0 > 0));
            }
        }
        if !s.done && spec_run(s, events).0.done && s.has_encoder {
            match events[0] {
                DriverEvent::FrameArrived => {
                    assert(!first.0.done);
                    let w = choose|j: int|
                        0 <= j < rest.1.len() && rest.1[j] == DriverAction::WaitEncoder;
                    assert(spec_run(s, events).1[first.1.len() + w]
                        == DriverAction::WaitEncoder);
                },
                DriverEvent::EndOfStream => {
                    assert(spec_run(s, events).1[1] == DriverAction::WaitEncoder);
                },
                DriverEvent::Quit => {
                    assert(spec_run(s, events).1[1] == DriverAction::WaitEncoder);
                },
            }
        }
    }
}

} // verus!
