//! The frame-processing pipeline: the serial delivery queue, the shared
//! termination policy, and the session lifecycle.
//!
//! The delivery queue is a single worker: it hands frames to the active
//! backend one at a time and in arrival order, so no two frames are ever
//! processed concurrently. A run is therefore modeled as a fold over the
//! arriving frames, and each run also yields its queue trace: begin and end
//! events for every frame the worker took, with logical time given by the
//! position in the trace. The trace is what an instrumented backend would
//! record, and [`lemma_queue_serial`] proves it free of overlap and in
//! arrival order.
//!
//! The termination policy is shared by all three backends: a decoded payload
//! ends the scan with that payload; a fault ends it with a diagnostic; any
//! other frame only bumps the frame counter. The policy reports the terminal
//! outcome up to the session controller, which performs the actual halt, so
//! the pipeline itself stays testable in isolation.

use vstd::math::min;
use vstd::pervasive::unreached;
use vstd::prelude::*;

use crate::backend::Backend;
use crate::backend::FatalError;
use crate::backend::encodes_exactly;
use crate::backend::lemma_backend_transparent;
use crate::counter::FrameCounter;
use crate::frame::DetectionResult;
use crate::frame::Frame;
use crate::frame::code_free;

verus! {

/// The session lifecycle, set by the session controller and one-directional:
/// the backend is inert outside `Running`.
#[derive(Clone, Copy, PartialEq, Eq, Structural, Debug)]
pub enum SessionState {
    Idle,
    Running,
    Stopped,
}

/// What the termination policy decides for one delivered frame.
#[derive(Debug)]
pub enum Step {
    /// No detection this frame: it was counted; the queue awaits the next.
    Continue,
    /// A payload was decoded: the session controller emits it as the sole
    /// payload line and ends the process with success.
    Found { payload: String },
    /// A fatal fault: the session controller reports the diagnostic and ends
    /// the process with a nonzero status.
    Fatal { error: FatalError },
}

/// How a whole run over a frame sequence ended.
#[derive(Debug)]
pub enum RunOutcome {
    /// The scan decoded a payload from some frame.
    Found { payload: String },
    /// A fatal fault ended the pipeline.
    Fatal { error: FatalError },
    /// The delivered frames ran out (the bounded duration elapsed, or the
    /// source stopped) with no detection: a clean end, no payload line.
    Exhausted,
}

/// One entry of the queue trace. Logical time is the entry's position in the
/// trace: the worker begins a frame, finishes it, and only then begins the
/// next.
#[derive(Clone, Copy, PartialEq, Eq, Structural, Debug)]
pub enum QueueEvent {
    /// The worker began processing the frame with this arrival index.
    Enter { index: usize },
    /// The worker finished with the frame with this arrival index.
    Exit { index: usize },
}

/// The arrival index a trace entry names.
pub open spec fn event_index(e: QueueEvent) -> int {
    match e {
        QueueEvent::Enter { index } => index as int,
        QueueEvent::Exit { index } => index as int,
    }
}

/// The shared termination policy. On a detection the payload is reported
/// upward and nothing else changes; otherwise the frame counter is bumped and
/// the scan goes on.
pub fn decide(result: DetectionResult, counter: &mut FrameCounter) -> (s: Step)
    requires
        result.wf(),
        old(counter).count() < u64::MAX,
    ensures
        result.found ==> (s matches Step::Found { payload } && Some(payload@) == result.model()
            && final(counter).count() == old(counter).count()),
        !result.found ==> (s is Continue && final(counter).count() == old(counter).count() + 1),
{
    if result.found {
        match result.payload {
            Some(p) => Step::Found { payload: p },
            None => unreached(),
        }
    } else {
        counter.increment();
        Step::Continue
    }
}

/// The pipeline: the one active backend, the diagnostic frame counter, and
/// the session lifecycle around them. The counter cannot be reset from
/// outside: processing frames is the only way it moves.
pub struct Pipeline {
    backend: Backend,
    counter: FrameCounter,
    state: SessionState,
}

/// The position of the first frame whose processing does not simply continue
/// the scan — the first detection or fault — or `frames.len()` when every
/// frame passes without either.
pub open spec fn spec_stop_index(b: Backend, frames: Seq<Frame>) -> int
    decreases frames.len(),
{
    if frames.len() == 0 {
        0
    } else if b.spec_process(frames[0]) != Ok::<Option<Seq<char>>, FatalError>(None) {
        0
    } else {
        1 + spec_stop_index(b, frames.drop_first())
    }
}

/// How many frames a run over `frames` takes off the queue: everything up to
/// and including the stopping frame, if there is one.
pub open spec fn spec_processed(b: Backend, frames: Seq<Frame>) -> int {
    if spec_stop_index(b, frames) < frames.len() {
        spec_stop_index(b, frames) + 1
    } else {
        frames.len() as int
    }
}

/// The queue trace of a worker that took `m` frames: frame `j` is begun at
/// logical time `2 * j` and finished at `2 * j + 1`.
pub open spec fn spec_events(m: int) -> Seq<QueueEvent> {
    Seq::new(
        (2 * m) as nat,
        |p: int|
            if p % 2 == 0 {
                QueueEvent::Enter { index: (p / 2) as usize }
            } else {
                QueueEvent::Exit { index: (p / 2) as usize }
            },
    )
}

/// The queue trace a run over `frames` produces.
pub open spec fn spec_trace(b: Backend, frames: Seq<Frame>) -> Seq<QueueEvent> {
    spec_events(spec_processed(b, frames))
}

/// What `spec_stop_index` points at: everything before it passes with no
/// detection, and the frame at it (when within bounds) does not.
pub proof fn lemma_stop_index(b: Backend, frames: Seq<Frame>)
    ensures
        0 <= spec_stop_index(b, frames) <= frames.len(),
        forall|j: int|
            0 <= j < spec_stop_index(b, frames) ==> b.spec_process(#[trigger] frames[j]) == Ok::<
                Option<Seq<char>>,
                FatalError,
            >(None),
        spec_stop_index(b, frames) < frames.len() ==> b.spec_process(
            frames[spec_stop_index(b, frames)],
        ) != Ok::<Option<Seq<char>>, FatalError>(None),
    decreases frames.len(),
{
    if frames.len() == 0 {
    } else if b.spec_process(frames[0]) != Ok::<Option<Seq<char>>, FatalError>(None) {
    } else {
        lemma_stop_index(b, frames.drop_first());
        let k = spec_stop_index(b, frames);
        assert forall|j: int| 0 <= j < k implies b.spec_process(#[trigger] frames[j]) == Ok::<
            Option<Seq<char>>,
            FatalError,
        >(None) by {
            if j > 0 {
                assert(frames.drop_first()[j - 1] == frames[j]);
            }
        }
        if k < frames.len() {
            assert(frames.drop_first()[k - 1] == frames[k]);
        }
    }
}

impl Pipeline {
    /// The active backend, fixed at construction.
    pub closed spec fn backend(self) -> Backend {
        self.backend
    }

    /// The diagnostic frame counter's value.
    pub closed spec fn count(self) -> u64 {
        self.counter.count()
    }

    /// Where the session stands in its lifecycle.
    pub closed spec fn state(self) -> SessionState {
        self.state
    }

    /// A fresh pipeline around the chosen backend: idle, nothing counted.
    pub fn new(backend: Backend) -> (p: Pipeline)
        ensures
            p.backend() == backend,
            p.count() == 0,
            p.state() is Idle,
    {
        Pipeline { backend, counter: FrameCounter::new(), state: SessionState::Idle }
    }

    /// The session controller starts the frame source: the session runs.
    pub fn start(&mut self)
        requires
            old(self).state() is Idle,
        ensures
            final(self).state() is Running,
            final(self).backend() == old(self).backend(),
            final(self).count() == old(self).count(),
    {
        self.state = SessionState::Running;
    }

    /// The session controller stops the frame source: the session is over,
    /// for good.
    pub fn stop(&mut self)
        requires
            old(self).state() is Running,
        ensures
            final(self).state() is Stopped,
            final(self).backend() == old(self).backend(),
            final(self).count() == old(self).count(),
    {
        self.state = SessionState::Stopped;
    }

    /// Read the frame counter for a diagnostic line.
    pub fn frames_counted(&self) -> (n: u64)
        ensures
            n == self.count(),
    {
        self.counter.get()
    }

    /// The delivery queue's worker body: run the backend on one delivered
    /// frame, in isolation, and apply the termination policy to what it
    /// produced.
    pub fn deliver(&mut self, frame: &Frame) -> (s: Step)
        requires
            old(self).state() is Running,
            old(self).backend().accepts(*frame),
            old(self).count() < u64::MAX,
        ensures
            final(self).backend() == old(self).backend(),
            final(self).state() == old(self).state(),
            match old(self).backend().spec_process(*frame) {
                Ok(m) => match m {
                    Some(p) => final(self).count() == old(self).count() && (s matches Step::Found {
                        payload,
                    } && payload@ == p),
                    None => final(self).count() == old(self).count() + 1 && s is Continue,
                },
                Err(e) => final(self).count() == old(self).count() && s == (Step::Fatal {
                    error: e,
                }),
            },
    {
        match self.backend.process(frame) {
            Ok(d) => decide(d, &mut self.counter),
            Err(e) => Step::Fatal { error: e },
        }
    }

    /// Drive a bounded scan: deliver, in arrival order, at most `budget` of
    /// the frames the source emits, stopping early on the first detection or
    /// fault. Returns the run's outcome together with its queue trace. A
    /// budget the source never fills simply consumes every frame; a run whose
    /// budget elapses with no detection ends cleanly with no payload.
    pub fn run_bounded(&mut self, frames: &Vec<Frame>, budget: usize) -> (out: (
        RunOutcome,
        Vec<QueueEvent>,
    ))
        requires
            old(self).state() is Running,
            forall|j: int|
                0 <= j < frames@.len() ==> old(self).backend().accepts(#[trigger] frames@[j]),
            old(self).count() + frames@.len() <= u64::MAX,
        ensures
            final(self).backend() == old(self).backend(),
            final(self).state() == old(self).state(),
            ({
                let fs = frames@.take(min(budget as int, frames@.len() as int));
                let b = old(self).backend();
                let k = spec_stop_index(b, fs);
                &&& final(self).count() == old(self).count() + k
                &&& out.1@ == spec_trace(b, fs)
                &&& (k == fs.len() ==> out.0 is Exhausted)
                &&& (k < fs.len() ==> match b.spec_process(fs[k]) {
                    Ok(m) => m matches Some(p) && (out.0 matches RunOutcome::Found { payload }
                        && payload@ == p),
                    Err(e) => out.0 == (RunOutcome::Fatal { error: e }),
                })
            }),
    {
        let n: usize = if budget < frames.len() {
            budget
        } else {
            frames.len()
        };
        let ghost b = self.backend();
        let ghost fs = frames@.take(n as int);
        let mut trace: Vec<QueueEvent> = Vec::new();
        let mut i: usize = 0;
        proof {
            assert(trace@ =~= spec_events(0));
        }
        while i < n
            invariant
                n == min(budget as int, frames@.len() as int),
                b == old(self).backend(),
                fs == frames@.take(n as int),
                0 <= i <= n <= frames@.len(),
                self.backend() == old(self).backend(),
                self.state() == old(self).state(),
                old(self).state() is Running,
                forall|j: int|
                    0 <= j < frames@.len() ==> old(self).backend().accepts(#[trigger] frames@[j]),
                old(self).count() + frames@.len() <= u64::MAX,
                self.count() == old(self).count() + i,
                forall|j: int|
                    0 <= j < i ==> b.spec_process(#[trigger] fs[j]) == Ok::<
                        Option<Seq<char>>,
                        FatalError,
                    >(None),
                trace@ == spec_events(i as int),
            decreases n - i,
        {
            proof {
                assert(fs[i as int] == frames@[i as int]);
            }
            trace.push(QueueEvent::Enter { index: i });
            let step = self.deliver(&frames[i]);
            trace.push(QueueEvent::Exit { index: i });
            proof {
                assert(trace@ =~= spec_events(i + 1));
            }
            match step {
                Step::Continue => {
                    i = i + 1;
                },
                Step::Found { payload } => {
                    proof {
                        lemma_stop_index(b, fs);
                        let k = spec_stop_index(b, fs);
                        if k < i {
                            assert(b.spec_process(fs[k]) == Ok::<Option<Seq<char>>, FatalError>(
                                None,
                            ));
                            assert(false);
                        }
                        if k > i {
                            assert(b.spec_process(fs[i as int]) == Ok::<
                                Option<Seq<char>>,
                                FatalError,
                            >(None));
                            assert(false);
                        }
                        assert(spec_processed(b, fs) == i + 1);
                    }
                    return (RunOutcome::Found { payload }, trace);
                },
                Step::Fatal { error } => {
                    proof {
                        lemma_stop_index(b, fs);
                        let k = spec_stop_index(b, fs);
                        if k < i {
                            assert(b.spec_process(fs[k]) == Ok::<Option<Seq<char>>, FatalError>(
                                None,
                            ));
                            assert(false);
                        }
                        if k > i {
                            assert(b.spec_process(fs[i as int]) == Ok::<
                                Option<Seq<char>>,
                                FatalError,
                            >(None));
                            assert(false);
                        }
                        assert(spec_processed(b, fs) == i + 1);
                    }
                    return (RunOutcome::Fatal { error }, trace);
                },
            }
        }
        proof {
            lemma_stop_index(b, fs);
            let k = spec_stop_index(b, fs);
            assert(fs.len() == n);
            if k < n {
                assert(b.spec_process(fs[k]) == Ok::<Option<Seq<char>>, FatalError>(None));
                assert(false);
            }
            assert(spec_processed(b, fs) == n);
        }
        (RunOutcome::Exhausted, trace)
    }

    /// Drive a scan over every frame the source emits before it is stopped,
    /// in arrival order, stopping early on the first detection or fault.
    /// Returns the run's outcome together with its queue trace.
    pub fn run(&mut self, frames: &Vec<Frame>) -> (out: (RunOutcome, Vec<QueueEvent>))
        requires
            old(self).state() is Running,
            forall|j: int|
                0 <= j < frames@.len() ==> old(self).backend().accepts(#[trigger] frames@[j]),
            old(self).count() + frames@.len() <= u64::MAX,
        ensures
            final(self).backend() == old(self).backend(),
            final(self).state() == old(self).state(),
            ({
                let b = old(self).backend();
                let k = spec_stop_index(b, frames@);
                &&& final(self).count() == old(self).count() + k
                &&& out.1@ == spec_trace(b, frames@)
                &&& (k == frames@.len() ==> out.0 is Exhausted)
                &&& (k < frames@.len() ==> match b.spec_process(frames@[k]) {
                    Ok(m) => m matches Some(p) && (out.0 matches RunOutcome::Found { payload }
                        && payload@ == p),
                    Err(e) => out.0 == (RunOutcome::Fatal { error: e }),
                })
            }),
    {
        let n = frames.len();
        proof {
            assert(frames@.take(min(n as int, frames@.len() as int)) =~= frames@);
        }
        self.run_bounded(frames, n)
    }
}

/// No two processings overlap in a trace: between the starts of any two
/// frames stands the end of the one begun earlier.
pub open spec fn serial_trace(t: Seq<QueueEvent>) -> bool {
    forall|p: int, q: int|
        #![trigger t[p], t[q]]
        0 <= p < q < t.len() && t[p] is Enter && t[q] is Enter ==> exists|r: int|
            #![trigger t[r]]
            p < r < q && t[r] == (QueueEvent::Exit { index: t[p]->Enter_index })
}

/// Frames begin processing in arrival order: a frame submitted later never
/// starts earlier.
pub open spec fn enters_in_order(t: Seq<QueueEvent>) -> bool {
    forall|p: int, q: int|
        #![trigger t[p], t[q]]
        0 <= p < q < t.len() && t[p] is Enter && t[q] is Enter ==> t[p]->Enter_index
            < t[q]->Enter_index
}

/// The delivery queue's guarantee, read off the trace: however fast frames
/// are submitted, the processing of frame `k + 1` never begins before the
/// processing of frame `k` has completed, and no two processings overlap.
pub proof fn lemma_queue_serial(b: Backend, frames: Seq<Frame>)
    requires
        frames.len() <= usize::MAX,
    ensures
        serial_trace(spec_trace(b, frames)),
        enters_in_order(spec_trace(b, frames)),
{
    let t = spec_trace(b, frames);
    lemma_stop_index(b, frames);
    assert forall|p: int, q: int|
        0 <= p < q < t.len() && #[trigger] t[p] is Enter && #[trigger] t[q] is Enter implies (
    exists|r: int|
        #![trigger t[r]]
        p < r < q && t[r] == (QueueEvent::Exit { index: t[p]->Enter_index })) by {
        assert(p % 2 == 0);
        assert(q % 2 == 0);
        assert(q - p >= 2);
        assert(t[p + 1] == (QueueEvent::Exit { index: (p / 2) as usize }));
        assert(t[p]->Enter_index == (p / 2) as usize);
        assert(p < p + 1 < q);
    }
    assert forall|p: int, q: int|
        0 <= p < q < t.len() && #[trigger] t[p] is Enter && #[trigger] t[q] is Enter implies t[p]->Enter_index
        < t[q]->Enter_index by {
        assert(p % 2 == 0);
        assert(q % 2 == 0);
        assert(p / 2 < q / 2);
        assert(0 <= p / 2 && q / 2 < spec_processed(b, frames) <= usize::MAX);
    }
}

/// With no code in any delivered frame, a scan counts every frame and never
/// produces a payload: no frame stops the run, so a run over `N` frames ends
/// `Exhausted` with the counter advanced by exactly `N`.
pub proof fn lemma_code_free_scan(b: Backend, frames: Seq<Frame>)
    requires
        forall|j: int|
            0 <= j < frames.len() ==> b.accepts(#[trigger] frames[j]) && code_free(frames[j]),
    ensures
        spec_stop_index(b, frames) == frames.len(),
        spec_processed(b, frames) == frames.len(),
{
    lemma_stop_index(b, frames);
    if spec_stop_index(b, frames) < frames.len() {
        assert(b.spec_process(frames[spec_stop_index(b, frames)]) == Ok::<
            Option<Seq<char>>,
            FatalError,
        >(None));
        assert(false);
    }
}

/// First match wins: when every frame before `k` is code-free and frame `k`
/// unambiguously encodes the payload `p`, a run stops exactly at `k`: it
/// yields `p`, counts the `k` frames before it, and processes no frame after
/// `k` — the trace never names a later frame.
pub proof fn lemma_first_code_wins(b: Backend, frames: Seq<Frame>, k: int, p: Seq<char>)
    requires
        frames.len() <= usize::MAX,
        0 <= k < frames.len(),
        forall|j: int| 0 <= j < k ==> b.accepts(#[trigger] frames[j]) && code_free(frames[j]),
        encodes_exactly(frames[k], b, p),
    ensures
        b.spec_process(frames[k]) == Ok::<Option<Seq<char>>, FatalError>(Some(p)),
        spec_stop_index(b, frames) == k,
        spec_processed(b, frames) == k + 1,
        forall|r: int|
            0 <= r < spec_trace(b, frames).len() ==> event_index(
                #[trigger] spec_trace(b, frames)[r],
            ) <= k,
{
    lemma_backend_transparent(b, frames[k], p);
    lemma_stop_index(b, frames);
    let s = spec_stop_index(b, frames);
    if s < k {
        assert(b.spec_process(frames[s]) == Ok::<Option<Seq<char>>, FatalError>(None));
        assert(false);
    }
    if s > k {
        assert(b.spec_process(frames[k]) == Ok::<Option<Seq<char>>, FatalError>(None));
        assert(false);
    }
    assert forall|r: int| 0 <= r < spec_trace(b, frames).len() implies event_index(
        #[trigger] spec_trace(b, frames)[r],
    ) <= k by {
        assert(r < 2 * (k + 1));
        assert(r / 2 <= k);
    }
}

/// Bounded-duration mode ends clean: if nothing decodable is delivered within
/// the budget, the bounded run stops after exactly the budgeted frames, with
/// no payload and no fault.
pub proof fn lemma_bounded_run_clean(b: Backend, frames: Seq<Frame>, budget: int)
    requires
        0 <= budget,
        forall|j: int|
            0 <= j < frames.len() ==> b.accepts(#[trigger] frames[j]) && code_free(frames[j]),
    ensures
        spec_stop_index(b, frames.take(min(budget, frames.len() as int))) == min(
            budget,
            frames.len() as int,
        ),
{
    let n = min(budget, frames.len() as int);
    let fs = frames.take(n);
    assert forall|j: int| 0 <= j < fs.len() implies b.accepts(#[trigger] fs[j]) && code_free(
        fs[j],
    ) by {
        assert(fs[j] == frames[j]);
    }
    lemma_code_free_scan(b, fs);
}

} // verus!
