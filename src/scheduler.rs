use vstd::prelude::*;

verus! {

/// Nanoseconds in one second.
pub const NANOS_PER_SEC: u64 = 1_000_000_000;

/// Shortest interval between two frame requests: one sixtieth of a second,
/// rounded up to whole nanoseconds.
pub const TARGET_FRAME_NANOS: u64 = 16_666_667;

/// Number of rendered frames over which throughput is averaged and reported.
pub const FPS_REPORT_FRAMES: u64 = 100;

/// Time from `since` to `now` on a monotonic clock; a reading that lies
/// before `since` counts as no time at all.
pub open spec fn elapsed(since: u64, now: u64) -> nat {
    if now >= since {
        (now - since) as nat
    } else {
        0
    }
}

/// `a + b`, held at `u64::MAX` where it would not fit.
pub open spec fn saturating_sum(a: u64, b: nat) -> u64 {
    if a + b <= u64::MAX {
        (a + b) as u64
    } else {
        u64::MAX
    }
}

/// When the next frame is due after a request at `since`.
pub open spec fn next_due(since: u64) -> u64 {
    saturating_sum(since, TARGET_FRAME_NANOS as nat)
}

fn elapsed_nanos(since: u64, now: u64) -> (r: u64)
    ensures
        r == elapsed(since, now),
{
    if now >= since {
        now - since
    } else {
        0
    }
}

fn add_saturating(a: u64, b: u64) -> (r: u64)
    ensures
        r == saturating_sum(a, b as nat),
{
    if a <= u64::MAX - b {
        a + b
    } else {
        u64::MAX
    }
}

/// What the loop driver does on an idle tick.
#[derive(Clone, Copy, Debug, PartialEq, Eq, Structural)]
pub enum Tick {
    /// Ask the window for a new frame now.
    RequestRedraw,
    /// Sleep until the given instant, then tick again.
    WaitUntil(u64),
}

/// Paces frame requests to at most one per target interval.
#[derive(Clone, Copy, Debug, PartialEq, Eq, Structural)]
pub struct FrameScheduler {
    /// When the timer was last reset, in nanoseconds of a monotonic clock.
    pub last_request: u64,
}

/// The scheduler's timer after a tick at `now`, and whether that tick
/// requested a frame.
pub open spec fn tick_step(last_request: u64, now: u64) -> (u64, bool) {
    if elapsed(last_request, now) >= TARGET_FRAME_NANOS {
        (now, true)
    } else {
        (last_request, false)
    }
}

/// The instants, among the ticks `times`, at which a frame was requested,
/// starting from a timer reset at `last_request`.
pub open spec fn requested_at(last_request: u64, times: Seq<u64>) -> Seq<u64>
    decreases times.len(),
{
    if times.len() == 0 {
        seq![]
    } else {
        let (next, requested) = tick_step(last_request, times[0]);
        let rest = requested_at(next, times.drop_first());
        if requested {
            seq![times[0]].add(rest)
        } else {
            rest
        }
    }
}

impl FrameScheduler {
    pub fn new(now: u64) -> (r: FrameScheduler)
        ensures
            r.last_request == now,
    {
        FrameScheduler { last_request: now }
    }

    /// Requests a frame once the target interval has passed since the timer
    /// was last reset, and resets it; otherwise names the instant to wake.
    pub fn tick(&mut self, now: u64) -> (r: Tick)
        ensures
            (final(self).last_request, r == Tick::RequestRedraw) == tick_step(
                old(self).last_request,
                now,
            ),
            elapsed(old(self).last_request, now) < TARGET_FRAME_NANOS ==> r == Tick::WaitUntil(
                next_due(old(self).last_request),
            ),
    {
        let since = elapsed_nanos(self.last_request, now);
        if since >= TARGET_FRAME_NANOS {
            self.last_request = now;
            Tick::RequestRedraw
        } else {
            Tick::WaitUntil(add_saturating(self.last_request, TARGET_FRAME_NANOS))
        }
    }

    /// Resets the timer at `now`, as a rendered frame does.
    pub fn reset(&mut self, now: u64)
        ensures
            final(self).last_request == now,
    {
        self.last_request = now;
    }
}

/// Two frame requests made by successive ticks of the scheduler lie at least
/// the target interval apart, and the first one lies that far from the
/// instant the timer was reset, whatever instants the ticks come at.
pub proof fn lemma_requests_spaced(last_request: u64, times: Seq<u64>)
    ensures
        ({
            let r = requested_at(last_request, times);
            &&& r.len() > 0 ==> r[0] >= last_request + TARGET_FRAME_NANOS
            &&& forall|i: int|
                0 < i < r.len() ==> #[trigger] r[i] >= r[i - 1] + TARGET_FRAME_NANOS
        }),
    decreases times.len(),
{
    if times.len() > 0 {
        let (next, requested) = tick_step(last_request, times[0]);
        lemma_requests_spaced(next, times.drop_first());
        let rest = requested_at(next, times.drop_first());
        let r = requested_at(last_request, times);
        if requested {
            assert(r == seq![times[0]].add(rest));
            assert forall|i: int| 0 < i < r.len() implies #[trigger] r[i] >= r[i - 1]
                + TARGET_FRAME_NANOS by {
                if i > 1 {
                    assert(r[i] == rest[i - 1] && r[i - 1] == rest[i - 2]);
                }
            }
        }
    }
}

/// An event that moves the pacing timer, with the instant it happens at.
#[derive(Clone, Copy, Debug, PartialEq, Eq, Structural)]
pub enum Pacing {
    /// An idle tick of the loop.
    Tick(u64),
    /// A frame was rendered; the timer restarts.
    Reset(u64),
}

pub open spec fn pacing_instant(e: Pacing) -> u64 {
    match e {
        Pacing::Tick(t) => t,
        Pacing::Reset(t) => t,
    }
}

/// The timer after one event, and the frame it requested, if any.
pub open spec fn pacing_step(last_request: u64, e: Pacing) -> (u64, Option<u64>) {
    match e {
        Pacing::Tick(now) => {
            let (next, requested) = tick_step(last_request, now);
            (next, if requested { Some(now) } else { None })
        },
        Pacing::Reset(now) => (now, None),
    }
}

/// The instants, among the events `events`, at which a frame was requested,
/// starting from a timer reset at `last_request`.
pub open spec fn requested_during(last_request: u64, events: Seq<Pacing>) -> Seq<u64>
    decreases events.len(),
{
    if events.len() == 0 {
        seq![]
    } else {
        let (next, requested) = pacing_step(last_request, events[0]);
        let rest = requested_during(next, events.drop_first());
        match requested {
            Some(t) => seq![t].add(rest),
            None => rest,
        }
    }
}

/// On a clock that never runs backwards, ticks and timer resets together
/// still never request two frames closer than the target interval.
pub proof fn lemma_requests_spaced_with_resets(last_request: u64, events: Seq<Pacing>)
    requires
        forall|i: int| 0 <= i < events.len() ==> last_request <= #[trigger] pacing_instant(events[i]),
        forall|i: int, j: int|
            0 <= i <= j < events.len() ==> #[trigger] pacing_instant(events[i])
                <= #[trigger] pacing_instant(events[j]),
    ensures
        ({
            let r = requested_during(last_request, events);
            &&& r.len() > 0 ==> r[0] >= last_request + TARGET_FRAME_NANOS
            &&& forall|i: int|
                0 < i < r.len() ==> #[trigger] r[i] >= r[i - 1] + TARGET_FRAME_NANOS
        }),
    decreases events.len(),
{
    if events.len() > 0 {
        let (next, requested) = pacing_step(last_request, events[0]);
        let tail = events.drop_first();
        assert forall|i: int| 0 <= i < tail.len() implies next <= #[trigger] pacing_instant(
            tail[i],
        ) by {
            assert(tail[i] == events[i + 1]);
            assert(pacing_instant(events[0]) <= pacing_instant(events[i + 1]));
        }
        assert forall|i: int, j: int| 0 <= i <= j < tail.len() implies #[trigger] pacing_instant(
            tail[i],
        ) <= #[trigger] pacing_instant(tail[j]) by {
            assert(tail[i] == events[i + 1] && tail[j] == events[j + 1]);
            assert(pacing_instant(events[i + 1]) <= pacing_instant(events[j + 1]));
        }
        lemma_requests_spaced_with_resets(next, tail);
        let rest = requested_during(next, tail);
        let r = requested_during(last_request, events);
        assert(pacing_instant(events[0]) >= last_request);
        if requested.is_some() {
            assert(r == seq![requested.unwrap()].add(rest));
            assert forall|i: int| 0 < i < r.len() implies #[trigger] r[i] >= r[i - 1]
                + TARGET_FRAME_NANOS by {
                if i > 1 {
                    assert(r[i] == rest[i - 1] && r[i - 1] == rest[i - 2]);
                }
            }
        }
    }
}

/// Counts rendered frames and the time they took, and reports the average
/// throughput once every `FPS_REPORT_FRAMES` frames.
#[derive(Clone, Copy, Debug, PartialEq, Eq, Structural)]
pub struct FpsCounter {
    /// Frames rendered since the last report.
    pub frame_count: u64,
    /// Nanoseconds accumulated since the last report.
    pub accum_nanos: u64,
    /// When the last frame was rendered.
    pub last_frame: u64,
}

/// Frames per second, rounded down, of `frames` frames over `nanos`
/// nanoseconds; no time at all reads as the largest value.
pub open spec fn throughput(frames: u64, nanos: u64) -> u64 {
    if nanos == 0 {
        u64::MAX
    } else {
        ((frames * NANOS_PER_SEC) / (nanos as int)) as u64
    }
}

/// The counter after a frame rendered at `now`, and the throughput reported
/// on that frame, if any.
pub open spec fn frame_step(c: FpsCounter, now: u64) -> (FpsCounter, Option<u64>) {
    let count = c.frame_count + 1;
    let accum = saturating_sum(c.accum_nanos, elapsed(c.last_frame, now));
    if count == FPS_REPORT_FRAMES {
        (
            FpsCounter { frame_count: 0, accum_nanos: 0, last_frame: now },
            Some(throughput(count as u64, accum)),
        )
    } else {
        (FpsCounter { frame_count: count as u64, accum_nanos: accum, last_frame: now }, None)
    }
}

/// The counter after frames rendered at the instants `times`, in order.
pub open spec fn run_frames(c: FpsCounter, times: Seq<u64>) -> FpsCounter
    decreases times.len(),
{
    if times.len() == 0 {
        c
    } else {
        frame_step(run_frames(c, times.drop_last()), times.last()).0
    }
}

/// What each of the frames rendered at the instants `times` reported.
pub open spec fn reports(c: FpsCounter, times: Seq<u64>) -> Seq<Option<u64>>
    decreases times.len(),
{
    if times.len() == 0 {
        seq![]
    } else {
        reports(c, times.drop_last()).push(
            frame_step(run_frames(c, times.drop_last()), times.last()).1,
        )
    }
}

fn throughput_of(frames: u64, nanos: u64) -> (r: u64)
    requires
        frames <= FPS_REPORT_FRAMES,
    ensures
        r == throughput(frames, nanos),
{
    if nanos == 0 {
        u64::MAX
    } else {
        proof {
            assert(frames * NANOS_PER_SEC <= FPS_REPORT_FRAMES * NANOS_PER_SEC) by (nonlinear_arith)
                requires
                    frames <= FPS_REPORT_FRAMES,
            ;
        }
        (frames * NANOS_PER_SEC) / nanos
    }
}

impl FpsCounter {
    /// Fewer frames are counted than trigger a report.
    pub open spec fn wf(self) -> bool {
        self.frame_count < FPS_REPORT_FRAMES
    }

    pub fn new(now: u64) -> (r: FpsCounter)
        ensures
            r.wf(),
            r.frame_count == 0,
            r.accum_nanos == 0,
            r.last_frame == now,
    {
        FpsCounter { frame_count: 0, accum_nanos: 0, last_frame: now }
    }

    /// Counts a frame rendered at `now`. On the frame that completes a
    /// batch it returns the batch's throughput and resets the count and the
    /// accumulated time to zero.
    pub fn record_frame(&mut self, now: u64) -> (r: Option<u64>)
        requires
            old(self).wf(),
        ensures
            final(self).wf(),
            (*final(self), r) == frame_step(*old(self), now),
            final(self).last_frame == now,
            r.is_some() <==> old(self).frame_count + 1 == FPS_REPORT_FRAMES,
    {
        let accum = add_saturating(self.accum_nanos, elapsed_nanos(self.last_frame, now));
        self.last_frame = now;
        self.frame_count = self.frame_count + 1;
        if self.frame_count == FPS_REPORT_FRAMES {
            let fps = throughput_of(self.frame_count, accum);
            self.accum_nanos = 0;
            self.frame_count = 0;
            Some(fps)
        } else {
            self.accum_nanos = accum;
            None
        }
    }
}

/// From a fresh count, no frame before the hundredth reports anything; the
/// hundredth reports the throughput of the time accumulated up to and
/// including it, and leaves the count and the accumulated time at zero.
pub proof fn lemma_report_after_batch(c: FpsCounter, times: Seq<u64>)
    requires
        c.frame_count == 0,
        times.len() == FPS_REPORT_FRAMES,
    ensures
        ({
            let before = run_frames(c, times.drop_last());
            let after = run_frames(c, times);
            let accum = saturating_sum(before.accum_nanos, elapsed(before.last_frame, times.last()));
            &&& before.frame_count == FPS_REPORT_FRAMES - 1
            &&& after.frame_count == 0
            &&& after.accum_nanos == 0
            &&& reports(c, times).last() == Some(throughput(FPS_REPORT_FRAMES, accum))
            &&& forall|i: int| 0 <= i < times.len() - 1 ==> #[trigger] reports(c, times)[i].is_none()
        }),
{
    lemma_count_before_batch(c, times.drop_last());
    assert(reports(c, times).drop_last() == reports(c, times.drop_last()));
    assert forall|i: int| 0 <= i < times.len() - 1 implies #[trigger] reports(c, times)[i].is_none() by {
        assert(reports(c, times)[i] == reports(c, times.drop_last())[i]);
    }
}

proof fn lemma_count_before_batch(c: FpsCounter, times: Seq<u64>)
    requires
        c.frame_count == 0,
        times.len() < FPS_REPORT_FRAMES,
    ensures
        run_frames(c, times).frame_count == times.len(),
        reports(c, times).len() == times.len(),
        forall|i: int| 0 <= i < times.len() ==> #[trigger] reports(c, times)[i].is_none(),
    decreases times.len(),
{
    if times.len() > 0 {
        lemma_count_before_batch(c, times.drop_last());
        assert forall|i: int| 0 <= i < times.len() implies #[trigger] reports(c, times)[i].is_none() by {
            if i < times.len() - 1 {
                assert(reports(c, times)[i] == reports(c, times.drop_last())[i]);
            }
        }
    }
}

} // verus!
