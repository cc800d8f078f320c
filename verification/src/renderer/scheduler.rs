//! Deterministic frame pacing.
//!
//! Time is measured in nanoseconds on a monotonic clock: a timestamp is the
//! number of nanoseconds since an arbitrary fixed origin, and an interval is a
//! number of nanoseconds.

use vstd::prelude::*;

use crate::error::GromaqError;

verus! {

/// Largest supported target frame rate.
pub const MAX_TARGET_FPS: u32 = 240;

/// Nanoseconds in one second.
pub const NANOS_PER_SECOND: u64 = 1_000_000_000;

/// Reason a frame decision was made.
#[derive(Debug, Clone, Copy, PartialEq, Eq, Structural)]
pub enum RenderReason {
    /// No work is pending.
    Idle,
    /// First frame after dirty state appears.
    FirstDirtyFrame,
    /// Dirty state is pending and the frame interval has elapsed.
    Dirty,
    /// Dirty state exists but the scheduler is waiting for the next frame boundary.
    FramePaced,
}

/// Deterministic frame-scheduling decision.
#[derive(Debug, Clone, Copy, PartialEq, Eq, Structural)]
pub struct FrameDecision {
    /// Whether the renderer should draw now.
    pub should_render: bool,
    /// Optional wait, in nanoseconds, before rendering should be reconsidered.
    pub wait_for: Option<u64>,
    /// Decision reason.
    pub reason: RenderReason,
}

/// A decision to render now, for `reason`.
pub open spec fn render_decision(reason: RenderReason) -> FrameDecision {
    FrameDecision { should_render: true, wait_for: None, reason }
}

/// A decision not to render, with nothing pending.
pub open spec fn idle_decision() -> FrameDecision {
    FrameDecision { should_render: false, wait_for: None, reason: RenderReason::Idle }
}

/// A decision to wait `nanos` nanoseconds for the next frame boundary.
pub open spec fn wait_decision(nanos: u64) -> FrameDecision {
    FrameDecision { should_render: false, wait_for: Some(nanos), reason: RenderReason::FramePaced }
}

impl FrameDecision {
    /// Build a render-now decision.
    pub fn render(reason: RenderReason) -> (d: Self)
        ensures
            d == render_decision(reason),
    {
        Self { should_render: true, wait_for: None, reason }
    }

    /// Build an idle decision.
    pub fn idle() -> (d: Self)
        ensures
            d == idle_decision(),
    {
        Self { should_render: false, wait_for: None, reason: RenderReason::Idle }
    }

    fn wait(wait_for: u64) -> (d: Self)
        ensures
            d == wait_decision(wait_for),
    {
        Self { should_render: false, wait_for: Some(wait_for), reason: RenderReason::FramePaced }
    }
}

/// Frame pacing metrics.
#[derive(Debug, Clone, Copy, Default, PartialEq, Eq, Structural)]
pub struct FrameSchedulerMetrics {
    /// Number of frames marked as presented.
    pub frames_presented: u64,
    /// Number of frame intervals missed between presented frames.
    pub dropped_frames: u64,
}

/// Deterministic frame scheduler for render-loop tests and native UI integration.
#[derive(Debug, Clone)]
pub struct FrameScheduler {
    target_interval: u64,
    last_presented: Option<u64>,
    /// Pacing metrics gathered so far.
    pub metrics: FrameSchedulerMetrics,
}

/// `a + b`, or `u64::MAX` where that does not fit.
pub open spec fn saturating_sum(a: u64, b: int) -> u64 {
    if a + b > u64::MAX {
        u64::MAX
    } else {
        (a + b) as u64
    }
}

/// Nanoseconds from `earlier` to `later`, or zero when `earlier` is later.
pub open spec fn elapsed_since(later: u64, earlier: u64) -> u64 {
    if later >= earlier {
        (later - earlier) as u64
    } else {
        0
    }
}

/// Whole frame intervals of `interval` nanoseconds that fit in `elapsed`.
pub open spec fn whole_intervals(elapsed: u64, interval: u64) -> int {
    elapsed as int / interval as int
}

impl FrameScheduler {
    /// Target interval between presented frames, in nanoseconds.
    pub closed spec fn interval(&self) -> u64 {
        self.target_interval
    }

    /// Timestamp of the last presented frame, if any.
    pub closed spec fn last(&self) -> Option<u64> {
        self.last_presented
    }

    /// Metrics gathered so far.
    pub closed spec fn recorded(&self) -> FrameSchedulerMetrics {
        self.metrics
    }

    /// The frame interval is positive.
    pub open spec fn wf(&self) -> bool {
        self.interval() > 0
    }

    /// Decision at `now`: idle without dirty state; render the first dirty frame
    /// at once; otherwise render once a whole interval has passed since the last
    /// presented frame, and wait for the rest of it before that.
    pub open spec fn decision(&self, now: u64, has_dirty: bool) -> FrameDecision {
        if !has_dirty {
            idle_decision()
        } else {
            match self.last() {
                None => render_decision(RenderReason::FirstDirtyFrame),
                Some(last) => {
                    let elapsed = elapsed_since(now, last);
                    if elapsed >= self.interval() {
                        render_decision(RenderReason::Dirty)
                    } else {
                        wait_decision((self.interval() - elapsed) as u64)
                    }
                },
            }
        }
    }

    /// Dropped-frame count after presenting a frame at `at`: every whole interval
    /// beyond the first since the last presented frame counts as dropped,
    /// saturating at `u64::MAX`.
    pub open spec fn dropped_after(&self, at: u64) -> u64 {
        match self.last() {
            None => self.recorded().dropped_frames,
            Some(last) => {
                let intervals = whole_intervals(elapsed_since(at, last), self.interval());
                if intervals > 1 {
                    saturating_sum(self.recorded().dropped_frames, intervals - 1)
                } else {
                    self.recorded().dropped_frames
                }
            },
        }
    }

    /// Create a frame scheduler for `target_fps`.
    pub fn new(target_fps: u32) -> (r: Result<Self, GromaqError>)
        ensures
            (1 <= target_fps <= MAX_TARGET_FPS) <==> (r is Ok),
            r matches Ok(s) ==> {
                &&& s.wf()
                &&& s.interval() == NANOS_PER_SECOND / (target_fps as u64)
                &&& s.last() is None
                &&& s.recorded() == (FrameSchedulerMetrics { frames_presented: 0, dropped_frames: 0 })
            },
            r matches Err(e) ==> e == (GromaqError::InvalidTargetFps {
                minimum: 1,
                maximum: MAX_TARGET_FPS,
                actual: target_fps,
            }),
    {
        if target_fps < 1 || target_fps > MAX_TARGET_FPS {
            return Err(GromaqError::InvalidTargetFps { minimum: 1, maximum: MAX_TARGET_FPS, actual: target_fps });
        }
        let fps: u64 = target_fps as u64;
        assert(NANOS_PER_SECOND / fps > 0) by (nonlinear_arith)
            requires 1 <= fps <= 240;
        Ok(Self {
            target_interval: NANOS_PER_SECOND / fps,
            last_presented: None,
            metrics: FrameSchedulerMetrics { frames_presented: 0, dropped_frames: 0 },
        })
    }

    /// Target interval between presented frames, in nanoseconds.
    pub fn target_interval(&self) -> (r: u64)
        ensures
            r == self.interval(),
    {
        self.target_interval
    }

    /// Decide whether a frame should be rendered at `now`.
    pub fn decide(&self, now: u64, has_dirty: bool) -> (d: FrameDecision)
        ensures
            d == self.decision(now, has_dirty),
    {
        if !has_dirty {
            return FrameDecision::idle();
        }
        let last_presented = match self.last_presented {
            Some(last) => last,
            None => return FrameDecision::render(RenderReason::FirstDirtyFrame),
        };
        let elapsed = now.saturating_sub(last_presented);
        if elapsed >= self.target_interval {
            FrameDecision::render(RenderReason::Dirty)
        } else {
            FrameDecision::wait(self.target_interval - elapsed)
        }
    }

    /// Record that a frame was presented at `presented_at`.
    pub fn record_presented(&mut self, presented_at: u64)
        requires
            old(self).wf(),
        ensures
            final(self).wf(),
            final(self).interval() == old(self).interval(),
            final(self).last() == Some(presented_at),
            final(self).recorded().frames_presented == saturating_sum(old(self).recorded().frames_presented, 1),
            final(self).recorded().dropped_frames == old(self).dropped_after(presented_at),
    {
        if let Some(last_presented) = self.last_presented {
            let elapsed = presented_at.saturating_sub(last_presented);
            let intervals = elapsed / self.target_interval;
            if intervals > 1 {
                self.metrics.dropped_frames = self.metrics.dropped_frames.saturating_add(intervals - 1);
            }
        }
        self.last_presented = Some(presented_at);
        self.metrics.frames_presented = self.metrics.frames_presented.saturating_add(1);
    }

    /// Return scheduler metrics.
    pub fn metrics(&self) -> (m: FrameSchedulerMetrics)
        ensures
            m == self.recorded(),
    {
        self.metrics
    }
}

/// A frame presented at `at` paces the next dirty frame: deciding at `now`
/// renders exactly when a whole interval has passed since `at`, and otherwise
/// waits for the rest of the interval.
pub proof fn lemma_presented_frame_paces_next(s: FrameScheduler, at: u64, now: u64)
    requires
        s.wf(),
        s.last() == Some(at),
    ensures
        now >= at && now - at >= s.interval() ==> s.decision(now, true) == render_decision(RenderReason::Dirty),
        !(now >= at && now - at >= s.interval()) ==> s.decision(now, true) == wait_decision(
            (s.interval() - elapsed_since(now, at)) as u64,
        ),
        s.decision(now, false) == idle_decision(),
{
}

/// Presenting a frame `k` whole intervals after the last one (at least `k` and
/// fewer than `k + 1` intervals later) counts the `k - 1` frames due in between
/// as dropped, saturating at `u64::MAX`: a gap of two intervals drops one frame,
/// and a gap under two intervals drops none.
pub proof fn lemma_missed_intervals_are_dropped(s: FrameScheduler, last: u64, at: u64, k: nat)
    requires
        s.wf(),
        s.last() == Some(last),
        last <= at,
        last + k * s.interval() <= at,
        at < last + (k + 1) * s.interval(),
    ensures
        k >= 2 && s.recorded().dropped_frames + (k - 1) <= u64::MAX ==> s.dropped_after(at) == s.recorded().dropped_frames + (k - 1),
        k >= 2 && s.recorded().dropped_frames + (k - 1) > u64::MAX ==> s.dropped_after(at) == u64::MAX,
        k < 2 ==> s.dropped_after(at) == s.recorded().dropped_frames,
{
    let i = s.interval() as int;
    let d = (at - last) as int;
    assert(d / i == k) by (nonlinear_arith)
        requires k * i <= d, d < (k + 1) * i, i > 0;
}

} // verus!
