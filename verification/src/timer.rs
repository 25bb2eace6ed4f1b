//! Frame timer: a rolling frames-per-second measurement over a one-second
//! sampling window, driven by a monotonic clock that the caller reads.
//!
//! The rate is held in thousandths of a frame per second, so that the
//! sampling rule is exact integer arithmetic; the display layer turns it
//! into the one-decimal label.

use vstd::prelude::*;
use vstd::arithmetic::div_mod::{lemma_div_by_multiple, lemma_div_is_ordered_by_denominator};
use vstd::arithmetic::mul::lemma_mul_is_associative;

verus! {

/// Length of the sampling window, in nanoseconds.
pub const SAMPLE_WINDOW_NANOS: u64 = 1_000_000_000;

/// Numerator scale that turns frames-per-nanosecond into thousandths of a
/// frame per second: nanoseconds per second times one thousand.
pub const FPS_MILLI_SCALE: u64 = 1_000_000_000_000;

/// Rolling frames-per-second measurement.
///
/// `fps_milli` is updated only when at least one second has elapsed since
/// `last_sample_nanos`; between sample boundaries the previously computed
/// value is returned unchanged. The frame count resets to zero at each
/// boundary.
pub struct FpsTracker {
    /// Monotonic instant of the last sample boundary, in nanoseconds.
    pub last_sample_nanos: u64,
    /// Frames counted since the last sample boundary.
    pub frame_count: u32,
    /// Most recently sampled rate, in thousandths of a frame per second;
    /// zero before the first full sampling window completes.
    pub fps_milli: u64,
}

/// The rate a completed sampling window yields, in thousandths of a frame
/// per second: frames divided by the actually elapsed seconds.
pub open spec fn spec_sampled_fps_milli(frames: int, elapsed_nanos: int) -> int
    recommends
        elapsed_nanos > 0,
{
    frames * FPS_MILLI_SCALE / elapsed_nanos
}

/// One `tick` at monotonic instant `now_nanos`: the frame count advances
/// (saturating), and when the sampling window has elapsed the rate is
/// recomputed from the actual elapsed time and the window restarts.
pub open spec fn spec_tick(t: FpsTracker, now_nanos: u64) -> FpsTracker
    recommends
        t.last_sample_nanos <= now_nanos,
{
    let frames = if t.frame_count < u32::MAX {
        (t.frame_count + 1) as u32
    } else {
        u32::MAX
    };
    let elapsed = now_nanos - t.last_sample_nanos;
    if elapsed >= SAMPLE_WINDOW_NANOS {
        FpsTracker {
            last_sample_nanos: now_nanos,
            frame_count: 0,
            fps_milli: spec_sampled_fps_milli(frames as int, elapsed) as u64,
        }
    } else {
        FpsTracker { frame_count: frames, ..t }
    }
}

impl FpsTracker {
    /// A fresh tracker: the sampling window starts at `now_nanos`, no
    /// frames counted, rate zero until the first window completes.
    pub fn new(now_nanos: u64) -> (t: FpsTracker)
        ensures
            t == (FpsTracker { last_sample_nanos: now_nanos, frame_count: 0, fps_milli: 0u64 }),
    {
        FpsTracker { last_sample_nanos: now_nanos, frame_count: 0, fps_milli: 0 }
    }

    /// Advances the timer by one produced frame, observed at monotonic
    /// instant `now_nanos`. Call exactly once per frame.
    pub fn tick(&mut self, now_nanos: u64)
        requires
            old(self).last_sample_nanos <= now_nanos,
        ensures
            *final(self) == spec_tick(*old(self), now_nanos),
    {
        let frames: u32 = if self.frame_count < u32::MAX {
            self.frame_count + 1
        } else {
            u32::MAX
        };
        self.frame_count = frames;
        let elapsed: u64 = now_nanos - self.last_sample_nanos;
        if elapsed >= SAMPLE_WINDOW_NANOS {
            proof {
                assert(frames * FPS_MILLI_SCALE <= u32::MAX * FPS_MILLI_SCALE)
                    by (nonlinear_arith)
                    requires
                        0 <= frames <= u32::MAX,
                ;
            }
            let q: u128 = (frames as u128) * (FPS_MILLI_SCALE as u128) / (elapsed as u128);
            proof {
                lemma_sampled_fps_milli_bounded(frames as int, elapsed as int);
            }
            self.fps_milli = q as u64;
            self.frame_count = 0;
            self.last_sample_nanos = now_nanos;
        }
    }

    /// The most recently sampled rate, in thousandths of a frame per
    /// second; zero before the first full sampling window completes.
    pub fn fps_milli(&self) -> (r: u64)
        ensures
            r == self.fps_milli,
    {
        self.fps_milli
    }
}

/// The tracker after a sequence of ticks at the given monotonic instants.
pub open spec fn spec_run_ticks(t: FpsTracker, times: Seq<u64>) -> FpsTracker
    decreases times.len(),
{
    if times.len() == 0 {
        t
    } else {
        spec_run_ticks(spec_tick(t, times[0]), times.drop_first())
    }
}

proof fn lemma_run_ticks_window(t0: FpsTracker, times: Seq<u64>)
    requires
        times.len() >= 1,
        t0.frame_count + times.len() <= u32::MAX,
        forall|i: int| 0 <= i < times.len() ==> t0.last_sample_nanos <= #[trigger] times[i],
        forall|i: int|
            0 <= i < times.len() - 1 ==> #[trigger] times[i] - t0.last_sample_nanos
                < SAMPLE_WINDOW_NANOS,
        times[times.len() - 1] - t0.last_sample_nanos >= SAMPLE_WINDOW_NANOS,
    ensures
        spec_run_ticks(t0, times).frame_count == 0,
        spec_run_ticks(t0, times).last_sample_nanos == times[times.len() - 1],
        spec_run_ticks(t0, times).fps_milli == spec_sampled_fps_milli(
            t0.frame_count + times.len(),
            times[times.len() - 1] - t0.last_sample_nanos,
        ),
        forall|k: int|
            0 <= k < times.len() ==> spec_run_ticks(t0, #[trigger] times.take(k)).fps_milli
                == t0.fps_milli,
    decreases times.len(),
{
    let t1 = spec_tick(t0, times[0]);
    let rest = times.drop_first();
    if times.len() == 1 {
        assert(rest.len() == 0);
        assert(spec_run_ticks(t1, rest) == t1);
        assert(spec_run_ticks(t0, times) == t1);
        lemma_sampled_fps_milli_bounded(
            t0.frame_count + 1,
            times[0] - t0.last_sample_nanos,
        );
        assert forall|k: int| 0 <= k < times.len() implies spec_run_ticks(
            t0,
            #[trigger] times.take(k),
        ).fps_milli == t0.fps_milli by {
            assert(times.take(k).len() == 0);
        }
    } else {
        assert(times[0] - t0.last_sample_nanos < SAMPLE_WINDOW_NANOS);
        assert(t1.frame_count == t0.frame_count + 1);
        assert(t1.last_sample_nanos == t0.last_sample_nanos);
        assert(t1.fps_milli == t0.fps_milli);
        assert(forall|i: int| 0 <= i < rest.len() ==> #[trigger] rest[i] == times[i + 1]);
        assert(rest[rest.len() - 1] == times[times.len() - 1]);
        lemma_run_ticks_window(t1, rest);
        assert(spec_run_ticks(t0, times) == spec_run_ticks(t1, rest));
        assert forall|k: int| 0 <= k < times.len() implies spec_run_ticks(
            t0,
            #[trigger] times.take(k),
        ).fps_milli == t0.fps_milli by {
            if k == 0 {
                assert(times.take(0).len() == 0);
            } else {
                let s = times.take(k);
                assert(s.len() == k);
                assert(s[0] == times[0]);
                assert(s.drop_first() =~= rest.take(k - 1));
                assert(spec_run_ticks(t0, s) == spec_run_ticks(t1, rest.take(k - 1)));
            }
        }
    }
}

/// Sampling law: starting a window with a frame count of zero, take any
/// sequence of tick instants that stays under one second of the window
/// start except for the last, which reaches or passes it. Then the
/// sampled rate is exactly the number of ticks divided by the actually
/// elapsed time — not a fixed one-second denominator — in thousandths of
/// a frame per second, and every reading taken before the boundary
/// returns the previously sampled value unchanged.
pub proof fn lemma_fps_over_sampling_window(t0: FpsTracker, times: Seq<u64>)
    requires
        t0.frame_count == 0,
        1 <= times.len() <= u32::MAX,
        forall|i: int| 0 <= i < times.len() ==> t0.last_sample_nanos <= #[trigger] times[i],
        forall|i: int|
            0 <= i < times.len() - 1 ==> #[trigger] times[i] - t0.last_sample_nanos
                < SAMPLE_WINDOW_NANOS,
        times[times.len() - 1] - t0.last_sample_nanos >= SAMPLE_WINDOW_NANOS,
    ensures
        spec_run_ticks(t0, times).fps_milli == spec_sampled_fps_milli(
            times.len() as int,
            times[times.len() - 1] - t0.last_sample_nanos,
        ),
        spec_run_ticks(t0, times).frame_count == 0,
        forall|k: int|
            0 <= k < times.len() ==> spec_run_ticks(t0, #[trigger] times.take(k)).fps_milli
                == t0.fps_milli,
{
    lemma_run_ticks_window(t0, times);
}

/// Over a full sampling window the computed rate fits comfortably in 64
/// bits: at most `u32::MAX` frames over at least one second.
proof fn lemma_sampled_fps_milli_bounded(frames: int, elapsed_nanos: int)
    requires
        0 <= frames <= u32::MAX,
        elapsed_nanos >= SAMPLE_WINDOW_NANOS,
    ensures
        0 <= spec_sampled_fps_milli(frames, elapsed_nanos) <= u32::MAX * 1000,
{
    let p = frames * FPS_MILLI_SCALE;
    assert(p >= 0) by (nonlinear_arith)
        requires
            frames >= 0,
            p == frames * FPS_MILLI_SCALE,
    ;
    lemma_div_is_ordered_by_denominator(p, SAMPLE_WINDOW_NANOS as int, elapsed_nanos);
    lemma_mul_is_associative(frames, 1000, SAMPLE_WINDOW_NANOS as int);
    lemma_div_by_multiple(frames * 1000, SAMPLE_WINDOW_NANOS as int);
    assert(frames * 1000 <= u32::MAX * 1000) by (nonlinear_arith)
        requires
            frames <= u32::MAX,
    ;
}

} // verus!
