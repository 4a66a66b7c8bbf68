//! Rolling frame-rate statistics.
//!
//! Each completed render cycle bumps a frame count. Once the current
//! sample window spans at least one second, the counter commits an
//! averaged rate and per-frame duration, then starts a fresh window.
//! Shorter windows commit nothing: sampling is deliberately coarse.
//!
//! Rates are integers: the committed rate is in millihertz (frames per
//! second times 1000) and the committed per-frame duration is in whole
//! microseconds, so every figure is exact and machine-checkable.

use vstd::prelude::*;
use crate::clock::Clock;
use crate::clock::span_micros;
use crate::clock::MICROS_PER_SECOND;

verus! {

/// Millihertz per frame-per-microsecond: one frame per microsecond is
/// 1_000_000 frames per second, or 1_000_000_000 millihertz.
pub const MILLIHZ_PER_FRAME_PER_MICRO: u64 = 1_000_000_000;

/// The committed rate, in millihertz, of `frames` cycles over a window of
/// `window_micros` microseconds.
pub open spec fn rate_millihz(frames: u32, window_micros: u64) -> u64
    recommends
        window_micros >= 1,
{
    ((frames as int * MILLIHZ_PER_FRAME_PER_MICRO) / window_micros as int) as u64
}

/// The committed per-frame duration, in microseconds, of `frames` cycles
/// over a window of `window_micros` microseconds.
pub open spec fn frame_time_micros(frames: u32, window_micros: u64) -> u64
    recommends
        frames >= 1,
{
    (window_micros as int / frames as int) as u64
}

/// Accumulates render cycles and commits averaged statistics once per
/// sample window of at least one second.
pub struct FrameCounter {
    /// Source of the readings taken by `update`.
    pub clock: Clock,
    /// Cycles completed in the current sample window.
    pub frame_count: u32,
    /// Clock reading at which the current sample window began.
    pub sample_start_micros: u64,
    /// Rate committed by the last full sample window, in millihertz;
    /// zero before the first window completes.
    pub last_fps_millihz: u64,
    /// Per-frame duration committed by the last full sample window, in
    /// microseconds; zero before the first window completes.
    pub last_frame_time_micros: u64,
}

impl FrameCounter {
    /// The frame count after one more cycle; pinned at the top of the
    /// range rather than wrapping.
    pub open spec fn bumped_count(self) -> u32 {
        if self.frame_count < u32::MAX {
            (self.frame_count + 1) as u32
        } else {
            u32::MAX
        }
    }

    /// Whether an update at reading `now` closes the sample window.
    pub open spec fn commits(self, now: u64) -> bool {
        span_micros(self.sample_start_micros, now) >= MICROS_PER_SECOND
    }

    /// The counter state after one update at reading `now`: the frame
    /// count is bumped; if the window spans at least one second, the
    /// averaged statistics are committed, the count returns to zero and a
    /// new window starts at `now`.
    pub open spec fn stepped(self, now: u64) -> FrameCounter {
        let window = span_micros(self.sample_start_micros, now);
        if self.commits(now) {
            FrameCounter {
                frame_count: 0,
                sample_start_micros: now,
                last_fps_millihz: rate_millihz(self.bumped_count(), window),
                last_frame_time_micros: frame_time_micros(self.bumped_count(), window),
                ..self
            }
        } else {
            FrameCounter { frame_count: self.bumped_count(), ..self }
        }
    }

    /// A counter whose sample window starts now, with zeroed statistics.
    pub fn new() -> (c: FrameCounter)
        ensures
            c.frame_count == 0,
            c.sample_start_micros == 0,
            c.last_fps_millihz == 0,
            c.last_frame_time_micros == 0,
    {
        FrameCounter {
            clock: Clock::new(),
            frame_count: 0,
            sample_start_micros: 0,
            last_fps_millihz: 0,
            last_frame_time_micros: 0,
        }
    }

    /// One update at the given clock reading. Called once per completed
    /// render cycle; the whole effect is `stepped`.
    pub fn update_at(&mut self, now_micros: u64)
        ensures
            *final(self) == old(self).stepped(now_micros),
    {
        let count: u32 = if self.frame_count < u32::MAX {
            self.frame_count + 1
        } else {
            u32::MAX
        };
        self.frame_count = count;
        let window: u64 = if now_micros >= self.sample_start_micros {
            now_micros - self.sample_start_micros
        } else {
            0
        };
        if window >= MICROS_PER_SECOND {
            assert(count as int * MILLIHZ_PER_FRAME_PER_MICRO <= u32::MAX as int
                * MILLIHZ_PER_FRAME_PER_MICRO) by (nonlinear_arith)
                requires count <= u32::MAX;
            self.last_fps_millihz = (count as u64) * MILLIHZ_PER_FRAME_PER_MICRO / window;
            self.last_frame_time_micros = window / (count as u64);
            self.frame_count = 0;
            self.sample_start_micros = now_micros;
        }
    }

    /// One update at the current clock reading. Called once per completed
    /// render cycle; the effect is `stepped` at whatever reading the
    /// clock returned.
    pub fn update(&mut self)
        ensures
            exists|now: u64| *final(self) == #[trigger] old(self).stepped(now),
    {
        let now = self.clock.now_micros();
        self.update_at(now);
        proof {
            assert(*self == old(self).stepped(now));
        }
    }

    /// The rate committed by the last full sample window, in millihertz;
    /// zero before the first window completes.
    pub fn get_last_fps(&self) -> (r: u64)
        ensures
            r == self.last_fps_millihz,
    {
        self.last_fps_millihz
    }

    /// The per-frame duration committed by the last full sample window,
    /// in microseconds; zero before the first window completes.
    pub fn get_last_frame_time(&self) -> (r: u64)
        ensures
            r == self.last_frame_time_micros,
    {
        self.last_frame_time_micros
    }
}

/// The digits displayed for a committed rate: the whole frames-per-second
/// part and one tenth, rounded to the nearest tenth.
pub fn fps_display_parts(fps_millihz: u64) -> (r: (u64, u64))
    ensures
        ({
            let tenths = fps_millihz as int / 100 + if fps_millihz as int % 100 >= 50 {
                1int
            } else {
                0int
            };
            r.0 == tenths / 10 && r.1 == tenths % 10
        }),
        r.1 <= 9,
{
    let tenths: u64 = fps_millihz / 100 + if fps_millihz % 100 >= 50 {
        1
    } else {
        0
    };
    (tenths / 10, tenths % 10)
}

/// The counter state after a run of updates at the given readings, one
/// update per completed render cycle, in order.
pub open spec fn run_updates(c: FrameCounter, times: Seq<u64>) -> FrameCounter
    decreases times.len(),
{
    if times.len() == 0 {
        c
    } else {
        run_updates(c.stepped(times[0]), times.skip(1))
    }
}

/// A run of updates equals the run over all but the last reading,
/// followed by one update at the last reading.
proof fn lemma_run_splits_last(c: FrameCounter, times: Seq<u64>)
    requires
        times.len() >= 1,
    ensures
        run_updates(c, times) == run_updates(c, times.take(times.len() - 1)).stepped(
            times.last(),
        ),
    decreases times.len(),
{
    if times.len() == 1 {
        assert(times.take(0) =~= Seq::<u64>::empty());
        assert(times.skip(1) =~= Seq::<u64>::empty());
        assert(run_updates(c, times) == run_updates(c.stepped(times[0]), times.skip(1)));
        assert(run_updates(c, times) == c.stepped(times[0]));
        assert(run_updates(c, times.take(0)) == c);
    } else {
        let c1 = c.stepped(times[0]);
        let rest = times.skip(1);
        lemma_run_splits_last(c1, rest);
        let head = times.take(times.len() - 1);
        assert(head.len() == times.len() - 1);
        assert(head[0] == times[0]);
        assert(head.skip(1) =~= rest.take(rest.len() - 1));
        assert(run_updates(c, head) == run_updates(c1, head.skip(1)));
        assert(run_updates(c, times) == run_updates(c1, rest));
        assert(rest.last() == times.last());
    }
}

/// While no update closes the sample window, a run of updates only
/// accumulates: the frame count grows by one per cycle, and the window
/// start and the committed statistics stay untouched.
pub proof fn lemma_quiet_run_accumulates(c: FrameCounter, times: Seq<u64>)
    requires
        c.frame_count + times.len() <= u32::MAX,
        forall|i: int|
            0 <= i < times.len() ==> !(#[trigger] run_updates(c, times.take(i))).commits(times[i]),
    ensures
        run_updates(c, times) == (FrameCounter {
            frame_count: (c.frame_count + times.len()) as u32,
            ..c
        }),
    decreases times.len(),
{
    if times.len() == 0 {
    } else {
        assert(times.take(0) =~= Seq::<u64>::empty());
        assert(run_updates(c, times.take(0)) == c);
        let c1 = c.stepped(times[0]);
        let rest = times.skip(1);
        assert forall|i: int|
            0 <= i < rest.len() implies !(#[trigger] run_updates(c1, rest.take(i))).commits(
            rest[i],
        ) by {
            assert(times.take(i + 1).skip(1) =~= rest.take(i));
            assert(run_updates(c, times.take(i + 1)) == run_updates(c1, rest.take(i)));
            assert(!run_updates(c, times.take(i + 1)).commits(times[i + 1]));
            assert(rest[i] == times[i + 1]);
        }
        lemma_quiet_run_accumulates(c1, rest);
    }
}

/// Over every run of at least one render cycle whose intermediate
/// updates leave the sample window open and whose last reading lies at
/// least one second after the window start, the counter commits: the
/// committed rate is exactly the number of cycles over the elapsed span,
/// the per-frame duration is exactly the span over the number of cycles,
/// and the count restarts at zero for a fresh window at the last reading.
pub proof fn lemma_rate_over_run(c: FrameCounter, times: Seq<u64>)
    requires
        c.frame_count == 0,
        1 <= times.len() <= u32::MAX,
        forall|i: int|
            0 <= i < times.len() - 1 ==> !(#[trigger] run_updates(c, times.take(i))).commits(
                times[i],
            ),
        span_micros(c.sample_start_micros, times.last()) >= MICROS_PER_SECOND,
    ensures
        run_updates(c, times).frame_count == 0,
        run_updates(c, times).sample_start_micros == times.last(),
        run_updates(c, times).last_fps_millihz == rate_millihz(
            times.len() as u32,
            span_micros(c.sample_start_micros, times.last()),
        ),
        run_updates(c, times).last_frame_time_micros == frame_time_micros(
            times.len() as u32,
            span_micros(c.sample_start_micros, times.last()),
        ),
{
    let n = times.len() as int;
    let prefix = times.take(n - 1);
    assert forall|i: int|
        0 <= i < prefix.len() implies !(#[trigger] run_updates(c, prefix.take(i))).commits(
        prefix[i],
    ) by {
        assert(prefix.take(i) =~= times.take(i));
        assert(prefix[i] == times[i]);
        assert(!run_updates(c, times.take(i)).commits(times[i]));
    }
    lemma_quiet_run_accumulates(c, prefix);
    let cpre = run_updates(c, prefix);
    assert(cpre.frame_count == n - 1);
    assert(cpre.sample_start_micros == c.sample_start_micros);
    assert(cpre.commits(times.last()));
    assert(cpre.bumped_count() == n);
    lemma_run_splits_last(c, times);
}

} // verus!
