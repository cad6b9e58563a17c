//! Repeating countdown timers that schedule the spawning of stars and enemies.

use vstd::prelude::*;

verus! {

/// Nanoseconds between two spawned stars.
pub const STAR_SPAWN_INTERVAL: u64 = 1000000000;

/// Nanoseconds between two spawned enemies.
pub const ENEMY_SPAWN_INTERVAL: u64 = 5000000000;

/// A repeating timer: it accumulates elapsed nanoseconds and wraps each time
/// the interval is reached.
#[derive(Clone, Copy, Debug, PartialEq, Eq, Structural)]
pub struct Timer {
    /// Length of one period, in nanoseconds.
    pub interval: u64,
    /// Time accumulated in the current period.
    pub elapsed: u64,
    /// Whether the last tick completed a period.
    pub finished: bool,
    /// How many periods the last tick completed, modulo 2^32.
    pub times_finished: u32,
}

/// The timer after `delta` more nanoseconds. With a positive interval the
/// accumulated time wraps modulo the interval, and the tick is ready exactly
/// when the interval was reached. With the interval 0 every tick is ready
/// and nothing accumulates.
pub open spec fn ticked(t: Timer, delta: u64) -> Timer {
    if t.interval == 0 {
        Timer { interval: 0, elapsed: 0, finished: true, times_finished: u32::MAX }
    } else {
        Timer {
            interval: t.interval,
            elapsed: ((t.elapsed + delta) % (t.interval as int)) as u64,
            finished: t.elapsed + delta >= t.interval,
            times_finished: (((t.elapsed + delta) / (t.interval as int)) % 0x1_0000_0000) as u32,
        }
    }
}

/// A timer at the start of its first period.
pub open spec fn fresh(interval: u64) -> Timer {
    Timer { interval, elapsed: 0, finished: false, times_finished: 0 }
}

/// Ticks a repeating `bevy_time::Timer`: one made by `Timer::new` with the
/// duration `interval`, set to `elapsed` by `Timer::set_elapsed`, is advanced
/// by `Timer::tick`, and `Timer::elapsed`, `Timer::finished` and
/// `Timer::times_finished_this_tick` are read back; all durations are whole
/// nanoseconds. The contract says what `Timer::tick` does to a repeating
/// timer that is not paused: it adds `delta`, is finished when the sum has
/// reached the duration, and then keeps the remainder of the sum by the
/// duration and counts the quotient, cut to 32 bits; with a zero duration
/// it keeps nothing and counts `u32::MAX`.
#[verifier::external_body]
fn tick_repeating(interval: u64, elapsed: u64, delta: u64) -> (r: Timer)
    ensures
        r == ticked(Timer { interval, elapsed, finished: false, times_finished: 0 }, delta),
{
    let mut timer = bevy_time::Timer::new(
        std::time::Duration::from_nanos(interval),
        bevy_time::TimerMode::Repeating,
    );
    timer.set_elapsed(std::time::Duration::from_nanos(elapsed));
    timer.tick(std::time::Duration::from_nanos(delta));
    Timer {
        interval,
        elapsed: timer.elapsed().as_nanos() as u64,
        finished: timer.finished(),
        times_finished: timer.times_finished_this_tick(),
    }
}

impl Timer {
    /// The interval is positive and the accumulated time lies below it.
    pub open spec fn wf(&self) -> bool {
        self.interval > 0 && self.elapsed < self.interval
    }

    /// A fresh repeating timer with the given period.
    pub fn from_nanos(interval: u64) -> (t: Timer)
        ensures
            t == fresh(interval),
    {
        Timer { interval, elapsed: 0, finished: false, times_finished: 0 }
    }

    /// Advances the timer by `delta` nanoseconds.
    pub fn tick(&mut self, delta: u64)
        ensures
            *final(self) == ticked(*old(self), delta),
            old(self).interval > 0 ==> final(self).wf(),
    {
        proof {
            if self.interval > 0 {
                lemma_remainder(self.elapsed as int + delta as int, self.interval as int);
            }
        }
        let next = tick_repeating(self.interval, self.elapsed, delta);
        self.elapsed = next.elapsed;
        self.finished = next.finished;
        self.times_finished = next.times_finished;
    }

    /// Whether the last tick completed a period.
    pub fn finished(&self) -> (ready: bool)
        ensures
            ready == self.finished,
    {
        self.finished
    }
}

/// The remainder lies below the divisor, and quotient and remainder give
/// the dividend back.
pub proof fn lemma_remainder(total: int, interval: int)
    requires
        0 <= total,
        0 < interval,
    ensures
        0 <= total % interval < interval,
        0 <= total / interval,
        total % interval + interval * (total / interval) == total,
        total >= interval <==> total / interval >= 1,
{
    let q = total / interval;
    let r = total % interval;
    assert(0 <= r < interval && total == interval * q + r) by (nonlinear_arith)
        requires
            interval > 0,
            q == total / interval,
            r == total % interval,
    ;
    assert(q >= 0 && (q >= 1 <==> total >= interval)) by (nonlinear_arith)
        requires
            total == interval * q + r,
            0 <= r < interval,
            total >= 0,
    ;
}

/// The timer that paces the spawning of stars.
#[derive(Clone, Copy, Debug, PartialEq, Eq, Structural)]
pub struct StarSpawnTimer {
    pub timer: Timer,
}

impl Default for StarSpawnTimer {
    fn default() -> (t: StarSpawnTimer)
        ensures
            t.timer == fresh(STAR_SPAWN_INTERVAL),
    {
        StarSpawnTimer { timer: Timer::from_nanos(STAR_SPAWN_INTERVAL) }
    }
}

/// The timer that paces the spawning of enemies.
#[derive(Clone, Copy, Debug, PartialEq, Eq, Structural)]
pub struct SpawnEmemyTimer {
    pub timer: Timer,
}

impl Default for SpawnEmemyTimer {
    fn default() -> (t: SpawnEmemyTimer)
        ensures
            t.timer == fresh(ENEMY_SPAWN_INTERVAL),
    {
        SpawnEmemyTimer { timer: Timer::from_nanos(ENEMY_SPAWN_INTERVAL) }
    }
}

} // verus!
