//! The countdown that decides when the transition overlay is despawned.
//!
//! Once the transition commits, the overlay carries a [`DespawnTimer`]
//! initialized to the requested duration.  Every update cycle the shell ticks
//! the timer by the elapsed frame time; when the accumulated time reaches the
//! duration the timer finishes and the overlay is despawned.

use vstd::prelude::*;

verus! {

/// A one-shot countdown over milliseconds of accumulated frame time.
#[derive(Clone, Copy, Debug, PartialEq, Eq, Structural)]
pub struct DespawnTimer {
    /// How long the overlay stays, in milliseconds.
    pub duration: u64,
    /// How much frame time has accumulated so far, in milliseconds.
    /// Never exceeds `duration`: time past the end is not counted.
    pub elapsed: u64,
}

/// The elapsed time never runs past the duration.
pub open spec fn timer_wf(t: DespawnTimer) -> bool {
    t.elapsed <= t.duration
}

/// A timer has finished once its accumulated time has reached its duration.
pub open spec fn spec_finished(t: DespawnTimer) -> bool {
    t.elapsed >= t.duration
}

/// What one tick by `delta` milliseconds does: the elapsed time grows by
/// `delta`, capped at the duration.
pub open spec fn spec_tick(t: DespawnTimer, delta: u64) -> DespawnTimer {
    DespawnTimer {
        duration: t.duration,
        elapsed: if t.elapsed + delta >= t.duration {
            t.duration
        } else {
            (t.elapsed + delta) as u64
        },
    }
}

/// The timer after ticking through a whole sequence of frame times.
pub open spec fn spec_ticked(t: DespawnTimer, deltas: Seq<u64>) -> DespawnTimer
    decreases deltas.len(),
{
    if deltas.len() == 0 {
        t
    } else {
        spec_ticked(spec_tick(t, deltas[0]), deltas.drop_first())
    }
}

/// The total of a sequence of frame times.
pub open spec fn total_time(deltas: Seq<u64>) -> int
    decreases deltas.len(),
{
    if deltas.len() == 0 {
        0int
    } else {
        deltas[0] + total_time(deltas.drop_first())
    }
}

impl DespawnTimer {
    /// A fresh countdown over `duration` milliseconds.
    pub fn new(duration: u64) -> (t: Self)
        ensures
            t == (DespawnTimer { duration, elapsed: 0u64 }),
            timer_wf(t),
    {
        DespawnTimer { duration, elapsed: 0 }
    }

    /// Advances the countdown by `delta` milliseconds of frame time and
    /// reports whether it has now finished.
    pub fn tick(&mut self, delta: u64) -> (finished: bool)
        requires
            timer_wf(*old(self)),
        ensures
            timer_wf(*final(self)),
            *final(self) == spec_tick(*old(self), delta),
            finished == spec_finished(*final(self)),
    {
        let remaining: u64 = self.duration - self.elapsed;
        if delta >= remaining {
            self.elapsed = self.duration;
            true
        } else {
            self.elapsed = self.elapsed + delta;
            false
        }
    }

    /// Whether the countdown has finished.
    pub fn finished(&self) -> (r: bool)
        ensures
            r == spec_finished(*self),
    {
        self.elapsed >= self.duration
    }
}

/// A sequence of frame times totals a nonnegative amount of time.
proof fn lemma_total_time_nonneg(deltas: Seq<u64>)
    ensures
        total_time(deltas) >= 0,
    decreases deltas.len(),
{
    if deltas.len() != 0 {
        lemma_total_time_nonneg(deltas.drop_first());
    }
}

/// The overlay's countdown finishes exactly when the accumulated frame time
/// reaches what is still missing of the duration — so an overlay whose timer
/// was initialized to the requested duration is despawned if and only if at
/// least that much frame time has accumulated since.
pub proof fn lemma_finished_iff_time_elapsed(t: DespawnTimer, deltas: Seq<u64>)
    requires
        timer_wf(t),
    ensures
        spec_finished(spec_ticked(t, deltas)) <==> t.elapsed + total_time(deltas) >= t.duration,
    decreases deltas.len(),
{
    if deltas.len() == 0 {
    } else {
        let t2 = spec_tick(t, deltas[0]);
        lemma_finished_iff_time_elapsed(t2, deltas.drop_first());
        if t.elapsed + deltas[0] >= t.duration {
            lemma_total_time_nonneg(deltas.drop_first());
        }
    }
}

/// The despawn condition for a whole transition: a timer freshly initialized
/// to `duration` finishes under a sequence of frame times exactly when they
/// total at least `duration`.
pub proof fn lemma_despawn_iff_duration_elapsed(duration: u64, deltas: Seq<u64>)
    ensures
        spec_finished(spec_ticked(DespawnTimer { duration, elapsed: 0u64 }, deltas)) <==> total_time(
            deltas,
        ) >= duration,
{
    lemma_finished_iff_time_elapsed(DespawnTimer { duration, elapsed: 0u64 }, deltas);
}

} // verus!
