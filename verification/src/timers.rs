use vstd::prelude::*;

verus! {

/// Gravity tick period: a tenth of a second, in microseconds.
pub const GRAVITY_PERIOD_MICROS: u64 = 100_000;

/// Horizontal-move and rotation repeat period: a fifth of a second, in
/// microseconds.
pub const MOVE_PERIOD_MICROS: u64 = 200_000;

/// A repeating countdown: it fires whenever the accumulated time reaches
/// its period and keeps the remainder, so it fires at most once per call
/// however large the elapsed slice is.
#[derive(Clone, Copy, PartialEq, Eq, Structural, Debug)]
pub struct RepeatTimer {
    pub elapsed: u64,
    pub period: u64,
}

/// Whether a repeating timer fires when advanced by the given slice.
pub open spec fn repeat_fires(t: RepeatTimer, delta: u64) -> bool {
    t.elapsed + delta >= t.period
}

/// A repeating timer after it advances by the given slice.
pub open spec fn repeat_after(t: RepeatTimer, delta: u64) -> RepeatTimer {
    RepeatTimer { elapsed: ((t.elapsed + delta) % (t.period as int)) as u64, period: t.period }
}

impl RepeatTimer {
    /// Well-formedness: a positive period, with less than one period
    /// accumulated.
    pub open spec fn wf(self) -> bool {
        0 < self.period && self.elapsed < self.period
    }

    /// A fresh repeating timer with nothing accumulated.
    pub fn new(period: u64) -> (t: RepeatTimer)
        requires
            period > 0,
        ensures
            t.wf(),
            t.period == period,
            t.elapsed == 0,
    {
        RepeatTimer { elapsed: 0, period }
    }

    /// Advances the timer by an elapsed slice and reports whether it fired.
    pub fn advance(&mut self, delta: u64) -> (fired: bool)
        requires
            old(self).wf(),
            delta <= u64::MAX - old(self).period,
        ensures
            final(self).wf(),
            fired == repeat_fires(*old(self), delta),
            *final(self) == repeat_after(*old(self), delta),
    {
        let total = self.elapsed + delta;
        self.elapsed = total % self.period;
        total >= self.period
    }
}

/// A one-shot gate: while its period has not elapsed it refuses; once the
/// accumulated time reaches the period it admits a single evaluation and
/// restarts from zero, whether or not the evaluation led to a move.
#[derive(Clone, Copy, PartialEq, Eq, Structural, Debug)]
pub struct GateTimer {
    pub elapsed: u64,
    pub period: u64,
}

/// Whether a gate admits an evaluation when advanced by the given slice.
pub open spec fn gate_fires(t: GateTimer, delta: u64) -> bool {
    t.elapsed + delta >= t.period
}

/// A gate after it advances by the given slice: restarted if it fired,
/// accumulating otherwise.
pub open spec fn gate_after(t: GateTimer, delta: u64) -> GateTimer {
    GateTimer {
        elapsed: if gate_fires(t, delta) {
            0
        } else {
            (t.elapsed + delta) as u64
        },
        period: t.period,
    }
}

impl GateTimer {
    /// Well-formedness: a positive period not yet reached.
    pub open spec fn wf(self) -> bool {
        0 < self.period && self.elapsed < self.period
    }

    /// A fresh gate with nothing accumulated.
    pub fn new(period: u64) -> (t: GateTimer)
        requires
            period > 0,
        ensures
            t.wf(),
            t.period == period,
            t.elapsed == 0,
    {
        GateTimer { elapsed: 0, period }
    }

    /// Advances this gate by an elapsed slice and reports whether it admits
    /// an evaluation this frame; if it does, it restarts at once.
    pub fn advance(&mut self, delta: u64) -> (fired: bool)
        requires
            old(self).wf(),
            delta <= u64::MAX - old(self).period,
        ensures
            final(self).wf(),
            fired == gate_fires(*old(self), delta),
            *final(self) == gate_after(*old(self), delta),
    {
        let total = self.elapsed + delta;
        if total >= self.period {
            self.elapsed = 0;
            true
        } else {
            self.elapsed = total;
            false
        }
    }
}

} // verus!
