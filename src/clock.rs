use vstd::prelude::*;

verus! {

/// Turns elapsed wall-clock time into whole fixed simulation steps, carrying
/// the remainder over to the next call.
#[derive(Clone, Copy, Debug, PartialEq, Eq, Structural)]
pub struct FrameClock {
    /// Length of one step, in nanoseconds.
    pub step: u64,
    /// Time accumulated towards the next step.
    pub accumulated: u64,
}

impl FrameClock {
    pub open spec fn wf(self) -> bool {
        0 < self.step && self.accumulated < self.step
    }

    /// A clock with steps of `step` nanoseconds and nothing accumulated.
    pub fn new(step: u64) -> (r: FrameClock)
        requires
            step > 0,
        ensures
            r.wf(),
            r.step == step,
            r.accumulated == 0,
    {
        FrameClock { step, accumulated: 0 }
    }

    /// Adds `delta` nanoseconds and returns how many whole steps are due.
    pub fn advance(&mut self, delta: u64) -> (steps: u64)
        requires
            old(self).wf(),
        ensures
            final(self).wf(),
            final(self).step == old(self).step,
            steps * old(self).step + final(self).accumulated == old(self).accumulated + delta,
    {
        let step = self.step as u128;
        let total: u128 = self.accumulated as u128 + delta as u128;
        let steps = total / step;
        let rest = total % step;
        assert(steps * step + rest == total) by (nonlinear_arith)
            requires
                step > 0,
                steps == total / step,
                rest == total % step,
        ;
        if steps > u64::MAX as u128 {
            assert(steps * step >= 0x1_0000_0000_0000_0000 * step) by (nonlinear_arith)
                requires
                    steps >= 0x1_0000_0000_0000_0000,
                    step >= 1,
            ;
        }
        self.accumulated = rest as u64;
        steps as u64
    }
}

} // verus!
