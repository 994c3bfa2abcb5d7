//! A mid price that walks up by a fixed step, for trials.

use crate::decimal::Decimal;
use vstd::prelude::*;

verus! {

/// A simulated mid price.
#[derive(Debug, Clone, Copy)]
pub struct PriceSim {
    mid: Decimal,
    step: Decimal,
}

impl PriceSim {
    /// The mid as it stands.
    pub closed spec fn mid_of(self) -> Decimal {
        self.mid
    }

    /// A simulation that starts at `start` and walks in steps of `0.1`.
    pub fn new(start: Decimal) -> (r: PriceSim)
        ensures
            r.mid_of() == start,
    {
        PriceSim { mid: start, step: Decimal::new(1, 1) }
    }

    /// Moves the mid up by one step and returns it, or returns `None`, the
    /// mid unchanged, where the sum overflows.
    pub fn tick(&mut self) -> (r: Option<Decimal>)
        ensures
            r == old(self).mid_of().plus(Decimal::of(1, 1)),
            match r {
                Some(m) => final(self).mid_of() == m,
                None => final(self).mid_of() == old(self).mid_of(),
            },
    {
        proof {
            use_type_invariant(&*self);
        }
        match self.mid.checked_add(self.step) {
            Some(m) => {
                self.mid = m;
                Some(m)
            },
            None => None,
        }
    }

    /// The step is `0.1`.
    #[verifier::type_invariant]
    closed spec fn step_is_tenth(self) -> bool {
        self.step == Decimal::of(1, 1)
    }
}

} // verus!
