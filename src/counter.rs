//! A click counter.
use vstd::prelude::*;

verus! {

pub struct CounterModel(u32);

impl View for CounterModel {
    type V = nat;

    closed spec fn view(&self) -> nat {
        self.0 as nat
    }
}

impl CounterModel {
    pub fn new() -> (r: CounterModel)
        ensures
            r@ == 0,
    {
        CounterModel(0)
    }

    pub fn count(&self) -> (r: u32)
        ensures
            r == self@,
    {
        self.0
    }

    /// Counts one click; the count stays at its largest value once there.
    pub fn increment(&mut self)
        ensures
            final(self)@ == if old(self)@ < u32::MAX {
                old(self)@ + 1
            } else {
                old(self)@
            },
    {
        if self.0 < u32::MAX {
            self.0 = self.0 + 1;
        }
    }
}

} // verus!
