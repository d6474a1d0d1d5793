use vstd::prelude::*;

verus! {

/// Bookkeeping of the producer of arrivals: exactly `total` attempts, each
/// either delivered to the dispatcher or dropped under back-pressure.
pub struct Generator {
    pub total: u64,
    pub attempted: u64,
    pub delivered: u64,
}

impl Generator {
    pub open spec fn wf(&self) -> bool {
        self.delivered <= self.attempted <= self.total
    }

    /// A producer that will make `total` attempts.
    pub fn new(total: u64) -> (g: Generator)
        ensures
            g.wf(),
            g.total == total,
            g.attempted == 0,
            g.delivered == 0,
    {
        Generator { total, attempted: 0, delivered: 0 }
    }

    /// Whether another plane is still to be produced.
    pub fn has_next(&self) -> (r: bool)
        ensures
            r == (self.attempted < self.total),
    {
        self.attempted < self.total
    }

    /// Records one attempt; `delivered` tells whether the arrival queue took
    /// the plane. A dropped plane still counts as an attempt.
    pub fn record(&mut self, delivered: bool)
        requires
            old(self).wf(),
            old(self).attempted < old(self).total,
        ensures
            final(self).wf(),
            final(self).total == old(self).total,
            final(self).attempted == old(self).attempted + 1,
            final(self).delivered == old(self).delivered + if delivered { 1int } else { 0int },
    {
        self.attempted = self.attempted + 1;
        if delivered {
            self.delivered = self.delivered + 1;
        }
    }

    /// Planes dropped under back-pressure so far.
    pub fn lost(&self) -> (r: u64)
        requires
            self.wf(),
        ensures
            r == self.attempted - self.delivered,
    {
        self.attempted - self.delivered
    }
}

} // verus!
