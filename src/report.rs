use vstd::prelude::*;

use crate::plane::Plane;

verus! {

/// Sum of the values of `s`.
pub open spec fn sum_of(s: Seq<u64>) -> int
    decreases s.len(),
{
    if s.len() == 0 {
        0
    } else {
        sum_of(s.drop_last()) + s.last()
    }
}

proof fn lemma_sum_bound(s: Seq<u64>)
    ensures
        0 <= sum_of(s) <= s.len() * (u64::MAX as int),
    decreases s.len(),
{
    if s.len() > 0 {
        lemma_sum_bound(s.drop_last());
    }
}

/// Metrics of a finished run. Times are milliseconds.
#[derive(Clone, Copy, Debug, PartialEq, Eq, Structural)]
pub struct Report {
    /// Planes that completed their service.
    pub accepted: u64,
    /// Planes that did not: refused at admission or lost to back-pressure.
    pub denied: u64,
    /// Mean service time, rounded down; `None` when no plane was accepted.
    pub average: Option<u64>,
}

/// The service times of the planes that completed, in order of completion.
pub struct Collector {
    pub service_times: Vec<u64>,
}

impl Collector {
    /// A collector that has received nothing.
    pub fn new() -> (c: Collector)
        ensures
            c.service_times@ == Seq::<u64>::empty(),
    {
        Collector { service_times: Vec::new() }
    }

    /// Records that `plane` completed at time `now` (same clock as
    /// `created_at`); returns its service time.
    pub fn record(&mut self, plane: &Plane, now: u64) -> (t: u64)
        requires
            plane.created_at <= now,
        ensures
            t == now - plane.created_at,
            final(self).service_times@ == old(self).service_times@.push(t),
    {
        let t = now - plane.created_at;
        self.service_times.push(t);
        t
    }

    /// The metrics of a run of `total` planes once every completion has been
    /// recorded: accepted and denied planes together make `total`.
    pub fn report(&self, total: u64) -> (r: Report)
        requires
            self.service_times@.len() <= total,
        ensures
            r.accepted == self.service_times@.len(),
            r.accepted + r.denied == total,
            r.average == if self.service_times@.len() == 0 {
                None::<u64>
            } else {
                Some((sum_of(self.service_times@) / (self.service_times@.len() as int)) as u64)
            },
    {
        let n = self.service_times.len();
        let mut sum: u128 = 0;
        let mut i: usize = 0;
        while i < n
            invariant
                n == self.service_times@.len(),
                n <= total,
                i <= n,
                sum == sum_of(self.service_times@.subrange(0, i as int)),
            decreases n - i,
        {
            proof {
                let s = self.service_times@;
                assert(s.subrange(0, i + 1).drop_last() =~= s.subrange(0, i as int));
                lemma_sum_bound(s.subrange(0, i as int));
                assert(sum + s[i as int] <= (i + 1) * (u64::MAX as int)) by (nonlinear_arith)
                    requires
                        sum <= i * (u64::MAX as int),
                        s[i as int] <= u64::MAX,
                ;
                assert((i + 1) * (u64::MAX as int) <= (u64::MAX as int) * (u64::MAX as int))
                    by (nonlinear_arith)
                    requires
                        i + 1 <= n,
                        n <= u64::MAX,
                ;
            }
            sum = sum + self.service_times[i] as u128;
            i = i + 1;
        }
        proof {
            assert(self.service_times@.subrange(0, n as int) =~= self.service_times@);
        }
        let accepted = n as u64;
        let average = if n == 0 {
            None
        } else {
            proof {
                lemma_sum_bound(self.service_times@);
                assert((sum as int) / (n as int) <= u64::MAX) by (nonlinear_arith)
                    requires
                        sum <= n * (u64::MAX as int),
                        n > 0,
                ;
            }
            Some((sum / (n as u128)) as u64)
        };
        Report { accepted, denied: total - accepted, average }
    }
}

} // verus!
