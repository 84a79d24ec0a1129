//! Multi-dimensional execution costs and the tenure budget tracker.

use vstd::prelude::*;

verus! {

/// The resource cost of executing some piece of work, metered in the five
/// dimensions the protocol charges for.
#[derive(Clone, Copy, PartialEq, Eq, Structural, Debug)]
pub struct ExecutionCost {
    pub write_length: u64,
    pub write_count: u64,
    pub read_length: u64,
    pub read_count: u64,
    pub runtime: u64,
}

/// The cost that charges nothing in any dimension.
pub open spec fn cost_zero() -> ExecutionCost {
    ExecutionCost {
        write_length: 0,
        write_count: 0,
        read_length: 0,
        read_count: 0,
        runtime: 0,
    }
}

/// Whether `a + b` fits in `u64` in every dimension.
pub open spec fn cost_fits(a: ExecutionCost, b: ExecutionCost) -> bool {
    &&& a.write_length + b.write_length <= u64::MAX
    &&& a.write_count + b.write_count <= u64::MAX
    &&& a.read_length + b.read_length <= u64::MAX
    &&& a.read_count + b.read_count <= u64::MAX
    &&& a.runtime + b.runtime <= u64::MAX
}

/// Dimension-wise sum, meaningful when `cost_fits(a, b)` holds.
pub open spec fn cost_add(a: ExecutionCost, b: ExecutionCost) -> ExecutionCost {
    ExecutionCost {
        write_length: (a.write_length + b.write_length) as u64,
        write_count: (a.write_count + b.write_count) as u64,
        read_length: (a.read_length + b.read_length) as u64,
        read_count: (a.read_count + b.read_count) as u64,
        runtime: (a.runtime + b.runtime) as u64,
    }
}

/// Dimension-wise sum clamped to `u64::MAX`.
pub open spec fn cost_saturating_add(a: ExecutionCost, b: ExecutionCost) -> ExecutionCost {
    ExecutionCost {
        write_length: sat_add(a.write_length, b.write_length),
        write_count: sat_add(a.write_count, b.write_count),
        read_length: sat_add(a.read_length, b.read_length),
        read_count: sat_add(a.read_count, b.read_count),
        runtime: sat_add(a.runtime, b.runtime),
    }
}

pub open spec fn sat_add(a: u64, b: u64) -> u64 {
    if a + b <= u64::MAX {
        (a + b) as u64
    } else {
        u64::MAX
    }
}

/// Whether `self` is over `limit` in at least one dimension.
pub open spec fn cost_exceeds(c: ExecutionCost, limit: ExecutionCost) -> bool {
    ||| c.write_length > limit.write_length
    ||| c.write_count > limit.write_count
    ||| c.read_length > limit.read_length
    ||| c.read_count > limit.read_count
    ||| c.runtime > limit.runtime
}

/// The percentage that `num` represents of `limit` in one dimension,
/// computed against one hundredth of the limit (at least 1, so that a tiny
/// limit still yields a usable percentage).
pub open spec fn proportion_dim(num: u64, limit: u64) -> int {
    num as int / (if limit as int / 100 < 1 {
        1int
    } else {
        limit as int / 100
    })
}

pub open spec fn max2(a: int, b: int) -> int {
    if a >= b {
        a
    } else {
        b
    }
}

/// The largest percentage, over the five dimensions, that `num` represents
/// of the limit `limit`.
pub open spec fn spec_proportion_largest_dimension(limit: ExecutionCost, num: ExecutionCost) -> int {
    max2(
        proportion_dim(num.runtime, limit.runtime),
        max2(
            proportion_dim(num.write_length, limit.write_length),
            max2(
                proportion_dim(num.write_count, limit.write_count),
                max2(
                    proportion_dim(num.read_length, limit.read_length),
                    proportion_dim(num.read_count, limit.read_count),
                ),
            ),
        ),
    )
}

impl ExecutionCost {
    pub fn zero() -> (c: ExecutionCost)
        ensures
            c == cost_zero(),
    {
        ExecutionCost {
            write_length: 0,
            write_count: 0,
            read_length: 0,
            read_count: 0,
            runtime: 0,
        }
    }

    /// Dimension-wise sum, or `None` when a dimension would overflow `u64`.
    pub fn checked_add(&self, other: &ExecutionCost) -> (r: Option<ExecutionCost>)
        ensures
            r is Some <==> cost_fits(*self, *other),
            r is Some ==> r->Some_0 == cost_add(*self, *other),
    {
        let wl = self.write_length.checked_add(other.write_length);
        let wc = self.write_count.checked_add(other.write_count);
        let rl = self.read_length.checked_add(other.read_length);
        let rc = self.read_count.checked_add(other.read_count);
        let rt = self.runtime.checked_add(other.runtime);
        match (wl, wc, rl, rc, rt) {
            (Some(wl), Some(wc), Some(rl), Some(rc), Some(rt)) => Some(
                ExecutionCost {
                    write_length: wl,
                    write_count: wc,
                    read_length: rl,
                    read_count: rc,
                    runtime: rt,
                },
            ),
            _ => None,
        }
    }

    /// Dimension-wise sum clamped to `u64::MAX`.
    pub fn saturating_add(&self, other: &ExecutionCost) -> (r: ExecutionCost)
        ensures
            r == cost_saturating_add(*self, *other),
    {
        ExecutionCost {
            write_length: self.write_length.saturating_add(other.write_length),
            write_count: self.write_count.saturating_add(other.write_count),
            read_length: self.read_length.saturating_add(other.read_length),
            read_count: self.read_count.saturating_add(other.read_count),
            runtime: self.runtime.saturating_add(other.runtime),
        }
    }

    /// Whether `self` is over `limit` in at least one dimension.
    pub fn exceeds(&self, limit: &ExecutionCost) -> (r: bool)
        ensures
            r == cost_exceeds(*self, *limit),
    {
        self.write_length > limit.write_length || self.write_count > limit.write_count
            || self.read_length > limit.read_length || self.read_count > limit.read_count
            || self.runtime > limit.runtime
    }

    /// With `self` as the budget ceiling: the largest percentage of any one
    /// dimension of the ceiling that `numerator` already consumes.
    pub fn proportion_largest_dimension(&self, numerator: &ExecutionCost) -> (r: u64)
        ensures
            r as int == spec_proportion_largest_dimension(*self, *numerator),
    {
        let rt = Self::proportion_of_dim(numerator.runtime, self.runtime);
        let wl = Self::proportion_of_dim(numerator.write_length, self.write_length);
        let wc = Self::proportion_of_dim(numerator.write_count, self.write_count);
        let rl = Self::proportion_of_dim(numerator.read_length, self.read_length);
        let rc = Self::proportion_of_dim(numerator.read_count, self.read_count);
        let mut m = rt;
        if wl > m {
            m = wl;
        }
        if wc > m {
            m = wc;
        }
        if rl > m {
            m = rl;
        }
        if rc > m {
            m = rc;
        }
        m
    }

    fn proportion_of_dim(num: u64, limit: u64) -> (r: u64)
        ensures
            r as int == proportion_dim(num, limit),
    {
        let hundredth = limit / 100;
        if hundredth < 1 {
            num
        } else {
            num / hundredth
        }
    }
}

/// A running cost total compared against a fixed per-tenure ceiling.
///
/// The total is only ever moved by [`LimitedCostTracker::charge`] during
/// settlement, or by an explicit [`LimitedCostTracker::set_total`] from the
/// replay driver when it rolls a tenure over.
#[derive(Clone, Copy, PartialEq, Eq, Structural, Debug)]
pub struct LimitedCostTracker {
    pub total: ExecutionCost,
    pub limit: ExecutionCost,
}

impl LimitedCostTracker {
    pub fn new(limit: ExecutionCost) -> (t: LimitedCostTracker)
        ensures
            t.limit == limit,
            t.total == cost_zero(),
    {
        LimitedCostTracker { total: ExecutionCost::zero(), limit }
    }

    pub fn get_total(&self) -> (c: ExecutionCost)
        ensures
            c == self.total,
    {
        self.total
    }

    pub fn set_total(&mut self, total: ExecutionCost)
        ensures
            final(self).total == total,
            final(self).limit == old(self).limit,
    {
        self.total = total;
    }

    /// Charge `cost` against the remaining budget. On success the total
    /// advances by exactly `cost`; on failure (the sum leaves `u64` or goes
    /// over the ceiling) the total is left at the clamped sum, over the
    /// ceiling, as a partially charged execution would leave it — the caller
    /// decides whether to restore or reset it.
    pub fn charge(&mut self, cost: &ExecutionCost) -> (ok: bool)
        ensures
            ok == (cost_fits(old(self).total, *cost) && !cost_exceeds(
                cost_add(old(self).total, *cost),
                old(self).limit,
            )),
            ok ==> final(self).total == cost_add(old(self).total, *cost),
            !ok ==> final(self).total == cost_saturating_add(old(self).total, *cost),
            final(self).limit == old(self).limit,
    {
        match self.total.checked_add(cost) {
            Some(sum) => {
                if sum.exceeds(&self.limit) {
                    self.total = sum;
                    false
                } else {
                    self.total = sum;
                    true
                }
            },
            None => {
                self.total = self.total.saturating_add(cost);
                false
            },
        }
    }
}

} // verus!
