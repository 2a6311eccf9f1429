use vstd::prelude::*;

use crate::window::{mean, recent, total, total_concat, total_push};

verus! {

/// Running mean over the last `capacity` values of a stream, kept in a ring.
///
/// Until the ring has been filled, `values` grows and `position` is its length; afterwards
/// `position` is the slot that the next value overwrites, which holds the oldest value.
pub struct MovingAverage {
    values: Vec<i64>,
    position: usize,
    capacity: usize,
}

/// Relies on `num_traits::FromPrimitive::from_usize` for `i128`: every `usize` fits.
#[verifier::external_body]
fn count_as_i128(n: usize) -> (r: Option<i128>)
    ensures
        r == Some(n as i128),
{
    <i128 as num_traits::FromPrimitive>::from_usize(n)
}

impl MovingAverage {
    pub closed spec fn wf(&self) -> bool {
        &&& 0 < self.capacity
        &&& self.values.len() <= self.capacity
        &&& self.position < self.capacity
        &&& self.values.len() < self.capacity ==> self.position == self.values.len()
    }

    pub closed spec fn capacity_spec(&self) -> nat {
        self.capacity as nat
    }

    /// The values that the mean is taken over, oldest first.
    pub closed spec fn window(&self) -> Seq<i64> {
        if self.values.len() < self.capacity {
            self.values@
        } else {
            self.values@.subrange(self.position as int, self.values.len() as int)
                + self.values@.subrange(0, self.position as int)
        }
    }

    proof fn window_total(&self)
        requires
            self.wf(),
        ensures
            total(self.window()) == total(self.values@),
            self.window().len() == self.values.len(),
    {
        if self.values.len() >= self.capacity {
            let a = self.values@.subrange(0, self.position as int);
            let b = self.values@.subrange(self.position as int, self.values.len() as int);
            total_concat(b, a);
            total_concat(a, b);
            assert(a + b =~= self.values@);
        }
    }

    pub fn new(size: usize) -> (r: MovingAverage)
        requires
            size > 0,
        ensures
            r.wf(),
            r.capacity_spec() == size,
            r.window() == Seq::<i64>::empty(),
    {
        MovingAverage { values: Vec::with_capacity(size), position: 0, capacity: size }
    }

    /// Records `new_val`, overwriting the oldest value once the ring is full, and returns the
    /// new mean (rounded toward zero).
    pub fn add(&mut self, new_val: i64) -> (r: i64)
        requires
            old(self).wf(),
        ensures
            final(self).wf(),
            final(self).capacity_spec() == old(self).capacity_spec(),
            final(self).window() == recent(old(self).window().push(new_val), old(self).capacity_spec()),
            r == mean(final(self).window()),
    {
        let ghost w = self.window();
        let ghost v = self.values@;
        let ghost p = self.position as int;
        if self.values.len() < self.capacity {
            self.values.push(new_val);
            self.position = if self.position + 1 == self.capacity {
                0
            } else {
                self.position + 1
            };
            assert(w == v);
            assert(self.values@ == v.push(new_val));
            if self.values.len() == self.capacity {
                assert(self.position == 0);
                assert(self.values@.subrange(0, self.values.len() as int) =~= self.values@);
                assert(self.window() =~= self.values@);
            }
            assert(self.window() =~= recent(w.push(new_val), self.capacity as nat));
        } else {
            self.values.set(self.position, new_val);
            self.position = if self.position + 1 == self.capacity {
                0
            } else {
                self.position + 1
            };
            let ghost cap = v.len() as int;
            let ghost r = recent(w.push(new_val), self.capacity as nat);
            assert(w.push(new_val).len() == cap + 1);
            assert(r =~= w.push(new_val).subrange(1, cap + 1));
            assert(self.values@ == v.update(p, new_val));
            assert forall|k: int| 0 <= k < cap implies #[trigger] self.window()[k] == r[k] by {
                if p + 1 == cap {
                    assert(self.position == 0);
                } else {
                    assert(self.position == p + 1);
                }
                if k < cap - p - 1 {
                    assert(r[k] == w[k + 1]);
                    assert(w[k + 1] == v[p + 1 + k]);
                } else if k < cap - 1 {
                    assert(r[k] == w[k + 1]);
                    assert(w[k + 1] == v[k + 1 - (cap - p)]);
                } else {
                    assert(r[k] == new_val);
                }
            }
            assert(self.window() =~= r);
        }
        self.average()
    }

    /// The most recently recorded value, or zero before the first one.
    pub fn last(&self) -> (r: i64)
        requires
            self.wf(),
        ensures
            r == if self.window().len() == 0 { 0 } else { self.window().last() },
    {
        if self.values.len() == 0 {
            0
        } else if self.position == 0 {
            self.values[self.values.len() - 1]
        } else {
            self.values[self.position - 1]
        }
    }

    /// Mean of the values in the window, rounded toward zero.
    pub fn average(&self) -> (r: i64)
        requires
            self.wf(),
            self.window().len() > 0,
        ensures
            r == mean(self.window()),
    {
        proof {
            self.window_total();
        }
        let n = self.values.len();
        let mut sum: i128 = 0;
        let mut i: usize = 0;
        while i < n
            invariant
                n == self.values.len(),
                i <= n,
                sum == total(self.values@.subrange(0, i as int)),
                -(i as int) * 0x8000_0000_0000_0000 <= sum <= (i as int) * 0x7fff_ffff_ffff_ffff,
            decreases n - i,
        {
            let x = self.values[i];
            proof {
                total_push(self.values@.subrange(0, i as int), x);
                assert(self.values@.subrange(0, i as int).push(x) =~= self.values@.subrange(
                    0,
                    i + 1,
                ));
                assert(i + 1 <= 0x1_0000_0000_0000_0000);
                assert((i as int + 1) * 0x8000_0000_0000_0000 <= 0x8000_0000_0000_0000_0000_0000_0000_0000)
                    by (nonlinear_arith)
                    requires
                        i as int + 1 <= 0x1_0000_0000_0000_0000,
                ;
                assert((i as int + 1) * 0x7fff_ffff_ffff_ffff == (i as int) * 0x7fff_ffff_ffff_ffff
                    + 0x7fff_ffff_ffff_ffff) by (nonlinear_arith);
                assert((i as int + 1) * 0x8000_0000_0000_0000 == (i as int) * 0x8000_0000_0000_0000
                    + 0x8000_0000_0000_0000) by (nonlinear_arith);
            }
            sum = sum + x as i128;
            i = i + 1;
        }
        assert(self.values@.subrange(0, n as int) =~= self.values@);
        let count = count_as_i128(n);
        let d: i128 = match count {
            Some(c) => c,
            None => 1,
        };
        let ghost ni = n as int;
        if sum >= 0 {
            let q = ((sum as u128) / (d as u128)) as i128;
            assert((sum as int) / ni <= 0x7fff_ffff_ffff_ffff) by (nonlinear_arith)
                requires
                    0 <= sum as int <= ni * 0x7fff_ffff_ffff_ffff,
                    ni > 0,
            ;
            q as i64
        } else {
            let m = (-sum) as u128;
            let q = (m / (d as u128)) as i128;
            assert((-(sum as int)) / ni <= 0x8000_0000_0000_0000) by (nonlinear_arith)
                requires
                    0 < -(sum as int) <= ni * 0x8000_0000_0000_0000,
                    ni > 0,
            ;
            (-q) as i64
        }
    }
}

/// Direction of the change between two consecutive means.
#[derive(Clone, Copy, Debug, PartialEq, Eq, Structural)]
pub enum Trend {
    Warming,
    Cooling,
}

/// `Warming` only when the new mean is strictly greater; an unchanged mean counts as cooling.
pub fn trend(previous: i64, current: i64) -> (r: Trend)
    ensures
        r == (if current > previous { Trend::Warming } else { Trend::Cooling }),
{
    if current > previous {
        Trend::Warming
    } else {
        Trend::Cooling
    }
}

impl Trend {
    pub fn label(&self) -> (r: String)
        ensures
            r@ == (match self {
                Trend::Warming => "warming"@,
                Trend::Cooling => "cooling"@,
            }),
    {
        match self {
            Trend::Warming => "warming".to_owned(),
            Trend::Cooling => "cooling".to_owned(),
        }
    }
}

} // verus!
