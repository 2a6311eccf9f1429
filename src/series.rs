use vstd::prelude::*;

use crate::projection::{describes, earliest_start, latest_end, ChartDataset, SeriesData};
use crate::timestamp::Timestamp;
use crate::window::{recent, recent_is_bounded};
use std::collections::VecDeque;

verus! {

/// How a device that is seen for the first time gets its palette index.
#[derive(Clone, Copy, Debug, PartialEq, Eq, Structural)]
pub enum ColorStrategy {
    /// The n-th distinct device (counting from zero) gets index `n % palette_size`.
    Deterministic,
    /// The index comes from a random draw supplied by the caller, taken `% palette_size`.
    Random,
}

/// One device's series as the contracts see it.
pub struct SeriesView<V> {
    pub device: Seq<char>,
    pub color: nat,
    pub points: Seq<(Timestamp, V)>,
}

/// The palette index that a device seen for the first time receives.
pub open spec fn first_color(strategy: ColorStrategy, seen: nat, draw: nat, palette_size: nat) -> nat {
    match strategy {
        ColorStrategy::Deterministic => seen % palette_size,
        ColorStrategy::Random => draw % palette_size,
    }
}

/// Index of `device` among the series, if it has one.
pub open spec fn holds_device<V>(v: Seq<SeriesView<V>>, device: Seq<char>) -> bool {
    exists|i: int| 0 <= i < v.len() && #[trigger] v[i].device == device
}

/// Series keys are pairwise distinct.
pub open spec fn distinct_devices<V>(v: Seq<SeriesView<V>>) -> bool {
    forall|i: int, j: int|
        0 <= i < v.len() && 0 <= j < v.len() && i != j ==> #[trigger] v[i].device != #[trigger] v[j].device
}

/// The series after one point arrives for `device`: an existing series gets the point
/// appended, dropping its oldest point beyond `cap`; an unseen device gets a new series
/// at the end, with palette index `color` and the point alone.
pub open spec fn after_insert<V>(
    v: Seq<SeriesView<V>>,
    cap: nat,
    color: nat,
    device: Seq<char>,
    p: (Timestamp, V),
) -> Seq<SeriesView<V>> {
    if holds_device(v, device) {
        let i = choose|i: int| 0 <= i < v.len() && #[trigger] v[i].device == device;
        v.update(
            i,
            SeriesView { device: v[i].device, color: v[i].color, points: recent(v[i].points.push(p), cap) },
        )
    } else {
        v.push(SeriesView { device, color, points: seq![p] })
    }
}

/// A device that already has a series keeps its palette index, and its series keeps exactly
/// the most recent `cap` of its points, whatever arrives and however many devices appear.
pub proof fn insert_keeps_colors_and_bounds<V>(
    v: Seq<SeriesView<V>>,
    cap: nat,
    color: nat,
    device: Seq<char>,
    p: (Timestamp, V),
    i: int,
)
    requires
        distinct_devices(v),
        0 <= i < v.len(),
    ensures
        after_insert(v, cap, color, device, p).len() >= v.len(),
        after_insert(v, cap, color, device, p)[i].device == v[i].device,
        after_insert(v, cap, color, device, p)[i].color == v[i].color,
        after_insert(v, cap, color, device, p)[i].points == if v[i].device == device {
            recent(v[i].points.push(p), cap)
        } else {
            v[i].points
        },
        v[i].device == device ==> after_insert(v, cap, color, device, p)[i].points.len() <= cap,
{
    if holds_device(v, device) {
        let k = choose|k: int| 0 <= k < v.len() && #[trigger] v[k].device == device;
        if v[i].device == device {
            assert(i == k);
        }
        recent_is_bounded(v[i].points.push(p), cap);
    } else {
        recent_is_bounded(v[i].points.push(p), cap);
    }
}

struct Series<V> {
    device: String,
    color: usize,
    points: VecDeque<(Timestamp, V)>,
}

impl<V> Series<V> {
    closed spec fn view(&self) -> SeriesView<V> {
        SeriesView { device: self.device@, color: self.color as nat, points: self.points@ }
    }
}

/// Per-device bounded histories of `(timestamp, value)` points, in arrival order, with the
/// palette index that each device was given when first seen.
pub struct SeriesStore<V> {
    series: Vec<Series<V>>,
    capacity: usize,
    palette_size: usize,
    strategy: ColorStrategy,
}

impl<V: Copy> SeriesStore<V> {
    /// The series, in the order their devices were first seen.
    pub closed spec fn view(&self) -> Seq<SeriesView<V>> {
        self.series@.map_values(|s: Series<V>| s.view())
    }

    pub closed spec fn capacity_spec(&self) -> nat {
        self.capacity as nat
    }

    pub closed spec fn palette_size_spec(&self) -> nat {
        self.palette_size as nat
    }

    pub closed spec fn strategy_spec(&self) -> ColorStrategy {
        self.strategy
    }

    /// Every series is non-empty and within capacity, has a color inside the palette, and
    /// no two series share a device.
    pub closed spec fn wf(&self) -> bool {
        &&& 0 < self.capacity
        &&& 0 < self.palette_size
        &&& distinct_devices(self.view())
        &&& forall|i: int|
            0 <= i < self.series.len() ==> {
                &&& 0 < (#[trigger] self.series[i]).points@.len() <= self.capacity
                &&& self.series[i].color < self.palette_size
            }
    }

    /// In every reachable store, no series exceeds the capacity, none is empty, each color
    /// lies inside the palette, and no device has two series.
    pub proof fn series_within_capacity(&self)
        requires
            self.wf(),
        ensures
            0 < self.capacity_spec(),
            0 < self.palette_size_spec(),
            distinct_devices(self.view()),
            forall|i: int|
                0 <= i < self.view().len() ==> {
                    &&& 0 < (#[trigger] self.view()[i]).points.len() <= self.capacity_spec()
                    &&& self.view()[i].color < self.palette_size_spec()
                },
    {
    }

    pub fn new(capacity: usize, palette_size: usize, strategy: ColorStrategy) -> (r: Self)
        requires
            capacity > 0,
            palette_size > 0,
        ensures
            r.wf(),
            r.view() == Seq::<SeriesView<V>>::empty(),
            r.capacity_spec() == capacity,
            r.palette_size_spec() == palette_size,
            r.strategy_spec() == strategy,
    {
        let r = SeriesStore { series: Vec::new(), capacity, palette_size, strategy };
        assert(r.view() =~= Seq::<SeriesView<V>>::empty());
        r
    }

    /// Index of the series of `device`, if it has one.
    fn find(&self, device: &String) -> (r: Option<usize>)
        requires
            self.wf(),
        ensures
            match r {
                Some(i) => i < self.view().len() && self.view()[i as int].device == device@,
                None => !holds_device(self.view(), device@),
            },
    {
        let n = self.series.len();
        let mut i: usize = 0;
        while i < n
            invariant
                n == self.series.len(),
                i <= n,
                forall|j: int| 0 <= j < i ==> (#[trigger] self.view()[j]).device != device@,
            decreases n - i,
        {
            if self.series[i].device == *device {
                return Some(i);
            }
            i = i + 1;
        }
        None
    }

    /// Appends a point to `device`'s series, evicting its oldest point when the series is
    /// at capacity. An unseen device gets a new series, colored by the store's strategy;
    /// `draw` is the random number that the `Random` strategy uses.
    pub fn insert(&mut self, device: &String, at: Timestamp, value: V, draw: usize)
        requires
            old(self).wf(),
        ensures
            final(self).wf(),
            final(self).capacity_spec() == old(self).capacity_spec(),
            final(self).palette_size_spec() == old(self).palette_size_spec(),
            final(self).strategy_spec() == old(self).strategy_spec(),
            final(self).view() == after_insert(
                old(self).view(),
                old(self).capacity_spec(),
                first_color(
                    old(self).strategy_spec(),
                    old(self).view().len(),
                    draw as nat,
                    old(self).palette_size_spec(),
                ),
                device@,
                (at, value),
            ),
    {
        let ghost v0 = self.view();
        match self.find(device) {
            Some(i) => {
                let mut s = self.series.remove(i);
                let ghost pts0 = s.points@;
                if s.points.len() >= self.capacity {
                    s.points.pop_front();
                }
                s.points.push_back((at, value));
                proof {
                    recent_is_bounded(pts0.push((at, value)), self.capacity as nat);
                    assert(s.points@ =~= recent(pts0.push((at, value)), self.capacity as nat));
                }
                self.series.insert(i, s);
                proof {
                    let k = choose|k: int| 0 <= k < v0.len() && #[trigger] v0[k].device == device@;
                    assert(k == i);
                    assert(self.view() =~= after_insert(
                        v0,
                        self.capacity as nat,
                        first_color(self.strategy, v0.len(), draw as nat, self.palette_size as nat),
                        device@,
                        (at, value),
                    ));
                }
            },
            None => {
                let seen = self.series.len();
                let color = match self.strategy {
                    ColorStrategy::Deterministic => seen % self.palette_size,
                    ColorStrategy::Random => draw % self.palette_size,
                };
                let mut points = VecDeque::with_capacity(self.capacity);
                points.push_back((at, value));
                self.series.push(Series { device: device.clone(), color, points });
                proof {
                    assert(self.view() =~= after_insert(
                        v0,
                        self.capacity as nat,
                        first_color(self.strategy, v0.len(), draw as nat, self.palette_size as nat),
                        device@,
                        (at, value),
                    ));
                }
            },
        }
    }

    /// Forgets every series and every color assignment.
    pub fn reset(&mut self)
        requires
            old(self).wf(),
        ensures
            final(self).wf(),
            final(self).view() == Seq::<SeriesView<V>>::empty(),
            final(self).capacity_spec() == old(self).capacity_spec(),
            final(self).palette_size_spec() == old(self).palette_size_spec(),
            final(self).strategy_spec() == old(self).strategy_spec(),
    {
        self.series.clear();
        assert(self.view() =~= Seq::<SeriesView<V>>::empty());
    }

    /// No series holds a point.
    pub fn is_empty(&self) -> (r: bool)
        requires
            self.wf(),
        ensures
            r == !(exists|i: int| 0 <= i < self.view().len() && #[trigger] self.view()[i].points.len() > 0),
    {
        if self.series.len() == 0 {
            true
        } else {
            assert(self.view()[0].points.len() > 0);
            false
        }
    }

    /// The drawable dataset: the outer time extent and, per series in the store's order,
    /// its device, palette index and points, oldest first. An empty store gives no extent
    /// and no series.
    pub fn project(&self) -> (r: ChartDataset<V>)
        requires
            self.wf(),
        ensures
            describes(&r, self.view()),
            r.time_extent is None <==> self.view().len() == 0,
    {
        let n = self.series.len();
        let mut first: Option<Timestamp> = None;
        let mut last: Option<Timestamp> = None;
        let mut out: Vec<SeriesData<V>> = Vec::new();
        let mut i: usize = 0;
        while i < n
            invariant
                self.wf(),
                n == self.series.len(),
                i <= n,
                first == earliest_start(self.view().subrange(0, i as int)),
                last == latest_end(self.view().subrange(0, i as int)),
                out.len() == i,
                forall|j: int|
                    0 <= j < i ==> {
                        &&& (#[trigger] out[j]).label@ == self.view()[j].device
                        &&& out[j].color == self.view()[j].color
                        &&& out[j].points@ == self.view()[j].points
                    },
            decreases n - i,
        {
            let s = &self.series[i];
            let m = s.points.len();
            assert(s.view() == self.view()[i as int]);
            let start = s.points[0].0;
            let end = s.points[m - 1].0;
            proof {
                let u = self.view().subrange(0, i + 1);
                assert(u.drop_last() =~= self.view().subrange(0, i as int));
                assert(u.last() == self.view()[i as int]);
            }
            first = match first {
                None => Some(start),
                Some(f) => if start.is_before(&f) {
                    Some(start)
                } else {
                    Some(f)
                },
            };
            last = match last {
                None => Some(end),
                Some(l) => if l.is_before(&end) {
                    Some(end)
                } else {
                    Some(l)
                },
            };
            let mut points: Vec<(Timestamp, V)> = Vec::with_capacity(m);
            let mut k: usize = 0;
            while k < m
                invariant
                    m == s.points@.len(),
                    k <= m,
                    points@ == s.points@.subrange(0, k as int),
                decreases m - k,
            {
                points.push(s.points[k]);
                k = k + 1;
                assert(points@ =~= s.points@.subrange(0, k as int));
            }
            assert(points@ =~= s.points@);
            out.push(SeriesData { label: s.device.clone(), color: s.color, points });
            i = i + 1;
        }
        assert(self.view().subrange(0, n as int) =~= self.view());
        let time_extent = match (first, last) {
            (Some(a), Some(b)) => Some((a, b)),
            _ => None,
        };
        proof {
            crate::projection::time_extent_is_outer_bound(self.view());
        }
        ChartDataset { time_extent, series: out }
    }

    /// The palette index of `device`, if it has been seen since the last reset.
    pub fn color_of(&self, device: &String) -> (r: Option<usize>)
        requires
            self.wf(),
        ensures
            match r {
                Some(c) => exists|i: int|
                    0 <= i < self.view().len() && #[trigger] self.view()[i].device == device@
                        && self.view()[i].color == c,
                None => !holds_device(self.view(), device@),
            },
    {
        match self.find(device) {
            Some(i) => Some(self.series[i].color),
            None => None,
        }
    }
}

} // verus!
