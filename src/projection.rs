use vstd::prelude::*;

use crate::series::SeriesView;
use crate::timestamp::{earlier, Timestamp};

verus! {

/// One drawable line: the device it belongs to, its palette index and its points, oldest first.
pub struct SeriesData<V> {
    pub label: String,
    pub color: usize,
    pub points: Vec<(Timestamp, V)>,
}

/// What a renderer needs: the span of time that all points fall in, when there are any,
/// and one entry per series.
pub struct ChartDataset<V> {
    pub time_extent: Option<(Timestamp, Timestamp)>,
    pub series: Vec<SeriesData<V>>,
}

/// The earliest first point over the series; on equal instants the earlier series wins.
pub open spec fn earliest_start<V>(v: Seq<SeriesView<V>>) -> Option<Timestamp>
    decreases v.len(),
{
    if v.len() == 0 {
        None
    } else {
        let t = v.last().points[0].0;
        match earliest_start(v.drop_last()) {
            None => Some(t),
            Some(f) => if earlier(t, f) {
                Some(t)
            } else {
                Some(f)
            },
        }
    }
}

/// The latest last point over the series; on equal instants the earlier series wins.
pub open spec fn latest_end<V>(v: Seq<SeriesView<V>>) -> Option<Timestamp>
    decreases v.len(),
{
    if v.len() == 0 {
        None
    } else {
        let t = v.last().points.last().0;
        match latest_end(v.drop_last()) {
            None => Some(t),
            Some(l) => if earlier(l, t) {
                Some(t)
            } else {
                Some(l)
            },
        }
    }
}

/// The outer bound of all series: from the earliest first point to the latest last point.
pub open spec fn time_extent<V>(v: Seq<SeriesView<V>>) -> Option<(Timestamp, Timestamp)> {
    match (earliest_start(v), latest_end(v)) {
        (Some(a), Some(b)) => Some((a, b)),
        _ => None,
    }
}

/// `d` is the dataset of the series `v`: their outer time extent, and each series in order
/// with its device as label, its palette index and its points.
pub open spec fn describes<V>(d: &ChartDataset<V>, v: Seq<SeriesView<V>>) -> bool {
    &&& d.time_extent == time_extent(v)
    &&& d.series.len() == v.len()
    &&& forall|i: int|
        0 <= i < d.series.len() ==> {
            &&& (#[trigger] d.series[i]).label@ == v[i].device
            &&& d.series[i].color == v[i].color
            &&& d.series[i].points@ == v[i].points
        }
}

/// The extent is present exactly when there is a series, starts at the first point of
/// some series and no first point precedes it, and ends at the last point of some series
/// and no last point follows it.
pub proof fn time_extent_is_outer_bound<V>(v: Seq<SeriesView<V>>)
    requires
        forall|i: int| 0 <= i < v.len() ==> (#[trigger] v[i]).points.len() > 0,
    ensures
        time_extent(v) is None <==> v.len() == 0,
        v.len() > 0 ==> {
            let (a, b) = time_extent(v)->Some_0;
            &&& exists|i: int| 0 <= i < v.len() && #[trigger] v[i].points[0].0 == a
            &&& exists|j: int| 0 <= j < v.len() && #[trigger] v[j].points.last().0 == b
            &&& forall|i: int| 0 <= i < v.len() ==> !earlier(#[trigger] v[i].points[0].0, a)
            &&& forall|j: int| 0 <= j < v.len() ==> !earlier(b, #[trigger] v[j].points.last().0)
        },
    decreases v.len(),
{
    if v.len() > 0 {
        let u = v.drop_last();
        assert forall|i: int| 0 <= i < u.len() implies (#[trigger] u[i]).points.len() > 0 by {
            assert(u[i] == v[i]);
        }
        time_extent_is_outer_bound(u);
        let n = v.len() - 1;
        let a = earliest_start(v)->Some_0;
        let b = latest_end(v)->Some_0;
        if u.len() > 0 {
            let a0 = earliest_start(u)->Some_0;
            let b0 = latest_end(u)->Some_0;
            let i0 = choose|i: int| 0 <= i < u.len() && #[trigger] u[i].points[0].0 == a0;
            let j0 = choose|j: int| 0 <= j < u.len() && #[trigger] u[j].points.last().0 == b0;
            assert(v[i0] == u[i0]);
            assert(v[j0] == u[j0]);
            if a == a0 {
                assert(v[i0].points[0].0 == a);
            } else {
                assert(v[n].points[0].0 == a);
            }
            if b == b0 {
                assert(v[j0].points.last().0 == b);
            } else {
                assert(v[n].points.last().0 == b);
            }
            assert forall|i: int| 0 <= i < v.len() implies !earlier(#[trigger] v[i].points[0].0, a) by {
                if i < n {
                    assert(v[i] == u[i]);
                    assert(!earlier(u[i].points[0].0, a0));
                }
            }
            assert forall|j: int| 0 <= j < v.len() implies !earlier(b, #[trigger] v[j].points.last().0) by {
                if j < n {
                    assert(v[j] == u[j]);
                    assert(!earlier(b0, u[j].points.last().0));
                }
            }
        } else {
            assert(v[0].points[0].0 == a);
            assert(v[0].points.last().0 == b);
        }
    }
}

} // verus!
