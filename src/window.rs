use vstd::prelude::*;

verus! {

/// The last `cap` items of `s`, in the order they arrived (all of `s` when it is shorter).
pub open spec fn recent<T>(s: Seq<T>, cap: nat) -> Seq<T> {
    if s.len() <= cap {
        s
    } else {
        s.subrange(s.len() - cap, s.len() as int)
    }
}

/// Sum of a sequence of integers.
pub open spec fn total(s: Seq<i64>) -> int
    decreases s.len(),
{
    if s.len() == 0 {
        0
    } else {
        total(s.drop_last()) + s.last()
    }
}

/// Arithmetic mean of a non-empty sequence, rounded toward zero.
pub open spec fn mean(s: Seq<i64>) -> int {
    let t = total(s);
    if t >= 0 {
        t / (s.len() as int)
    } else {
        -((-t) / (s.len() as int))
    }
}

/// A bounded window never holds more than its capacity.
pub proof fn recent_is_bounded<T>(s: Seq<T>, cap: nat)
    ensures
        recent(s, cap).len() <= cap,
        recent(s, cap).len() == if s.len() <= cap { s.len() } else { cap },
{
}

/// Appending to a window that already keeps the last `cap` items and trimming it again
/// keeps exactly the last `cap` items of the whole history: a bounded buffer that evicts
/// its oldest item holds the most recent `cap` arrivals in arrival order.
pub proof fn recent_absorbs<T>(s: Seq<T>, x: T, cap: nat)
    ensures
        recent(recent(s, cap).push(x), cap) == recent(s.push(x), cap),
{
    if s.len() > cap {
        let w = recent(s, cap);
        assert(recent(w.push(x), cap) =~= recent(s.push(x), cap));
    }
}

/// A bounded window fed the items of `s` one at a time, starting empty, evicting its oldest
/// item whenever it would exceed `cap`.
pub open spec fn replay<T>(s: Seq<T>, cap: nat) -> Seq<T>
    decreases s.len(),
{
    if s.len() == 0 {
        s
    } else {
        recent(replay(s.drop_last(), cap).push(s.last()), cap)
    }
}

/// Whatever the arrivals, a window fed them one at a time never holds more than `cap` items,
/// and holds exactly the most recent `cap` of them, in arrival order.
pub proof fn replay_keeps_most_recent<T>(s: Seq<T>, cap: nat)
    ensures
        replay(s, cap) == recent(s, cap),
        replay(s, cap).len() <= cap,
    decreases s.len(),
{
    if s.len() > 0 {
        replay_keeps_most_recent(s.drop_last(), cap);
        recent_absorbs(s.drop_last(), s.last(), cap);
        assert(s.drop_last().push(s.last()) =~= s);
    }
    recent_is_bounded(s, cap);
}

pub proof fn total_concat(a: Seq<i64>, b: Seq<i64>)
    ensures
        total(a + b) == total(a) + total(b),
    decreases b.len(),
{
    if b.len() > 0 {
        total_concat(a, b.drop_last());
        assert((a + b).drop_last() =~= a + b.drop_last());
    } else {
        assert(a + b =~= a);
    }
}

pub proof fn total_push(s: Seq<i64>, x: i64)
    ensures
        total(s.push(x)) == total(s) + x,
{
    assert(s.push(x).drop_last() =~= s);
}

} // verus!
