use vstd::prelude::*;

use crate::buffer::{next_count, Bar, BufferView, Derived};
use crate::codec::{export_view, import_view, StateError};
use crate::window::newest;

verus! {

/// One step keeps every array `capacity` long, keeps the capacity and the
/// mode, and counts the bar.
pub proof fn lemma_step_wf<T>(m: BufferView<T>, bar: Bar<T>, d: Derived<T>)
    requires
        m.wf(),
    ensures
        m.step(bar, d).wf(),
        m.step(bar, d).capacity == m.capacity,
        m.step(bar, d).extended_mode == m.extended_mode,
        m.step(bar, d).count == next_count(m.count),
{
}

/// Whatever bars arrive, every array keeps exactly `capacity` elements, and
/// the count grows by one per bar until it reaches `u64::MAX`.
pub proof fn lemma_lengths_kept<T>(m: BufferView<T>, bars: Seq<(Bar<T>, Derived<T>)>)
    requires
        m.wf(),
        m.accepts_all(bars),
    ensures
        m.feed(bars).wf(),
        m.feed(bars).capacity == m.capacity,
        m.feed(bars).extended_mode == m.extended_mode,
        m.feed(bars).count == if m.count + bars.len() <= u64::MAX {
            m.count + bars.len()
        } else {
            u64::MAX as nat
        },
    decreases bars.len(),
{
    if bars.len() > 0 {
        let n = m.step(bars[0].0, bars[0].1);
        lemma_step_wf(m, bars[0].0, bars[0].1);
        lemma_lengths_kept(n, bars.subrange(1, bars.len() as int));
    }
}

/// A buffer that starts with no bars is warmed up exactly when it has been
/// given at least `capacity` bars: not before the `capacity`-th, and from it
/// on for good.
pub proof fn lemma_warm_up<T>(m: BufferView<T>, bars: Seq<(Bar<T>, Derived<T>)>)
    requires
        m.wf(),
        m.accepts_all(bars),
        m.count == 0,
    ensures
        m.feed(bars).warmed_up == (bars.len() >= m.capacity),
{
    lemma_lengths_kept(m, bars);
}

/// Once warmed up, a buffer stays warmed up.
pub proof fn lemma_warm_up_is_kept<T>(m: BufferView<T>, bars: Seq<(Bar<T>, Derived<T>)>)
    requires
        m.wf(),
        m.accepts_all(bars),
        m.warmed_up,
    ensures
        m.feed(bars).warmed_up,
{
    lemma_lengths_kept(m, bars);
}

/// After a bar, its open, high, low, close and volume stand in the last
/// slot, and what stood in slot 1 of each array now stands in slot 0.
pub proof fn lemma_newest_last<T>(m: BufferView<T>, bar: Bar<T>, d: Derived<T>)
    requires
        m.wf(),
    ensures
        ({
            let n = m.step(bar, d);
            let last = m.capacity - 1;
            &&& n.open[last] == bar.open
            &&& n.high[last] == bar.high
            &&& n.low[last] == bar.low
            &&& n.close[last] == bar.close
            &&& n.volume[last] == bar.volume
            &&& m.capacity >= 2 ==> {
                &&& n.open[0] == m.open[1]
                &&& n.high[0] == m.high[1]
                &&& n.low[0] == m.low[1]
                &&& n.close[0] == m.close[1]
                &&& n.volume[0] == m.volume[1]
                &&& n.ret[0] == m.ret[1]
            }
        }),
{
}

/// A bar without a return (its open is zero) leaves the newest return as it
/// was before the shift; one with a return stores it there.
pub proof fn lemma_return_slot<T>(m: BufferView<T>, bar: Bar<T>, d: Derived<T>)
    requires
        m.wf(),
    ensures
        newest(m.step(bar, d).ret) == match d.ret {
            Some(r) => r,
            None => newest(m.ret),
        },
{
}

/// In the plain mode the timestamp, open interest, volatility and amplitude
/// arrays are never written.
pub proof fn lemma_plain_mode_keeps_auxiliary<T>(
    m: BufferView<T>,
    bars: Seq<(Bar<T>, Derived<T>)>,
)
    requires
        m.wf(),
        !m.extended_mode,
    ensures
        m.feed(bars).timestamp == m.timestamp,
        m.feed(bars).open_interest == m.open_interest,
        m.feed(bars).volatility == m.volatility,
        m.feed(bars).amplitude == m.amplitude,
    decreases bars.len(),
{
    if bars.len() > 0 {
        let n = m.step(bars[0].0, bars[0].1);
        lemma_step_wf(m, bars[0].0, bars[0].1);
        lemma_plain_mode_keeps_auxiliary(n, bars.subrange(1, bars.len() as int));
    }
}

/// Restoring the exported state of a buffer, in its own mode, gives back
/// the same buffer.
pub proof fn lemma_round_trip<T>(m: BufferView<T>)
    requires
        m.wf(),
    ensures
        import_view(export_view(m), m.extended_mode) == Ok::<BufferView<T>, StateError>(m),
{
}

} // verus!
