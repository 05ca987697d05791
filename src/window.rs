use vstd::prelude::*;

verus! {

/// The last element of a non-empty sequence.
pub open spec fn newest<V>(s: Seq<V>) -> V {
    s[s.len() - 1]
}

/// The window `s` after one step: every element moves one slot towards the
/// front, the oldest drops out, and the last slot takes `x` when it is given.
/// Otherwise the last slot keeps the value it held, which is what the shift
/// brought into it.
pub open spec fn advance<V>(s: Seq<V>, x: Option<V>) -> Seq<V> {
    s.subrange(1, s.len() as int).push(
        match x {
            Some(v) => v,
            None => newest(s),
        },
    )
}

/// Shifts `v` one slot towards the front and stores `x`, if given, in the
/// last slot.
pub fn shift_in<V: Copy>(v: &mut Vec<V>, x: Option<V>)
    requires
        old(v).len() > 0,
    ensures
        final(v)@ == advance(old(v)@, x),
{
    let n = v.len();
    let ghost start = v@;
    let mut i: usize = 0;
    while i + 1 < n
        invariant
            v.len() == n,
            n == start.len(),
            n > 0,
            i < n,
            forall|j: int| 0 <= j < i ==> v@[j] == start[j + 1],
            forall|j: int| i <= j < n ==> v@[j] == start[j],
        decreases n - i,
    {
        let next = v[i + 1];
        v.set(i, next);
        i = i + 1;
    }
    if let Some(value) = x {
        v.set(n - 1, value);
    }
    assert(v@ =~= advance(start, x));
}

} // verus!

verus! {

/// A copy of `v`.
pub fn copied<V: Copy>(v: &Vec<V>) -> (r: Vec<V>)
    ensures
        r@ == v@,
{
    let mut r: Vec<V> = Vec::new();
    let mut i: usize = 0;
    while i < v.len()
        invariant
            i <= v.len(),
            r@ == v@.subrange(0, i as int),
        decreases v.len() - i,
    {
        r.push(v[i]);
        i = i + 1;
        assert(r@ =~= v@.subrange(0, i as int));
    }
    assert(r@ =~= v@);
    r
}

} // verus!
