use vstd::prelude::*;

use crate::codec::{export_view, import_view, StateError, StateRecord};
use crate::window::{advance, copied, newest, shift_in};

verus! {

/// One market bar as the host hands it in. The extended fields are present
/// when the buffer computes the auxiliary statistics.
#[derive(Clone, Copy)]
pub struct Bar<T> {
    pub open: T,
    pub high: T,
    pub low: T,
    pub close: T,
    pub volume: T,
    pub extended: Option<ExtendedFields<T>>,
}

/// The fields of a bar that only the extended mode reads.
#[derive(Clone, Copy)]
pub struct ExtendedFields<T> {
    /// Seconds since the Unix epoch, UTC.
    pub timestamp: i64,
    pub open_interest: T,
}

/// The statistics derived for the newest slot. A value that is absent leaves
/// the slot with what the shift carried into it (the previous newest value).
#[derive(Clone, Copy)]
pub struct Derived<T> {
    /// `close / open - 1`, absent when `open` is zero.
    pub ret: Option<T>,
    /// The annualised spread of the return window as it stands after the bar.
    pub volatility: Option<T>,
    /// `|high - low|` over the previous close, absent when that close is zero.
    pub amplitude: Option<T>,
}

#[derive(Clone, Copy, Debug, PartialEq, Eq, Structural)]
pub enum BufferError {
    /// A buffer needs at least one slot.
    ZeroCapacity,
    /// The buffer runs in extended mode and the bar lacks its extended fields.
    MissingExtendedFields,
}

/// The abstract state of a buffer.
pub struct BufferView<T> {
    pub capacity: nat,
    pub count: nat,
    pub warmed_up: bool,
    pub extended_mode: bool,
    pub timestamp: Seq<i64>,
    pub open: Seq<T>,
    pub high: Seq<T>,
    pub low: Seq<T>,
    pub close: Seq<T>,
    pub ret: Seq<T>,
    pub volume: Seq<T>,
    pub open_interest: Seq<T>,
    pub volatility: Seq<T>,
    pub amplitude: Seq<T>,
}

/// The count after one more bar: it grows by one and stops at `u64::MAX`.
pub open spec fn next_count(count: nat) -> nat {
    if count < u64::MAX { count + 1 } else { count }
}

impl<T> BufferView<T> {
    /// All arrays are `capacity` long, and the buffer is warmed up exactly
    /// when it has seen at least `capacity` bars.
    pub open spec fn wf(self) -> bool {
        &&& 0 < self.capacity <= usize::MAX
        &&& self.count <= u64::MAX
        &&& self.warmed_up == (self.count >= self.capacity)
        &&& self.timestamp.len() == self.capacity
        &&& self.open.len() == self.capacity
        &&& self.high.len() == self.capacity
        &&& self.low.len() == self.capacity
        &&& self.close.len() == self.capacity
        &&& self.ret.len() == self.capacity
        &&& self.volume.len() == self.capacity
        &&& self.open_interest.len() == self.capacity
        &&& self.volatility.len() == self.capacity
        &&& self.amplitude.len() == self.capacity
    }

    /// A bar is accepted unless the extended mode needs fields it lacks.
    pub open spec fn accepts(self, bar: Bar<T>) -> bool {
        self.extended_mode ==> bar.extended is Some
    }

    /// Every bar of `bars` is accepted.
    pub open spec fn accepts_all(self, bars: Seq<(Bar<T>, Derived<T>)>) -> bool {
        forall|i: int| 0 <= i < bars.len() ==> self.accepts(#[trigger] bars[i].0)
    }

    /// The state after ingesting `bar` with the derived statistics `d`.
    pub open spec fn step(self, bar: Bar<T>, d: Derived<T>) -> BufferView<T> {
        let count = next_count(self.count);
        let aux = self.extended_mode && bar.extended is Some;
        let e = bar.extended->0;
        BufferView {
            capacity: self.capacity,
            count,
            warmed_up: self.warmed_up || count >= self.capacity,
            extended_mode: self.extended_mode,
            timestamp: if aux { advance(self.timestamp, Some(e.timestamp)) } else { self.timestamp },
            open: advance(self.open, Some(bar.open)),
            high: advance(self.high, Some(bar.high)),
            low: advance(self.low, Some(bar.low)),
            close: advance(self.close, Some(bar.close)),
            ret: advance(self.ret, d.ret),
            volume: advance(self.volume, Some(bar.volume)),
            open_interest: if aux {
                advance(self.open_interest, Some(e.open_interest))
            } else {
                self.open_interest
            },
            volatility: if aux { advance(self.volatility, d.volatility) } else { self.volatility },
            amplitude: if aux {
                advance(self.amplitude, if self.capacity >= 2 { d.amplitude } else { None })
            } else {
                self.amplitude
            },
        }
    }

    /// The state after ingesting each bar of `bars` in turn, as a run of
    /// `update_bar` calls leaves it when each bar is accepted.
    pub open spec fn feed(self, bars: Seq<(Bar<T>, Derived<T>)>) -> BufferView<T>
        decreases bars.len(),
    {
        if bars.len() == 0 {
            self
        } else {
            self.step(bars[0].0, bars[0].1).feed(bars.subrange(1, bars.len() as int))
        }
    }

    /// The return window as it stands after a bar whose return is `ret`.
    pub open spec fn returns_after(self, ret: Option<T>) -> Seq<T> {
        advance(self.ret, ret)
    }

    /// The close that the amplitude of the next bar is measured against: the
    /// newest close, when the window has room for two bars.
    pub open spec fn previous_close(self) -> Option<T> {
        if self.capacity >= 2 { Some(newest(self.close)) } else { None }
    }
}

/// A buffer of `capacity` slots whose arrays all hold `zero`.
pub open spec fn fresh<T>(capacity: nat, extended_mode: bool, zero: T) -> BufferView<T> {
    BufferView {
        capacity,
        count: 0,
        warmed_up: false,
        extended_mode,
        timestamp: Seq::new(capacity, |i: int| 0i64),
        open: Seq::new(capacity, |i: int| zero),
        high: Seq::new(capacity, |i: int| zero),
        low: Seq::new(capacity, |i: int| zero),
        close: Seq::new(capacity, |i: int| zero),
        ret: Seq::new(capacity, |i: int| zero),
        volume: Seq::new(capacity, |i: int| zero),
        open_interest: Seq::new(capacity, |i: int| zero),
        volatility: Seq::new(capacity, |i: int| zero),
        amplitude: Seq::new(capacity, |i: int| zero),
    }
}

/// A rolling window of bars with a fixed capacity.
pub struct BarBuffer<T> {
    capacity: usize,
    count: u64,
    warmed_up: bool,
    extended_mode: bool,
    timestamp: Vec<i64>,
    open: Vec<T>,
    high: Vec<T>,
    low: Vec<T>,
    close: Vec<T>,
    ret: Vec<T>,
    volume: Vec<T>,
    open_interest: Vec<T>,
    volatility: Vec<T>,
    amplitude: Vec<T>,
}

impl<T> View for BarBuffer<T> {
    type V = BufferView<T>;

    closed spec fn view(&self) -> BufferView<T> {
        BufferView {
            capacity: self.capacity as nat,
            count: self.count as nat,
            warmed_up: self.warmed_up,
            extended_mode: self.extended_mode,
            timestamp: self.timestamp@,
            open: self.open@,
            high: self.high@,
            low: self.low@,
            close: self.close@,
            ret: self.ret@,
            volume: self.volume@,
            open_interest: self.open_interest@,
            volatility: self.volatility@,
            amplitude: self.amplitude@,
        }
    }
}

/// A vector of `n` copies of `x`.
fn filled<V: Copy>(n: usize, x: V) -> (r: Vec<V>)
    ensures
        r@ == Seq::new(n as nat, |i: int| x),
{
    let mut r: Vec<V> = Vec::new();
    while r.len() < n
        invariant
            r.len() <= n,
            forall|j: int| 0 <= j < r.len() ==> r@[j] == x,
        decreases n - r.len(),
    {
        r.push(x);
    }
    assert(r@ =~= Seq::new(n as nat, |i: int| x));
    r
}

impl<T: Copy> BarBuffer<T> {
    pub closed spec fn wf(&self) -> bool {
        self@.wf()
    }

    /// A buffer of `capacity` slots, every array filled with `zero` (and the
    /// timestamps with 0). A capacity of zero is refused.
    pub fn new(capacity: usize, extended_mode: bool, zero: T) -> (r: Result<Self, BufferError>)
        ensures
            capacity == 0 ==> r == Err::<Self, BufferError>(BufferError::ZeroCapacity),
            capacity > 0 ==> (r matches Ok(b) && b.wf() && b@ == fresh(
                capacity as nat,
                extended_mode,
                zero,
            )),
    {
        if capacity == 0 {
            return Err(BufferError::ZeroCapacity);
        }
        let b = BarBuffer {
            capacity,
            count: 0,
            warmed_up: false,
            extended_mode,
            timestamp: filled(capacity, 0i64),
            open: filled(capacity, zero),
            high: filled(capacity, zero),
            low: filled(capacity, zero),
            close: filled(capacity, zero),
            ret: filled(capacity, zero),
            volume: filled(capacity, zero),
            open_interest: filled(capacity, zero),
            volatility: filled(capacity, zero),
            amplitude: filled(capacity, zero),
        };
        assert(b@ =~= fresh(capacity as nat, extended_mode, zero));
        Ok(b)
    }

    /// Ingests one bar: counts it, shifts the active arrays and writes the
    /// bar and its derived statistics into the last slot. In extended mode a
    /// bar without its extended fields is refused and the buffer is left as
    /// it was.
    pub fn update_bar(&mut self, bar: Bar<T>, derived: Derived<T>) -> (r: Result<(), BufferError>)
        requires
            old(self).wf(),
        ensures
            final(self).wf(),
            old(self)@.accepts(bar) ==> r is Ok && final(self)@ == old(self)@.step(bar, derived),
            !old(self)@.accepts(bar) ==> r == Err::<(), BufferError>(
                BufferError::MissingExtendedFields,
            ) && final(self)@ == old(self)@,
    {
        if self.extended_mode && bar.extended.is_none() {
            return Err(BufferError::MissingExtendedFields);
        }
        if self.count < u64::MAX {
            self.count = self.count + 1;
        }
        if !self.warmed_up && self.count as u128 >= self.capacity as u128 {
            self.warmed_up = true;
        }
        shift_in(&mut self.open, Some(bar.open));
        shift_in(&mut self.high, Some(bar.high));
        shift_in(&mut self.low, Some(bar.low));
        shift_in(&mut self.close, Some(bar.close));
        shift_in(&mut self.volume, Some(bar.volume));
        shift_in(&mut self.ret, derived.ret);
        if self.extended_mode {
            if let Some(e) = bar.extended {
                shift_in(&mut self.timestamp, Some(e.timestamp));
                shift_in(&mut self.open_interest, Some(e.open_interest));
                shift_in(&mut self.volatility, derived.volatility);
                let amplitude = if self.capacity >= 2 { derived.amplitude } else { None };
                shift_in(&mut self.amplitude, amplitude);
            }
        }
        Ok(())
    }

    /// Rebuilds a buffer from an exported record. The capacity is the arrays'
    /// length; the mode is the caller's, since the record does not carry it.
    /// Empty arrays, unequal lengths and a warm-up flag at odds with the count
    /// are refused.
    pub fn import_state(record: StateRecord<T>, extended_mode: bool) -> (r: Result<Self, StateError>)
        ensures
            match r {
                Ok(b) => b.wf() && import_view(record@, extended_mode) == Ok::<BufferView<T>, StateError>(b@),
                Err(e) => import_view(record@, extended_mode) == Err::<BufferView<T>, StateError>(e),
            },
    {
        let n = record.open.len();
        if n == 0 {
            return Err(StateError::EmptyArrays);
        }
        if record.timestamp.len() != n || record.high.len() != n || record.low.len() != n
            || record.close.len() != n || record.ret.len() != n || record.volume.len() != n
            || record.open_interest.len() != n || record.volatility.len() != n
            || record.amplitude.len() != n {
            return Err(StateError::LengthMismatch);
        }
        if record.warmed_up != (record.count as u128 >= n as u128) {
            return Err(StateError::WarmUpMismatch);
        }
        let b = BarBuffer {
            capacity: n,
            count: record.count,
            warmed_up: record.warmed_up,
            extended_mode,
            timestamp: record.timestamp,
            open: record.open,
            high: record.high,
            low: record.low,
            close: record.close,
            ret: record.ret,
            volume: record.volume,
            open_interest: record.open_interest,
            volatility: record.volatility,
            amplitude: record.amplitude,
        };
        assert(import_view(record@, extended_mode) == Ok::<BufferView<T>, StateError>(b@));
        Ok(b)
    }

    /// The full state as a flat record, arrays oldest first.
    pub fn export_state(&self) -> (r: StateRecord<T>)
        requires
            self.wf(),
        ensures
            r@ == export_view(self@),
    {
        StateRecord {
            count: self.count,
            warmed_up: self.warmed_up,
            timestamp: copied(&self.timestamp),
            open: copied(&self.open),
            high: copied(&self.high),
            low: copied(&self.low),
            close: copied(&self.close),
            ret: copied(&self.ret),
            volume: copied(&self.volume),
            open_interest: copied(&self.open_interest),
            volatility: copied(&self.volatility),
            amplitude: copied(&self.amplitude),
        }
    }

    /// The return window as it will stand after a bar whose return is `ret`:
    /// what the volatility of that bar is computed from.
    pub fn returns_after(&self, ret: Option<T>) -> (r: Vec<T>)
        requires
            self.wf(),
        ensures
            r@ == self@.returns_after(ret),
    {
        let mut r = copied(&self.ret);
        shift_in(&mut r, ret);
        r
    }

    /// The close that the next bar's amplitude is measured against, when the
    /// window has room for two bars.
    pub fn previous_close(&self) -> (r: Option<T>)
        requires
            self.wf(),
        ensures
            r == self@.previous_close(),
    {
        if self.capacity >= 2 {
            Some(self.close[self.capacity - 1])
        } else {
            None
        }
    }

    pub fn capacity(&self) -> (r: usize)
        ensures
            r as nat == self@.capacity,
    {
        self.capacity
    }

    /// The number of bars ingested, stopping at `u64::MAX`.
    pub fn count(&self) -> (r: u64)
        ensures
            r as nat == self@.count,
    {
        self.count
    }

    /// Whether the buffer has seen at least `capacity` bars.
    pub fn inited(&self) -> (r: bool)
        ensures
            r == self@.warmed_up,
    {
        self.warmed_up
    }

    pub fn extended_mode(&self) -> (r: bool)
        ensures
            r == self@.extended_mode,
    {
        self.extended_mode
    }

    /// Seconds since the Unix epoch, oldest first.
    pub fn timestamps(&self) -> (r: &Vec<i64>)
        ensures
            r@ == self@.timestamp,
    {
        &self.timestamp
    }

    pub fn open(&self) -> (r: &Vec<T>)
        ensures
            r@ == self@.open,
    {
        &self.open
    }

    pub fn high(&self) -> (r: &Vec<T>)
        ensures
            r@ == self@.high,
    {
        &self.high
    }

    pub fn low(&self) -> (r: &Vec<T>)
        ensures
            r@ == self@.low,
    {
        &self.low
    }

    pub fn close(&self) -> (r: &Vec<T>)
        ensures
            r@ == self@.close,
    {
        &self.close
    }

    pub fn volume(&self) -> (r: &Vec<T>)
        ensures
            r@ == self@.volume,
    {
        &self.volume
    }

    pub fn ret(&self) -> (r: &Vec<T>)
        ensures
            r@ == self@.ret,
    {
        &self.ret
    }

    pub fn volatility(&self) -> (r: &Vec<T>)
        ensures
            r@ == self@.volatility,
    {
        &self.volatility
    }

    pub fn amplitude(&self) -> (r: &Vec<T>)
        ensures
            r@ == self@.amplitude,
    {
        &self.amplitude
    }

    pub fn open_interest(&self) -> (r: &Vec<T>)
        ensures
            r@ == self@.open_interest,
    {
        &self.open_interest
    }
}

} // verus!
