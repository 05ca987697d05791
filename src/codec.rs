use vstd::prelude::*;

use crate::buffer::BufferView;

verus! {

/// The full state of a buffer as a flat record: the two scalars and one
/// sequence per array, oldest first. The capacity is the arrays' length.
pub struct StateRecord<T> {
    pub count: u64,
    pub warmed_up: bool,
    pub timestamp: Vec<i64>,
    pub open: Vec<T>,
    pub high: Vec<T>,
    pub low: Vec<T>,
    pub close: Vec<T>,
    pub ret: Vec<T>,
    pub volume: Vec<T>,
    pub open_interest: Vec<T>,
    pub volatility: Vec<T>,
    pub amplitude: Vec<T>,
}

/// The abstract content of a `StateRecord`.
pub struct RecordView<T> {
    pub count: nat,
    pub warmed_up: bool,
    pub timestamp: Seq<i64>,
    pub open: Seq<T>,
    pub high: Seq<T>,
    pub low: Seq<T>,
    pub close: Seq<T>,
    pub ret: Seq<T>,
    pub volume: Seq<T>,
    pub open_interest: Seq<T>,
    pub volatility: Seq<T>,
    pub amplitude: Seq<T>,
}

impl<T> View for StateRecord<T> {
    type V = RecordView<T>;

    open spec fn view(&self) -> RecordView<T> {
        RecordView {
            count: self.count as nat,
            warmed_up: self.warmed_up,
            timestamp: self.timestamp@,
            open: self.open@,
            high: self.high@,
            low: self.low@,
            close: self.close@,
            ret: self.ret@,
            volume: self.volume@,
            open_interest: self.open_interest@,
            volatility: self.volatility@,
            amplitude: self.amplitude@,
        }
    }
}

/// Why a record cannot be restored into a buffer.
#[derive(Clone, Copy, Debug, PartialEq, Eq, Structural)]
pub enum StateError {
    /// The arrays are empty, which would give a buffer of capacity zero.
    EmptyArrays,
    /// The arrays do not all have the same length.
    LengthMismatch,
    /// The warm-up flag disagrees with the count and the capacity.
    WarmUpMismatch,
}

/// Every array of the record is `n` long.
pub open spec fn all_of_length<T>(r: RecordView<T>, n: nat) -> bool {
    &&& r.timestamp.len() == n
    &&& r.open.len() == n
    &&& r.high.len() == n
    &&& r.low.len() == n
    &&& r.close.len() == n
    &&& r.ret.len() == n
    &&& r.volume.len() == n
    &&& r.open_interest.len() == n
    &&& r.volatility.len() == n
    &&& r.amplitude.len() == n
}

/// The record of a buffer's state.
pub open spec fn export_view<T>(m: BufferView<T>) -> RecordView<T> {
    RecordView {
        count: m.count,
        warmed_up: m.warmed_up,
        timestamp: m.timestamp,
        open: m.open,
        high: m.high,
        low: m.low,
        close: m.close,
        ret: m.ret,
        volume: m.volume,
        open_interest: m.open_interest,
        volatility: m.volatility,
        amplitude: m.amplitude,
    }
}

/// The buffer that a record restores, with the mode given by the caller, or
/// the first problem found: empty arrays, then unequal lengths, then a
/// warm-up flag that disagrees with the count.
pub open spec fn import_view<T>(r: RecordView<T>, extended_mode: bool) -> Result<
    BufferView<T>,
    StateError,
> {
    let n = r.open.len();
    if n == 0 {
        Err(StateError::EmptyArrays)
    } else if !all_of_length(r, n) {
        Err(StateError::LengthMismatch)
    } else if r.warmed_up != (r.count >= n) {
        Err(StateError::WarmUpMismatch)
    } else {
        Ok(
            BufferView {
                capacity: n,
                count: r.count,
                warmed_up: r.warmed_up,
                extended_mode,
                timestamp: r.timestamp,
                open: r.open,
                high: r.high,
                low: r.low,
                close: r.close,
                ret: r.ret,
                volume: r.volume,
                open_interest: r.open_interest,
                volatility: r.volatility,
                amplitude: r.amplitude,
            },
        )
    }
}

} // verus!
