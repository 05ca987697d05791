use vstd::prelude::*;

use chrono::{Datelike, Timelike};

use crate::buffer::BarBuffer;

verus! {

/// A UTC calendar time at second resolution.
#[derive(Clone, Copy, Debug, PartialEq, Eq, Structural)]
pub struct UtcDateTime {
    pub year: i32,
    pub month: u32,
    pub day: u32,
    pub hour: u32,
    pub minute: u32,
    pub second: u32,
}

/// A timestamp that has no UTC calendar time.
#[derive(Clone, Copy, Debug, PartialEq, Eq, Structural)]
pub struct InvalidTimestamp {
    /// The slot that holds it.
    pub index: usize,
    pub timestamp: i64,
}

/// The UTC calendar time of `seconds` after the Unix epoch, if it has one.
pub uninterp spec fn utc_calendar_of(seconds: i64) -> Option<UtcDateTime>;

/// The hour, minute and second of the day on which `seconds` falls.
pub open spec fn time_of_day(seconds: i64) -> (nat, nat, nat) {
    let s = (seconds as int % 86400) as nat;
    (s / 3600, (s / 60) % 60, s % 60)
}

/// Relies on chrono's `DateTime::from_timestamp(seconds, 0)`, which yields
/// the UTC time `seconds` after the epoch or nothing when it is out of range,
/// and on its `Datelike` and `Timelike` fields. The time of day comes from
/// `seconds.rem_euclid(86_400)`.
#[verifier::external_body]
fn utc_calendar(seconds: i64) -> (r: Option<UtcDateTime>)
    ensures
        r == utc_calendar_of(seconds),
        r matches Some(c) ==> (c.hour as nat, c.minute as nat, c.second as nat) == time_of_day(
            seconds,
        ),
{
    let t = chrono::DateTime::from_timestamp(seconds, 0)?;
    Some(UtcDateTime {
        year: t.year(),
        month: t.month(),
        day: t.day(),
        hour: t.hour(),
        minute: t.minute(),
        second: t.second(),
    })
}

/// The UTC calendar time of every timestamp of `ts`, or the first one that
/// has none.
pub fn calendar_times(ts: &Vec<i64>) -> (r: Result<Vec<UtcDateTime>, InvalidTimestamp>)
    ensures
        match r {
            Ok(v) => v.len() == ts.len() && forall|i: int|
                0 <= i < ts.len() ==> utc_calendar_of(ts[i]) == Some(#[trigger] v[i]),
            Err(e) => e.index < ts.len() && e.timestamp == ts[e.index as int]
                && utc_calendar_of(e.timestamp) is None && forall|i: int|
                0 <= i < e.index ==> (#[trigger] utc_calendar_of(ts[i])) is Some,
        },
{
    let mut out: Vec<UtcDateTime> = Vec::new();
    let mut i: usize = 0;
    while i < ts.len()
        invariant
            i <= ts.len(),
            out.len() == i,
            forall|j: int| 0 <= j < i ==> utc_calendar_of(ts[j]) == Some(#[trigger] out[j]),
        decreases ts.len() - i,
    {
        match utc_calendar(ts[i]) {
            Some(c) => out.push(c),
            None => {
                assert forall|j: int| 0 <= j < i implies (#[trigger] utc_calendar_of(ts[j])) is Some by {
                    assert(utc_calendar_of(ts[j]) == Some(out[j]));
                }
                return Err(InvalidTimestamp { index: i, timestamp: ts[i] });
            },
        }
        i = i + 1;
    }
    Ok(out)
}

impl<T: Copy> BarBuffer<T> {
    /// The UTC calendar time of every slot, oldest first.
    pub fn datetimes(&self) -> (r: Result<Vec<UtcDateTime>, InvalidTimestamp>)
        ensures
            match r {
                Ok(v) => v.len() == self@.timestamp.len() && forall|i: int|
                    0 <= i < v.len() ==> utc_calendar_of(self@.timestamp[i]) == Some(#[trigger] v[i]),
                Err(e) => e.index < self@.timestamp.len() && e.timestamp == self@.timestamp[e.index as int]
                    && utc_calendar_of(e.timestamp) is None && forall|i: int|
                    0 <= i < e.index ==> (#[trigger] utc_calendar_of(self@.timestamp[i])) is Some,
            },
    {
        calendar_times(self.timestamps())
    }
}

} // verus!
