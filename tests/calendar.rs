use array_manager::buffer::{Bar, BarBuffer, Derived, ExtendedFields};
use array_manager::calendar::{calendar_times, UtcDateTime};

fn utc(year: i32, month: u32, day: u32, hour: u32, minute: u32, second: u32) -> UtcDateTime {
    UtcDateTime { year, month, day, hour, minute, second }
}

#[test]
fn epoch_start() {
    assert_eq!(calendar_times(&vec![0]), Ok(vec![utc(1970, 1, 1, 0, 0, 0)]));
}

#[test]
fn known_instants() {
    let r = calendar_times(&vec![1_700_000_000, -1, 951_782_400]).unwrap();
    assert_eq!(r[0], utc(2023, 11, 14, 22, 13, 20));
    assert_eq!(r[1], utc(1969, 12, 31, 23, 59, 59));
    assert_eq!(r[2], utc(2000, 2, 29, 0, 0, 0));
}

#[test]
fn out_of_range_timestamp_reported() {
    let e = calendar_times(&vec![0, i64::MAX, i64::MIN]).unwrap_err();
    assert_eq!(e.index, 1);
    assert_eq!(e.timestamp, i64::MAX);
}

#[test]
fn buffer_datetimes() {
    let mut b = BarBuffer::new(2, true, 0.0).unwrap();
    let bar = Bar {
        open: 1.0,
        high: 1.0,
        low: 1.0,
        close: 1.0,
        volume: 1.0,
        extended: Some(ExtendedFields { timestamp: 86_399, open_interest: 0.0 }),
    };
    b.update_bar(bar, Derived { ret: None, volatility: None, amplitude: None }).unwrap();
    assert_eq!(b.datetimes(), Ok(vec![utc(1970, 1, 1, 0, 0, 0), utc(1970, 1, 1, 23, 59, 59)]));
}
