use array_manager::buffer::{BarBuffer, Bar, Derived, ExtendedFields};
use array_manager::codec::{StateError, StateRecord};

fn filled_buffer() -> BarBuffer<f64> {
    let mut b = BarBuffer::new(3, true, 0.0).unwrap();
    for i in 0..4i64 {
        let x = i as f64;
        let bar = Bar {
            open: x + 1.0,
            high: x + 2.0,
            low: x,
            close: x + 1.5,
            volume: 10.0 * x,
            extended: Some(ExtendedFields { timestamp: 86_400 * i, open_interest: x * 3.0 }),
        };
        let d = Derived { ret: Some(x / 10.0), volatility: Some(x / 20.0), amplitude: Some(x / 30.0) };
        b.update_bar(bar, d).unwrap();
    }
    b
}

fn record(n: usize, count: u64, warmed_up: bool) -> StateRecord<f64> {
    StateRecord {
        count,
        warmed_up,
        timestamp: vec![0; n],
        open: vec![1.0; n],
        high: vec![2.0; n],
        low: vec![0.5; n],
        close: vec![1.5; n],
        ret: vec![0.0; n],
        volume: vec![3.0; n],
        open_interest: vec![0.0; n],
        volatility: vec![0.0; n],
        amplitude: vec![0.0; n],
    }
}

#[test]
fn export_import_round_trip() {
    let b = filled_buffer();
    let r = b.export_state();
    assert_eq!(r.count, 4);
    assert!(r.warmed_up);
    assert_eq!(r.timestamp, vec![86_400, 172_800, 259_200]);
    let c = BarBuffer::import_state(r, true).unwrap();
    assert_eq!(c.capacity(), b.capacity());
    assert_eq!(c.count(), b.count());
    assert_eq!(c.inited(), b.inited());
    assert_eq!(c.timestamps(), b.timestamps());
    assert_eq!(c.open(), b.open());
    assert_eq!(c.high(), b.high());
    assert_eq!(c.low(), b.low());
    assert_eq!(c.close(), b.close());
    assert_eq!(c.ret(), b.ret());
    assert_eq!(c.volume(), b.volume());
    assert_eq!(c.open_interest(), b.open_interest());
    assert_eq!(c.volatility(), b.volatility());
    assert_eq!(c.amplitude(), b.amplitude());
}

#[test]
fn import_infers_capacity() {
    let b = BarBuffer::import_state(record(4, 1, false), false).unwrap();
    assert_eq!(b.capacity(), 4);
    assert_eq!(b.count(), 1);
    assert!(!b.extended_mode());
}

#[test]
fn import_rejects_empty_arrays() {
    let r = BarBuffer::import_state(record(0, 0, false), false);
    assert!(matches!(r, Err(StateError::EmptyArrays)));
}

#[test]
fn import_rejects_unequal_lengths() {
    let mut rec = record(3, 0, false);
    rec.volatility.push(1.0);
    assert!(matches!(BarBuffer::import_state(rec, true), Err(StateError::LengthMismatch)));
}

#[test]
fn import_rejects_inconsistent_warm_up() {
    assert!(matches!(BarBuffer::import_state(record(3, 2, true), true), Err(StateError::WarmUpMismatch)));
    assert!(matches!(BarBuffer::import_state(record(3, 3, false), true), Err(StateError::WarmUpMismatch)));
}
