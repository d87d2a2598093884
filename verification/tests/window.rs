use sensor_window::entry::WindowEntry;
use sensor_window::window::Window;

fn entry(value: f32, timestamp: u64) -> WindowEntry {
    WindowEntry { value: value.to_bits(), timestamp }
}

#[test]
fn new_window_holds_placeholders() {
    let w = Window::new(3, 0.0f32.to_bits());
    assert_eq!(w.len(), 3);
    assert_eq!(w.snapshot(), vec![entry(0.0, 0), entry(0.0, 0), entry(0.0, 0)]);
}

#[test]
fn new_window_uses_the_default_value() {
    let w = Window::new(2, 21.5f32.to_bits());
    assert_eq!(w.snapshot(), vec![entry(21.5, 0), entry(21.5, 0)]);
    assert!(w.snapshot().iter().all(|e| e.is_placeholder()));
}

#[test]
fn placeholder_has_timestamp_zero() {
    let p = WindowEntry::placeholder(7);
    assert_eq!(p, WindowEntry { value: 7, timestamp: 0 });
    assert!(p.is_placeholder());
    assert!(!WindowEntry { value: 7, timestamp: 1 }.is_placeholder());
}

#[test]
fn push_evicts_front_and_appends_back() {
    let mut w = Window::new(3, 0.0f32.to_bits());
    w.push(entry(1.0, 10));
    assert_eq!(w.snapshot(), vec![entry(0.0, 0), entry(0.0, 0), entry(1.0, 10)]);
    w.push(entry(2.0, 20));
    assert_eq!(w.snapshot(), vec![entry(0.0, 0), entry(1.0, 10), entry(2.0, 20)]);
    w.push(entry(3.0, 30));
    assert_eq!(w.snapshot(), vec![entry(1.0, 10), entry(2.0, 20), entry(3.0, 30)]);
    w.push(entry(4.0, 40));
    assert_eq!(w.snapshot(), vec![entry(2.0, 20), entry(3.0, 30), entry(4.0, 40)]);
}

#[test]
fn length_stays_constant() {
    let mut w = Window::new(5, 1.0f32.to_bits());
    assert_eq!(w.len(), 5);
    for i in 0..20u64 {
        w.push(entry(i as f32, i + 1));
        assert_eq!(w.len(), 5);
        assert_eq!(w.snapshot().len(), 5);
    }
    w.reset_all(1.0f32.to_bits());
    assert_eq!(w.len(), 5);
    w.push(entry(9.0, 99));
    assert_eq!(w.len(), 5);
}

#[test]
fn reset_all_refills_with_placeholders() {
    let mut w = Window::new(3, 0.0f32.to_bits());
    w.push(entry(1.0, 10));
    w.push(entry(2.0, 20));
    w.reset_all(6.5f32.to_bits());
    assert_eq!(w.snapshot(), vec![entry(6.5, 0), entry(6.5, 0), entry(6.5, 0)]);
}

#[test]
fn reset_twice_is_reset_once() {
    let mut once = Window::new(4, 0.0f32.to_bits());
    let mut twice = Window::new(4, 0.0f32.to_bits());
    for w in [&mut once, &mut twice] {
        w.push(entry(1.0, 10));
        w.push(entry(2.0, 20));
    }
    once.reset_all(3.0f32.to_bits());
    twice.reset_all(3.0f32.to_bits());
    twice.reset_all(3.0f32.to_bits());
    assert_eq!(once.snapshot(), twice.snapshot());
    assert_eq!(once.snapshot(), vec![entry(3.0, 0); 4]);
}

#[test]
fn single_slot_holds_latest_submission() {
    let mut w = Window::new(1, 0.0f32.to_bits());
    assert_eq!(w.snapshot(), vec![entry(0.0, 0)]);
    w.push(entry(1.0, 10));
    assert_eq!(w.snapshot(), vec![entry(1.0, 10)]);
    w.push(entry(2.0, 20));
    assert_eq!(w.snapshot(), vec![entry(2.0, 20)]);
    assert_eq!(w.len(), 1);
}

#[test]
fn window_without_slots_keeps_nothing() {
    let mut w = Window::new(0, 0.0f32.to_bits());
    assert_eq!(w.len(), 0);
    w.push(entry(1.0, 10));
    assert_eq!(w.len(), 0);
    w.reset_all(0.0f32.to_bits());
    assert!(w.snapshot().is_empty());
}

#[test]
fn snapshot_is_a_copy() {
    let mut w = Window::new(2, 0.0f32.to_bits());
    let before = w.snapshot();
    w.push(entry(5.0, 50));
    assert_eq!(before, vec![entry(0.0, 0), entry(0.0, 0)]);
    assert_eq!(w.snapshot(), vec![entry(0.0, 0), entry(5.0, 50)]);
}

#[test]
fn readings_keep_their_bits() {
    let mut w = Window::new(2, 0.0f32.to_bits());
    w.push(entry(-0.0, 1));
    w.push(entry(123.456, 2));
    let got = w.snapshot();
    assert_eq!(got[0].value, (-0.0f32).to_bits());
    assert_eq!(f32::from_bits(got[1].value), 123.456f32);
}
