use winx_application::input_focus::{scale_mouse_delta, take_mouse_delta};
use winx_application::mouse_coalesce::MouseCoalescer;

#[test]
fn accumulates_deltas() {
    let mut c = MouseCoalescer::new();
    c.push(1, 1);
    c.push(2, 2);
    let (dx, dy) = c.take_if_significant(2).expect("significant");
    assert_eq!((dx, dy), (3, 3));
}

#[test]
fn below_threshold_returns_none() {
    let mut c = MouseCoalescer::new();
    c.push(0, 1);
    assert!(c.take_if_significant(2).is_none());
    assert!(c.has_pending());
}

#[test]
fn take_clears_pending() {
    let mut c = MouseCoalescer::new();
    c.push(5, 5);
    assert!(c.take_if_significant(2).is_some());
    assert!(!c.has_pending());
    assert!(c.take_if_significant(2).is_none());
}

#[test]
fn push_wraps_around_on_overflow() {
    let mut c = MouseCoalescer::new();
    c.push(i32::MAX, 0);
    c.push(2, 0);
    assert!(c.has_pending());
    assert_eq!(c.take_if_significant(1), Some((i32::MIN + 1, 0)));
}

#[test]
fn negative_deltas_count_by_magnitude() {
    let mut c = MouseCoalescer::new();
    c.push(-3, 2);
    assert_eq!(c.take_if_significant(5), Some((-3, 2)));
    assert!(!c.has_pending());
}

#[test]
fn scale_is_identity_at_256() {
    assert_eq!(scale_mouse_delta(7, -9, 256), (7, -9));
}

#[test]
fn scale_rounds_toward_zero() {
    assert_eq!(scale_mouse_delta(3, -3, 128), (1, -1));
    assert_eq!(scale_mouse_delta(5, -5, 384), (7, -7));
    assert_eq!(scale_mouse_delta(1, -1, 100), (0, 0));
}

#[test]
fn take_mouse_delta_drops_what_scales_to_nothing() {
    let mut c = MouseCoalescer::new();
    c.push(1, 1);
    assert_eq!(take_mouse_delta(&mut c, 2, 64), None);
    assert!(!c.has_pending());
    c.push(4, 0);
    assert_eq!(take_mouse_delta(&mut c, 2, 512), Some((8, 0)));
    c.push(1, 0);
    assert_eq!(take_mouse_delta(&mut c, 2, 512), None);
    assert!(c.has_pending());
}
