use regl::id::{IdGenerator, WeakId};
use regl::tracker::SimpleTracker;

#[test]
fn binding_twice_in_a_row_binds_once() {
    let mut generator = IdGenerator::new();
    let a = generator.generate_id();
    let mut tracker = SimpleTracker::new();
    let mut invoked = 0;
    if tracker.bind_if(&a) {
        invoked += 1;
    }
    if tracker.bind_if(&a) {
        invoked += 1;
    }
    assert_eq!(invoked, 1);
    assert_eq!(tracker.current(), a.weak());
}

#[test]
fn a_displaced_object_is_bound_again() {
    let mut generator = IdGenerator::new();
    let a = generator.generate_id();
    let b = generator.generate_id();
    let mut tracker = SimpleTracker::new();
    assert!(tracker.bind_if(&a));
    assert!(tracker.bind_if(&b));
    assert_eq!(tracker.current(), b.weak());
    assert!(tracker.bind_if(&a));
    assert_eq!(tracker.current(), a.weak());
}

#[test]
fn bind_none_forces_the_next_bind() {
    let mut generator = IdGenerator::new();
    let a = generator.generate_id();
    let mut tracker = SimpleTracker::new();
    assert!(tracker.bind_if(&a));
    tracker.bind_none();
    assert_eq!(tracker.current(), WeakId::empty());
    assert!(tracker.bind_if(&a));
    assert!(!tracker.bind_if(&a));
}

#[test]
fn a_new_tracker_holds_nothing() {
    let tracker = SimpleTracker::new();
    assert_eq!(tracker.current(), WeakId::empty());
}

#[test]
fn many_rebinds_of_one_object_bind_once() {
    let mut generator = IdGenerator::new();
    let a = generator.generate_id();
    let mut tracker = SimpleTracker::new();
    let invoked = (0..20).filter(|_| tracker.bind_if(&a)).count();
    assert_eq!(invoked, 1);
}
