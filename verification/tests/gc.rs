//! Lifecycle tests: instances are destroyed exactly once, by the right
//! path — synchronously when never wrapped, by the collector pass when
//! wrapped.

use jsg::resource::Instances;
use jsg::resource::LifeState;

struct SimpleResource {
    name: String,
}

/// Dropping the last reference of a never-wrapped instance destroys it
/// immediately, before anything else runs.
#[test]
fn supports_gc_via_realm_drop() {
    let mut heap: Instances<SimpleResource> = Instances::new();
    let resource = heap.allocate(SimpleResource { name: "test".to_owned() });
    assert_eq!(heap.dtor_count(), 0);
    heap.drop_ref(resource);
    assert_eq!(heap.dtor_count(), 1);
}

/// A wrapped instance survives the loss of every strong reference and is
/// destroyed by the collector's weak callback instead.
#[test]
fn supports_gc_via_weak_callback() {
    let mut heap: Instances<SimpleResource> = Instances::new();
    let resource = heap.allocate(SimpleResource { name: "test".to_owned() });
    let cloned = heap.clone_ref(&resource);
    assert!(heap.wrap(&cloned).is_ok());
    assert_eq!(heap.dtor_count(), 0);
    heap.drop_ref(cloned);
    assert_eq!(heap.dtor_count(), 0);
    heap.drop_ref(resource);
    // the host object still holds the instance
    assert_eq!(heap.dtor_count(), 0);
    heap.run_collector();
    assert_eq!(heap.dtor_count(), 1);
}

/// Allocate with count one, drop once: one destructor run.
#[test]
fn unwrapped_drop_destroys_once() {
    let mut heap: Instances<u32> = Instances::new();
    let r1 = heap.allocate(41);
    assert_eq!(heap.strong_count(r1.id), 1);
    assert_eq!(heap.state(r1.id), LifeState::Unwrapped);
    heap.drop_ref(r1);
    assert_eq!(heap.dtor_count(), 1);
}

/// Allocate, wrap, clone to count two, drop both references: no destructor
/// runs until the collector pass, which runs it exactly once.
#[test]
fn wrapped_drops_defer_to_collector() {
    let mut heap: Instances<u32> = Instances::new();
    let r2 = heap.allocate(7);
    assert!(heap.wrap(&r2).is_ok());
    let extra = heap.clone_ref(&r2);
    assert_eq!(heap.strong_count(extra.id), 2);
    let id = r2.id;
    heap.drop_ref(r2);
    heap.drop_ref(extra);
    assert_eq!(heap.strong_count(id), 0);
    assert_eq!(heap.state(id), LifeState::WrappedWeak);
    assert_eq!(heap.dtor_count(), 0);
    // the data is still there: nothing destroyed it
    assert!(heap.get(id).is_some());
    heap.run_collector();
    assert_eq!(heap.dtor_count(), 1);
    assert!(heap.get(id).is_none());
    assert_eq!(heap.state(id), LifeState::Collected);
}

/// A collector pass never frees an instance a strong reference protects:
/// the wrapper alone does not make it collectible.
#[test]
fn collector_spares_strongly_referenced() {
    let mut heap: Instances<u32> = Instances::new();
    let r3 = heap.allocate(3);
    assert!(heap.wrap(&r3).is_ok());
    assert_eq!(heap.state(r3.id), LifeState::WrappedStrong);
    heap.run_collector();
    assert_eq!(heap.dtor_count(), 0);
    assert!(heap.get(r3.id).is_some());
    heap.drop_ref(r3);
}

/// A second collection pass finds nothing weak: the destructor does not run
/// again.
#[test]
fn second_collection_pass_is_a_noop() {
    let mut heap: Instances<String> = Instances::new();
    let r = heap.allocate("payload".to_owned());
    assert!(heap.wrap(&r).is_ok());
    heap.drop_ref(r);
    heap.run_collector();
    assert_eq!(heap.dtor_count(), 1);
    heap.run_collector();
    assert_eq!(heap.dtor_count(), 1);
}

/// Wrapping is a once-only transition: a second attempt is rejected and no
/// second wrapper record appears, cloned references notwithstanding.
#[test]
fn rewrap_is_rejected() {
    let mut heap: Instances<u32> = Instances::new();
    let r = heap.allocate(1);
    let first = heap.wrap(&r);
    assert!(first.is_ok());
    let cloned = heap.clone_ref(&r);
    let second = heap.wrap(&cloned);
    match second {
        Ok(_) => panic!("a second wrap must be rejected"),
        Err(e) => {
            assert_eq!(e.name, jsg::ExceptionType::Error);
            assert_eq!(e.message, "instance is already wrapped");
        },
    }
    heap.drop_ref(cloned);
    heap.drop_ref(r);
    // still wrapped once: the collector, not the drops, destroys it
    assert_eq!(heap.dtor_count(), 0);
    heap.run_collector();
    assert_eq!(heap.dtor_count(), 1);
}

/// The finalizer can be driven one instance at a time through the token
/// handed out at wrap time, and each instance dies exactly once while its
/// neighbours live on.
#[test]
fn weak_drop_by_state_token() {
    let mut heap: Instances<u32> = Instances::new();
    let a = heap.allocate(10);
    let b = heap.allocate(20);
    let token = heap.wrap(&a).unwrap();
    let id_b = b.id;
    heap.drop_ref(a);
    heap.invoke_weak_drop(token);
    assert_eq!(heap.dtor_count(), 1);
    assert_eq!(heap.get(id_b).copied(), Some(20));
    heap.drop_ref(b);
    assert_eq!(heap.dtor_count(), 2);
}

/// A pass over an empty arena does nothing.
#[test]
fn collecting_an_empty_arena_does_nothing() {
    let mut heap: Instances<u8> = Instances::new();
    heap.run_collector();
    assert_eq!(heap.dtor_count(), 0);
}

/// One pass over a mixed arena: exactly the weak instances go, in one
/// sweep, and everything else stays.
#[test]
fn collection_pass_takes_exactly_the_weak() {
    let mut heap: Instances<u32> = Instances::new();
    let strong = heap.allocate(1);
    let wrapped_strong = heap.allocate(2);
    assert!(heap.wrap(&wrapped_strong).is_ok());
    let wrapped_weak = heap.allocate(3);
    assert!(heap.wrap(&wrapped_weak).is_ok());
    let weak_id = wrapped_weak.id;
    heap.drop_ref(wrapped_weak);
    assert_eq!(heap.dtor_count(), 0);
    heap.run_collector();
    assert_eq!(heap.dtor_count(), 1);
    assert!(heap.get(weak_id).is_none());
    assert_eq!(heap.get(strong.id).copied(), Some(1));
    assert_eq!(heap.get(wrapped_strong.id).copied(), Some(2));
    heap.drop_ref(strong);
    heap.drop_ref(wrapped_strong);
}
