use std::cmp::Ordering;
use std::collections::hash_map::DefaultHasher;
use std::hash::{Hash, Hasher};

use threadporter::{thread_bound, ThreadBound, ThreadId};

#[test]
fn equality_is_the_payloads() {
    let t1 = ThreadId::new(1);
    let a = thread_bound(String::from("same"), t1);
    let b = thread_bound(String::from("same"), t1);
    let c = thread_bound(String::from("other"), t1);
    assert!(a.eq(&b, t1));
    assert!(!a.eq(&c, t1));
    assert!(a.eq_value(&String::from("same"), t1));
    assert!(!a.eq_value(&String::from("other"), t1));
}

#[test]
fn partial_order_is_the_payloads() {
    let t1 = ThreadId::new(1);
    let one = thread_bound(1.0f64, t1);
    let two = thread_bound(2.0f64, t1);
    let nan = thread_bound(f64::NAN, t1);
    assert_eq!(one.partial_cmp(&two, t1), Some(Ordering::Less));
    assert_eq!(two.partial_cmp(&one, t1), Some(Ordering::Greater));
    assert_eq!(one.partial_cmp(&one, t1), Some(Ordering::Equal));
    assert_eq!(one.partial_cmp(&nan, t1), None);
    assert_eq!(one.partial_cmp_value(&0.5, t1), Some(Ordering::Greater));
    assert_eq!(nan.partial_cmp_value(&0.5, t1), None);
}

#[test]
fn total_order_is_the_payloads() {
    let t1 = ThreadId::new(1);
    let a = thread_bound("apple", t1);
    let b = thread_bound("berry", t1);
    assert_eq!(a.cmp(&b, t1), Ordering::Less);
    assert_eq!(b.cmp(&a, t1), Ordering::Greater);
    assert_eq!(a.cmp(&a, t1), Ordering::Equal);
}

#[test]
fn hash_is_the_payloads() {
    let t1 = ThreadId::new(1);
    let bound = thread_bound((3u8, String::from("three")), t1);
    let mut through_guard = DefaultHasher::new();
    bound.hash(&mut through_guard, t1);
    let mut bare = DefaultHasher::new();
    (3u8, String::from("three")).hash(&mut bare);
    assert_eq!(through_guard.finish(), bare.finish());
    assert_ne!(through_guard.finish(), DefaultHasher::new().finish());
}

#[test]
fn display_is_the_payloads() {
    let t1 = ThreadId::new(1);
    assert_eq!(thread_bound(String::from("x"), t1).display_string(t1), "x");
    assert_eq!(thread_bound(-12i64, t1).display_string(t1), "-12");
}

#[test]
fn debug_shows_the_payloads_own_form() {
    let t1 = ThreadId::new(1);
    let bound = thread_bound(vec![Some(1), None], t1);
    assert_eq!(
        bound.debug_string(t1),
        "ThreadBound { thread_id: ThreadId(1), value: [Some(1), None] }"
    );
}

#[test]
fn default_binds_the_default_value() {
    let t5 = ThreadId::new(5);
    let number = ThreadBound::<u32>::default(t5);
    assert_eq!(*number.deref(t5), 0);
    assert_eq!(ThreadBound::thread_id(&number), t5);
    assert!(!ThreadBound::is_taken(&number));
    let text = ThreadBound::<String>::default(t5);
    assert_eq!(text.deref(t5), "");
}
