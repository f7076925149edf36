use std::ops::{Deref, DerefMut};
use tap_trait::Tap;

#[test]
fn chain_from_two_to_text() {
    let mut seen: Vec<String> = Vec::new();
    let value = 2i32
        .tap(|x| {
            assert_eq!(x, 2);
            seen.push(format!("{}", x));
        })
        .tap_mut(|x| *x += 1)
        .tap(|x| assert_eq!(x, 3))
        .tap_mut(|x| *x *= 3)
        .tap(|x| assert_eq!(x, 9));
    let negated = -value;
    let text = negated
        .tap(|x| assert_eq!(x, -9))
        .to_string()
        .tap_ref(|x| assert_eq!(x, "-9"))
        .tap_mut(|x| *x += ".0")
        .tap_ref(|x| assert_eq!(x, "-9.0"));
    assert_eq!(text, "-9.0");
    assert_eq!(seen, vec!["2".to_string()]);
}

#[test]
fn inspection_leaves_value_unchanged() {
    assert_eq!(7u8.tap(|_| {}), 7);
    assert_eq!(vec![1, 2, 3].tap_ref(|v| assert_eq!(v.len(), 3)), vec![1, 2, 3]);
    assert_eq!(String::from("abc").tap_mut(|_| {}), "abc");
    assert_eq!((4i64, true).tap_mut(|p| assert!(p.1)), (4, true));
}

#[test]
fn tap_mut_returns_mutated_value() {
    let v = vec![3, 1, 2].tap_mut(|v| v.sort());
    assert_eq!(v, vec![1, 2, 3]);
    let n = 10u32.tap_mut(|x| *x = *x * *x + 1);
    assert_eq!(n, 101);
}

#[test]
fn tap_copy_does_not_affect_result() {
    let mut copy_seen = 0u32;
    let r = 5u32.tap(|mut x| {
        x += 100;
        copy_seen = x;
    });
    assert_eq!(r, 5);
    assert_eq!(copy_seen, 105);
}

#[test]
fn each_method_calls_callback_once() {
    let mut n = 0;
    let _ = 1u8.tap(|_| n += 1);
    assert_eq!(n, 1);
    let mut n = 0;
    let _ = 1u8.tap_ref(|_| n += 1);
    assert_eq!(n, 1);
    let mut n = 0;
    let _ = 1u8.tap_mut(|_| n += 1);
    assert_eq!(n, 1);
    let mut n = 0;
    let _ = String::from("a").tap_as_ref(|_: &str| n += 1);
    assert_eq!(n, 1);
    let mut n = 0;
    let _ = vec![1u8].tap_as_mut(|_: &mut [u8]| n += 1);
    assert_eq!(n, 1);
    let mut n = 0;
    let _ = Box::new(1u8).tap_deref(|_| n += 1);
    assert_eq!(n, 1);
    let mut n = 0;
    let _ = Box::new(1u8).tap_deref_mut(|_| n += 1);
    assert_eq!(n, 1);
    let mut n = 0;
    let _ = String::from("a").tap_borrow(|_: &str| n += 1);
    assert_eq!(n, 1);
    let mut n = 0;
    let _ = vec![1u8].tap_borrow_mut(|_: &mut [u8]| n += 1);
    assert_eq!(n, 1);
}

#[test]
fn value_tap_chain_sees_original_twice() {
    let mut first = 0;
    let mut second = 0;
    let r = 8i32.tap(|x| first = x).tap(|x| second = x);
    assert_eq!((first, second, r), (8, 8, 8));
}

#[test]
fn mut_tap_chain_sees_previous_change() {
    let mut seen_by_second = 0;
    let r = 8i32
        .tap_mut(|x| *x += 2)
        .tap_mut(|x| {
            seen_by_second = *x;
            *x *= 3;
        });
    assert_eq!(seen_by_second, 10);
    assert_eq!(r, 30);
}

struct Wrapper {
    inner: i32,
}

impl Wrapper {
    fn get(&self) -> i32 {
        self.inner
    }
}

impl Deref for Wrapper {
    type Target = i32;
    fn deref(&self) -> &i32 {
        &self.inner
    }
}

impl DerefMut for Wrapper {
    fn deref_mut(&mut self) -> &mut i32 {
        &mut self.inner
    }
}

#[test]
fn deref_mut_change_is_visible_through_wrapper() {
    let mut seen = 0;
    let w = Wrapper { inner: 4 }
        .tap_deref_mut(|x| *x += 5)
        .tap_deref(|x| seen = *x);
    assert_eq!(w.get(), 9);
    assert_eq!(seen, 9);
}

#[test]
fn deref_mut_change_is_visible_through_box() {
    let mut seen = String::new();
    let b = Box::new(String::from("ab"))
        .tap_deref_mut(|s| s.push('c'))
        .tap_deref(|s| seen = s.clone());
    assert_eq!(*b, "abc");
    assert_eq!(seen, "abc");
}

#[test]
fn shared_views_leave_value_unchanged() {
    let mut len = 0;
    let s = String::from("hello").tap_as_ref(|x: &str| len = x.len());
    assert_eq!(s, "hello");
    assert_eq!(len, 5);
    let mut first = 0u8;
    let v = vec![7u8, 8].tap_borrow(|x: &[u8]| first = x[0]);
    assert_eq!(v, vec![7, 8]);
    assert_eq!(first, 7);
}

#[test]
fn exclusive_views_keep_changes() {
    let v = vec![1, 2, 3].tap_as_mut(|x: &mut [i32]| x[0] = 10);
    assert_eq!(v, vec![10, 2, 3]);
    let w = vec![1, 2, 3].tap_borrow_mut(|x: &mut [i32]| x.reverse());
    assert_eq!(w, vec![3, 2, 1]);
    let s = String::from("abc").tap_borrow_mut(|x: &mut String| x.push('d'));
    assert_eq!(s, "abcd");
}
