use mini_channel::cell::Cell;
use mini_channel::elision;
use mini_channel::holder;
use mini_channel::hygiene::{across_scope, hygiene};
use mini_channel::lifetimes::{longest, pick_first};
use mini_channel::patterns::{and_mut, ref_mut, ref_mut2, ref_mut3, Foo};
use mini_channel::refcell::{RefCell, RefState};

#[test]
fn test_valid() {
    let s1 = String::from("looooong");
    let s2 = String::from("short");
    assert_eq!(longest(&s1, &s2), "looooong");
}

#[test]
fn test_invalid() {
    let s1 = String::from("looooong");
    let s2 = String::from("short");
    let result = longest(&s1, &s2);
    assert_eq!(result, "looooong");
}

#[test]
fn test_partial_mark() {
    let s1 = String::from("looooong");
    let s2 = String::from("short");
    let result = pick_first(&s1, &s2);
    drop(s2);
    assert_eq!(result, "looooong");
}

#[test]
fn longest_prefers_second_on_tie() {
    let s1 = String::from("abc");
    let s2 = String::from("xyz");
    assert!(std::ptr::eq(longest(&s1, &s2), &s2));
    let s3 = String::from("ab");
    assert_eq!(longest(&s3, &s1), "abc");
}

#[test]
fn longest_counts_bytes() {
    let s1 = String::from("\u{e9}\u{e9}");
    let s2 = String::from("abc");
    assert_eq!(longest(&s1, &s2), "\u{e9}\u{e9}");
}

#[test]
fn test_self_lifetime() {
    let m = elision::MyStruct {};
    let msg = String::from("msg");
    let result = m.empty(&msg);
    drop(msg);
    assert_eq!(result, "");
}

#[test]
fn test_other_lifetime() {
    let m = elision::MyStruct {};
    let msg = String::from("msg");
    let result = m.msg(&msg);
    drop(m);
    assert_eq!(result, "msg");
}

#[test]
fn test_lifetime() {
    let s = String::from("str");
    let m = holder::MyStruct { refer: &s };
    assert_eq!(m.refer, "str");

    let msg = String::from("msg");
    let result = m.empty(&msg);
    assert_eq!(result, "");

    let result = m.msg(&msg);
    drop(s);
    assert_eq!(result, "msg");
}

#[test]
fn test_hygiene() {
    assert!(hygiene() == 1);
}

#[test]
fn test_across_scope() {
    assert!(across_scope() == 2);
}

#[test]
fn it_works() {
    let s = String::from("abc");
    assert_eq!(ref_mut(Some(&s)), Some(""));
    assert_eq!(ref_mut(None), None);

    let s = String::from("abc");
    assert_eq!(ref_mut2(Some(&s)), Some(""));

    let s = String::from("abc");
    assert_eq!(ref_mut3(Some(&s)), Some("abc"));
}

#[test]
fn it_works2() {
    let mut input = Foo { id: 42 };
    assert_eq!(and_mut(Some(&mut input)), Some(Foo { id: 42 }));
    assert_eq!(ref_mut(None), None);
}

#[test]
fn patterns_on_none() {
    assert_eq!(ref_mut2(None), None);
    assert_eq!(ref_mut3(None), None);
    assert_eq!(and_mut(None), None);
}

#[test]
fn cell_works() {
    let mut b = Cell::new(1usize);
    b.set(2);
    assert_eq!(b.get(), 2);
}

#[test]
fn borrow() {
    let mut c = RefCell::new(5);

    let borrowed_five = c.borrow().unwrap();
    let borrowed_five2 = c.borrow().unwrap();
    assert_eq!(borrowed_five.get(), 5);
    assert_eq!(borrowed_five2.get(), 5);
    assert_eq!(c.borrow_state(), RefState::Shared(2));
}

#[test]
fn borrow_after_mut() {
    let mut c = RefCell::new(5);

    let mut borrowed_five = c.borrow_mut().unwrap();
    borrowed_five.set(6);

    assert!(c.borrow().is_none());
    assert!(c.borrow_mut().is_none());
}

#[test]
fn mut_after_borrow() {
    let mut c = RefCell::new(5);

    let borrowed_five = c.borrow().unwrap();
    assert_eq!(borrowed_five.get(), 5);
    assert!(c.borrow_mut().is_none());
}

#[test]
fn mut_after_one_borrow_drop() {
    let mut c = RefCell::new(5);

    let borrowed1 = c.borrow().unwrap();
    let borrowed2 = c.borrow().unwrap();
    assert_eq!(borrowed1.get(), 5);
    assert_eq!(borrowed2.get(), 5);
    c.release(borrowed1);

    let borrowed_mut = c.borrow_mut();
    assert!(borrowed_mut.is_none());
}

#[test]
fn mut_after_borrow_drop() {
    let mut c = RefCell::new(5);

    let borrowed1 = c.borrow().unwrap();
    let borrowed2 = c.borrow().unwrap();
    assert_eq!(borrowed1.get(), 5);
    assert_eq!(borrowed2.get(), 5);
    c.release(borrowed1);
    c.release(borrowed2);

    let mut borrowed_mut = c.borrow_mut().unwrap();
    assert_eq!(borrowed_mut.get(), 5);
    borrowed_mut.set(6);
}

#[test]
fn borrow_after_mut_drop() {
    let mut c = RefCell::new(5);

    let mut borrowed_mut = c.borrow_mut().unwrap();
    assert_eq!(borrowed_mut.get(), 5);
    borrowed_mut.set(6);
    c.release_mut(borrowed_mut);

    let borrowed = c.borrow().unwrap();
    assert_eq!(borrowed.get(), 6);
}

#[test]
fn exclusive_borrow_changes_nothing_until_released() {
    let mut c = RefCell::new(5);
    let mut m = c.borrow_mut().unwrap();
    m.set(9);
    assert_eq!(c.borrow_state(), RefState::Exclusive);
    c.release_mut(m);
    assert_eq!(c.borrow_state(), RefState::Unshared);
    assert_eq!(c.borrow().unwrap().get(), 9);
}
