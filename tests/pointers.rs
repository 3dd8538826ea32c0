use smart_pointers::borrow_flag::BorrowFlag;
use smart_pointers::chain::{Hello, HelloEnum};
use smart_pointers::custom_box::CustomBox;
use smart_pointers::cycle::Cycle;
use smart_pointers::scope::release_order;
use smart_pointers::shared::Counts;
use std::ops::Deref;

#[test]
fn leaf_has_no_links() {
    let h = Hello::leaf();
    assert!(h.hello.is_none());
    assert_eq!(h.length(), 0);
}

#[test]
fn wrapped_leaf_has_one_link() {
    let h = Hello::wrap(Hello::leaf());
    assert!(h.hello.as_ref().unwrap().hello.is_none());
    assert_eq!(h.length(), 1);
}

#[test]
fn chain_of_five() {
    assert_eq!(Hello::chain(5).length(), 5);
    assert_eq!(Hello::chain(0).length(), 0);
}

#[test]
fn enum_chain_of_one_is_boxed_null() {
    let h = HelloEnum::chain(1);
    match h {
        HelloEnum::Hello(next) => assert!(matches!(*next, HelloEnum::Null)),
        HelloEnum::Null => panic!("expected a link"),
    }
}

#[test]
fn enum_chain_lengths() {
    assert_eq!(HelloEnum::chain(0).length(), 0);
    assert_eq!(HelloEnum::chain(3).length(), 3);
}

#[test]
fn custom_box_dereferences_to_its_value() {
    let x = 5;
    let b = CustomBox::new(x);
    assert_eq!(*b, 5);
    assert_eq!(*(b.deref()), 5);
    assert_eq!(b.0, x);
}

#[test]
fn custom_box_coerces_string_to_str() {
    let b = CustomBox::new(String::from("My_string"));
    let s: &str = &b;
    assert_eq!(s, "My_string");
}

#[test]
fn three_owners_count_three() {
    let mut c = Counts::new();
    assert_eq!((c.strong, c.weak), (1, 0));
    c.clone_strong();
    c.clone_strong();
    assert_eq!(c.strong, 3);
    assert!(c.is_alive());
}

#[test]
fn release_decrements_and_reports_last_owner() {
    let mut c = Counts::new();
    c.clone_strong();
    assert!(!c.release_strong());
    assert_eq!(c.strong, 1);
    assert!(c.release_strong());
    assert_eq!(c.strong, 0);
    assert!(!c.is_alive());
}

#[test]
fn weak_upgrade_succeeds_while_owned() {
    let mut c = Counts::new();
    c.downgrade();
    c.downgrade();
    assert_eq!((c.strong, c.weak), (1, 2));
    assert!(c.upgrade());
    assert_eq!(c.strong, 2);
    assert_eq!(c.weak, 2);
}

#[test]
fn weak_upgrade_fails_after_last_owner() {
    let mut c = Counts::new();
    c.downgrade();
    c.downgrade();
    assert!(c.upgrade());
    assert!(!c.release_strong());
    c.release_weak();
    assert!(c.release_strong());
    assert!(!c.upgrade());
    assert_eq!((c.strong, c.weak), (0, 1));
    assert!(!c.upgrade());
    assert_eq!(c.strong, 0);
}

#[test]
fn clone_then_release_restores_counts() {
    let mut c = Counts::new();
    c.downgrade();
    let before = c;
    c.clone_strong();
    c.release_strong();
    assert_eq!(c, before);
}

#[test]
fn shared_borrows_stack() {
    let mut f = BorrowFlag::new();
    assert!(f.try_borrow());
    assert!(f.try_borrow());
    assert_eq!(f.readers, 2);
    assert!(!f.try_borrow_mut());
    f.release_shared();
    f.release_shared();
    assert!(f.try_borrow_mut());
}

#[test]
fn second_exclusive_borrow_is_refused() {
    let mut f = BorrowFlag::new();
    assert!(f.try_borrow_mut());
    let held = f;
    assert!(!f.try_borrow_mut());
    assert!(!f.try_borrow());
    assert_eq!(f, held);
    f.release_exclusive();
    assert_eq!(f, BorrowFlag::new());
    assert!(f.try_borrow());
}

#[test]
fn scope_releases_in_reverse() {
    assert_eq!(release_order(&vec![5, 1]), vec![1, 5]);
    assert_eq!(release_order(&vec![]), Vec::<u64>::new());
    assert_eq!(release_order(&vec![7, 8, 9]), vec![9, 8, 7]);
}

#[test]
fn strong_cycle_frees_neither() {
    let mut c = Cycle::build(true);
    assert_eq!((c.first.strong, c.second.strong), (2, 2));
    assert_eq!(c.drop_locals(), (false, false));
    assert_eq!((c.first.strong, c.second.strong), (1, 1));
}

#[test]
fn weak_back_handle_frees_both() {
    let mut c = Cycle::build(false);
    assert_eq!((c.second.strong, c.second.weak), (1, 1));
    assert_eq!(c.drop_locals(), (true, true));
    assert_eq!(c.first, Counts { strong: 0, weak: 0 });
    assert_eq!(c.second, Counts { strong: 0, weak: 0 });
}
