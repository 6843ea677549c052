use primer::pointers::{
    combined_rc_refcell, recursive_list, refcell, reference_counting, List, SharedList,
};
use std::rc::Rc;

fn items(list: &List) -> Vec<i32> {
    let mut out = Vec::new();
    let mut at = list;
    while let List::Cons(head, rest) = at {
        out.push(*head);
        at = rest;
    }
    out
}

fn shared_items(list: &SharedList) -> Vec<i32> {
    let mut out = Vec::new();
    let mut at = list;
    while let SharedList::Cons(head, rest) = at {
        out.push(*head);
        at = rest;
    }
    out
}

#[test]
fn recursive_list_of_two() {
    let (list, value) = recursive_list();
    assert_eq!(items(&list), vec![32, 12]);
    assert_eq!(value, 45);
}

#[test]
fn reference_counting_shares_the_rest() {
    let (a, b, c) = reference_counting();
    assert_eq!(shared_items(&a), vec![100, 10]);
    assert_eq!(shared_items(&b), vec![3, 100, 10]);
    assert_eq!(shared_items(&c), vec![4, 100, 10]);
    assert_eq!(Rc::strong_count(&a), 3);
    match (&b, &c) {
        (SharedList::Cons(_, rest_b), SharedList::Cons(_, rest_c)) => {
            assert!(Rc::ptr_eq(rest_b, &a));
            assert!(Rc::ptr_eq(rest_c, &a));
        }
        _ => panic!("both lists begin with a number"),
    }
    drop(b);
    assert_eq!(Rc::strong_count(&a), 2);
}

#[test]
fn refcell_adds_one() {
    assert_eq!(refcell(), 6);
}

#[test]
fn combined_rc_refcell_changes_the_head() {
    assert_eq!(items(&combined_rc_refcell()), vec![8, 10]);
}
