//! Smart pointers: `Box` for values on the heap, `Rc` for values with
//! several owners.

use std::rc::Rc;
use vstd::prelude::*;

verus! {

/// A list whose every item owns the rest. The `Box` gives the rest a known
/// size, which a type that holds itself directly would not have.
#[derive(Debug)]
pub enum List {
    /// A number and the rest of the list.
    Cons(i32, Box<List>),
    /// The end of the list.
    Nil,
}

impl List {
    /// The numbers of the list, from its head.
    pub open spec fn items(self) -> Seq<i32>
        decreases self,
    {
        match self {
            List::Cons(head, rest) => seq![head] + rest.items(),
            List::Nil => Seq::empty(),
        }
    }
}

/// Builds the list of 32 and 12, and reads a 45 back out of a box.
pub fn recursive_list() -> (made: (List, i32))
    ensures
        made.0.items() == seq![32i32, 12i32],
        made.1 == 45,
{
    let list = List::Cons(32, Box::new(List::Cons(12, Box::new(List::Nil))));
    let a: i32 = 45;
    let b = Box::new(a);
    proof {
        reveal_with_fuel(List::items, 3);
    }
    (list, *b)
}

/// A list whose rest may be shared with other lists.
#[derive(Debug)]
pub enum SharedList {
    /// A number and the rest of the list, counted by reference.
    Cons(i32, Rc<SharedList>),
    /// The end of the list.
    Nil,
}

impl SharedList {
    /// The numbers of the list, from its head.
    pub open spec fn items(self) -> Seq<i32>
        decreases self,
    {
        match self {
            SharedList::Cons(head, rest) => seq![head] + rest.items(),
            SharedList::Nil => Seq::empty(),
        }
    }
}

/// `Rc::clone` of std makes one more pointer to the same value and counts
/// it. The new pointer points to what the old one points to.
#[verifier::external_body]
fn share(rc: &Rc<SharedList>) -> (shared: Rc<SharedList>)
    ensures
        shared == rc,
{
    Rc::clone(rc)
}

/// Builds the list of 100 and 10 and puts a 3 before it in one list and a
/// 4 in another. Both share the first list as their rest, which then has
/// three owners: itself and the two. Gives the shared list and the two
/// that share it.
pub fn reference_counting() -> (lists: (Rc<SharedList>, SharedList, SharedList))
    ensures
        lists.0.items() == seq![100i32, 10i32],
        lists.1.items() == seq![3i32, 100i32, 10i32],
        lists.2.items() == seq![4i32, 100i32, 10i32],
{
    let a = Rc::new(SharedList::Cons(100, Rc::new(SharedList::Cons(10, Rc::new(SharedList::Nil)))));
    let b = SharedList::Cons(3, share(&a));
    let c = SharedList::Cons(4, share(&a));
    proof {
        reveal_with_fuel(SharedList::items, 4);
    }
    (a, b, c)
}

/// Changes a 5 through a mutable borrow that ends with its block, and
/// reads the value when the borrow is over. That there is one mutable
/// borrow at a time is proved here, where a `RefCell` would test it while
/// the program runs.
pub fn refcell() -> (c: i32)
    ensures
        c == 6,
{
    let mut c: i32 = 5;
    {
        let v = &mut c;
        *v += 1;
    }
    c
}

/// Adds 3 to the head of the list of 5 and 10, through a mutable borrow of
/// the head that a pattern takes. The list here has one owner and is
/// borrowed mutably once, which is proved; a list behind `Rc` and
/// `RefCell` would have several owners and test the one borrow while the
/// program runs.
pub fn combined_rc_refcell() -> (list: List)
    ensures
        list.items() == seq![8i32, 10i32],
{
    let mut list = List::Cons(5, Box::new(List::Cons(10, Box::new(List::Nil))));
    proof {
        reveal_with_fuel(List::items, 3);
    }
    if let List::Cons(ref mut v, ref mut _r) = list {
        *v += 3;
    }
    list
}

} // verus!
