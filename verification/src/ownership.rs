//! Ownership, borrowing, `Copy` and `Clone`, and lifetimes.

use vstd::prelude::*;
use vstd::string::StringExecFns;

verus! {

/// A named counter.
#[derive(Clone, Debug, PartialEq, Eq)]
pub struct Counter {
    pub name: String,
    pub counter: u32,
}

/// A counter of the given name that stands at 0.
pub fn new_counter(name: String) -> (cnt: Counter)
    ensures
        cnt.name == name,
        cnt.counter == 0,
{
    Counter { name: name, counter: 0 }
}

/// Counts one up, through a mutable borrow.
pub fn increment(cnt: &mut Counter)
    requires
        old(cnt).counter < u32::MAX,
    ensures
        final(cnt).counter == old(cnt).counter + 1,
        final(cnt).name == old(cnt).name,
{
    cnt.counter += 1;
}

/// Counts twice, reads the counter through two shared borrows, and counts
/// once more when both have been used for the last time: a mutable borrow
/// cannot overlap a shared one that is still to be used. Gives what the
/// two shared borrows read, and the counter as it is left.
pub fn overlapping_mut_borrowing() -> (end: (u32, u32, Counter))
    ensures
        end.0 == 2,
        end.1 == 2,
        end.2.name@ == "my counter"@,
        end.2.counter == 3,
{
    let mut cnt = new_counter(String::from_str("my counter"));
    increment(&mut cnt);
    increment(&mut cnt);
    let cnt_ref1 = &cnt;
    let cnt_ref2 = &cnt;
    let first = cnt_ref1.counter;
    let second = cnt_ref2.counter;
    increment(&mut cnt);
    (first, second, cnt)
}

/// Changes the borrowed text in place: " 13" is put behind it.
pub fn borrows_mutable(text: &mut String)
    ensures
        final(text)@ == old(text)@ + " 13"@,
{
    text.append(" 13");
}

/// A `u8` is `Copy`: after `let y = x` both can be used. Gives both.
pub fn copy_trait() -> (both: (u8, u8))
    ensures
        both == (123u8, 123u8),
{
    let x: u8 = 123;
    let y = x;
    (x, y)
}

/// A struct without `Copy`: passing it on moves it.
#[derive(Debug, PartialEq, Eq)]
pub struct RandomStruct {}

/// Takes ownership of its argument and hands it back.
pub fn random_func(x: RandomStruct) -> (back: RandomStruct)
    ensures
        back == x,
{
    x
}

/// A value that was moved into a function can be used again only if the
/// function hands it back: the second call takes what the first returned.
pub fn copy_fails() -> (back: RandomStruct)
    ensures
        back == (RandomStruct {}),
{
    let a = RandomStruct {};
    let a = random_func(a);
    random_func(a)
}

/// A clone is a new owner with data of its own: the vector and its clone
/// can both be used, and hold the same.
pub fn clone_trait() -> (both: (Vec<u8>, Vec<u8>))
    ensures
        both.0@ == seq![1u8, 2u8, 3u8],
        both.1@ == both.0@,
{
    let v: Vec<u8> = vec![1, 2, 3];
    let w = v.clone();
    (v, w)
}

/// The longer of two texts by their length in bytes, and the second where
/// they are equally long. The lifetime says that the result lives as long
/// as both arguments do.
pub fn longest<'a>(x: &'a str, y: &'a str) -> (longer: &'a str)
    ensures
        longer == (if x.len() > y.len() {
            x
        } else {
            y
        }),
{
    if x.len() > y.len() {
        x
    } else {
        y
    }
}

} // verus!
