//! Closures: functions held in a variable or handed to a function.

use vstd::prelude::*;

verus! {

/// One more than `x`, written as a named function. As a closure the same
/// reads `|x: u32| -> u32 { x + 1 }`.
pub fn add_one_v1(x: u32) -> (next: u32)
    requires
        x < u32::MAX,
    ensures
        next == x + 1,
{
    return x + 1;
}

/// Puts a 7 behind the list that it borrows mutably.
fn borrows_mutably(list: &mut Vec<i32>)
    ensures
        final(list)@ == old(list)@.push(7),
{
    list.push(7);
}

/// Gives a list as it is before and after one call of what borrows it
/// mutably.
pub fn example_closure() -> (lists: (Vec<i32>, Vec<i32>))
    ensures
        lists.0@ == seq![1i32, 2i32, 3i32],
        lists.1@ == seq![1i32, 2i32, 3i32, 7i32],
{
    let mut list: Vec<i32> = vec![1, 2, 3];
    let before = list.clone();
    borrows_mutably(&mut list);
    (before, list)
}

/// Calls the function that it is given on 5, and gives what came back.
pub fn pass_me_a_func<F>(function: F) -> (a: i32) where F: Fn(i32) -> i32
    requires
        call_requires(function, (5i32,)),
    ensures
        call_ensures(function, (5i32,), a),
{
    function(5)
}

/// Hands a closure that squares its argument to a function: 5 gives 25.
pub fn passing_a_func() -> (a: i32)
    ensures
        a == 25,
{
    let func = |i: i32| -> (square: i32)
        requires
            -46340 <= i <= 46340,
        ensures
            square == i * i,
        {
            assert(i * i <= 46340 * 46340) by (nonlinear_arith)
                requires
                    -46340 <= i <= 46340,
            ;
            assert(0 <= i * i) by (nonlinear_arith);
            i * i
        };
    pass_me_a_func(func)
}

/// A rectangle, by its sides.
#[derive(Clone, Copy, Debug, PartialEq, Eq, Structural)]
pub struct Rectangle {
    pub width: u32,
    pub height: u32,
}

/// The rectangles of `list` that are `width` wide, in their order.
pub open spec fn of_width(list: Seq<Rectangle>, width: u32) -> Seq<Rectangle> {
    list.filter(|r: Rectangle| r.width == width)
}

/// Whether no rectangle of `list` is wider than a later one.
pub open spec fn sorted_by_width(list: Seq<Rectangle>) -> bool {
    forall|i: int, j: int| 0 <= i <= j < list.len() ==> list[i].width <= list[j].width
}

/// Sorts with `sort_by_key` of std, the key being the closure that picks
/// the width. Of std's sort this says what its documentation promises:
/// the keys come out in ascending order, and items of one key keep the
/// order that they had, so that nothing is lost or made.
#[verifier::external_body]
fn sort_by_width(list: &mut [Rectangle; 3])
    ensures
        sorted_by_width(final(list)@),
        forall|width: u32| of_width(final(list)@, width) == of_width(old(list)@, width),
{
    list.sort_by_key(|r| r.width);
}

/// A rectangle that is among those of some width is in the list.
proof fn lemma_of_width_is_in(list: Seq<Rectangle>, width: u32, r: Rectangle)
    requires
        of_width(list, width).contains(r),
    ensures
        list.contains(r),
{
    list.lemma_filter_contains_rev(|r: Rectangle| r.width == width, r);
}

/// Sorts three rectangles by their width.
pub fn sort() -> (list: [Rectangle; 3])
    ensures
        list@ == seq![
            Rectangle { width: 3, height: 5 },
            Rectangle { width: 7, height: 12 },
            Rectangle { width: 10, height: 1 },
        ],
{
    let mut list = [
        Rectangle { width: 10, height: 1 },
        Rectangle { width: 3, height: 5 },
        Rectangle { width: 7, height: 12 },
    ];
    let ghost before = list@;
    sort_by_width(&mut list);
    proof {
        reveal_with_fuel(Seq::filter, 4);
        lemma_of_width_is_in(list@, 3, before[1]);
        lemma_of_width_is_in(list@, 7, before[2]);
        lemma_of_width_is_in(list@, 10, before[0]);
    }
    list
}

} // verus!
