//! Generic functions, traits and trait bounds.

use std::fmt::Debug;
use std::fmt::Display;
use std::ops::Deref;
use vstd::prelude::*;
use vstd::std_specs::cmp::PartialOrdIs;
use vstd::std_specs::cmp::PartialOrdSpec;
use vstd::string::StringExecFns;

verus! {

/// Whether the comparisons of `T` return what their specification says.
pub open spec fn compares_as_specified<T: PartialOrd>() -> bool {
    T::obeys_partial_cmp_spec()
}

/// The item that a walk from the left ends with, if it starts with the
/// first item and moves on to each later item that is greater than the
/// one it holds.
pub open spec fn highest_of<T: PartialOrd>(list: Seq<T>) -> T
    recommends
        list.len() > 0,
    decreases list.len(),
{
    if list.len() <= 1 {
        list[0]
    } else {
        let before = highest_of(list.drop_last());
        if before.is_lt(&list.last()) {
            list.last()
        } else {
            before
        }
    }
}

/// The highest item of a list that is not empty, for any type whose
/// values can be compared.
pub fn generic_highest<T: PartialOrd>(list: &[T]) -> (highest: &T)
    requires
        list@.len() > 0,
    ensures
        exists|i: int| 0 <= i < list@.len() && *highest == list@[i],
        compares_as_specified::<T>() ==> *highest == highest_of(list@),
{
    let mut highest = &list[0];
    let mut i: usize = 1;
    while i < list.len()
        invariant
            1 <= i <= list@.len(),
            exists|k: int| 0 <= k < list@.len() && *highest == list@[k],
            compares_as_specified::<T>() ==> *highest == highest_of(list@.take(i as int)),
        decreases list@.len() - i,
    {
        let item = &list[i];
        assert(list@.take(i + 1).drop_last() =~= list@.take(i as int));
        if *highest < *item {
            highest = item;
        }
        i += 1;
    }
    assert(list@.take(i as int) =~= list@);
    highest
}

/// The highest item is one of the list.
pub proof fn lemma_highest_is_member<T: PartialOrd>(list: Seq<T>)
    requires
        list.len() > 0,
    ensures
        list.contains(highest_of(list)),
    decreases list.len(),
{
    if list.len() > 1 {
        lemma_highest_is_member(list.drop_last());
        let before = highest_of(list.drop_last());
        let k = choose|k: int| 0 <= k < list.drop_last().len() && list.drop_last()[k] == before;
        assert(list[k] == before);
    }
}

/// Where the comparisons of `T` obey the laws of an order, no item of the
/// list is greater than the highest.
pub proof fn lemma_highest_is_upper_bound<T: PartialOrd>(list: Seq<T>, i: int)
    requires
        0 <= i < list.len(),
        vstd::laws_cmp::obeys_partial_cmp_spec_properties::<T>(),
    ensures
        !highest_of(list).is_lt(&list[i]),
    decreases list.len(),
{
    reveal(vstd::laws_cmp::obeys_partial_cmp_spec_properties);
    if list.len() > 1 && i < list.len() - 1 {
        lemma_highest_is_upper_bound(list.drop_last(), i);
    }
}

/// Things that can be summed up in a line.
pub trait Summary {
    /// The line. Unless a type says otherwise, it is "Read more here!".
    fn summarize(&self) -> (summary: String)
        default_ensures
            summary@ == "Read more here!"@,
    {
        String::from_str("Read more here!")
    }
}

/// A newspaper article.
#[derive(Clone, Debug, PartialEq, Eq)]
pub struct Newspaper {
    pub headline: String,
    pub story: String,
}

impl Summary for Newspaper {
    /// A newspaper is summed up by its headline.
    fn summarize(&self) -> (summary: String)
        ensures
            summary@ == self.headline@,
    {
        self.headline.clone()
    }
}

/// Asks for the summary of anything that has one, with the bound written
/// as `impl Trait`.
pub fn needs_trait_short(item: &impl Summary) -> (summary: String)
    ensures
        call_ensures(Summary::summarize, (item,), summary),
{
    item.summarize()
}

/// The same with a named type parameter, which lets two arguments share
/// one type. Only the first is asked.
pub fn needs_trait<T: Summary>(item: &T, item2: &T) -> (summary: String)
    ensures
        call_ensures(T::summarize, (item,), summary),
{
    item.summarize()
}

/// Takes only what can be summed up and shown, with two bounds joined by
/// `+` in `impl Trait`.
pub fn needs_two_traits(item: &(impl Summary + Display)) {
}

/// The same with the two bounds on a named type parameter.
pub fn needs_two_traits_too<T: Summary + Display>(item: &T) {
}

/// Bounds on several type parameters read best in a `where` clause.
pub fn needs_two_traits_clear<T, U>(item: &T, item2: &U) -> (five: i32) where
    T: Summary + Display,
    U: Summary + Clone,

    ensures
        five == 5,
{
    return 5;
}

/// A struct may bound its type parameter as a function does.
#[derive(Debug)]
pub struct KeyLocker<T: Debug + PartialEq> {
    pub name: T,
}

/// A newspaper whose headline promises much. A caller that is to know no
/// more of it than that it can be summed up takes it as `impl Summary`.
pub fn returns_summarizable() -> (paper: Newspaper)
    ensures
        paper.headline@ == "You won't believe it"@,
        paper.story@ == "Omg I like the game so much I have to.."@,
{
    Newspaper {
        headline: String::from_str("You won't believe it"),
        story: String::from_str("Omg I like the game so much I have to.."),
    }
}

/// Two values of one type.
#[derive(Clone, Debug, PartialEq, Eq)]
pub struct Pair<T> {
    pub x: T,
    pub y: T,
}

/// One of the two members of a pair.
#[derive(Clone, Copy, Debug, PartialEq, Eq, Structural)]
pub enum Member {
    X,
    Y,
}

impl<T> Pair<T> {
    pub fn new(x: T, y: T) -> (pair: Self)
        ensures
            pair.x == x,
            pair.y == y,
    {
        Self { x, y }
    }
}

impl<T: PartialOrd> Pair<T> {
    /// The largest member: `x` where it is greater than `y` or equal to
    /// it, else `y`. Only pairs of a type that can be compared have this
    /// method.
    pub fn cmp_display(&self) -> (largest: Member)
        ensures
            compares_as_specified::<T>() ==> largest == (if self.x.is_ge(&self.y) {
                Member::X
            } else {
                Member::Y
            }),
    {
        if self.x >= self.y {
            Member::X
        } else {
            Member::Y
        }
    }
}

/// A box of one's own around a value.
pub struct MyBox<T>(pub T);

impl<T> Deref for MyBox<T> {
    type Target = T;

    /// `*y` on a box reads as `*(y.deref())`.
    fn deref(&self) -> (inner: &Self::Target)
        ensures
            *inner == self.0,
    {
        &self.0
    }
}

} // verus!
