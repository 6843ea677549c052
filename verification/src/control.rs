//! Branches, loops and `match`.

use vstd::prelude::*;

verus! {

/// What one number of a walk is called.
#[derive(Clone, Copy, Debug, PartialEq, Eq, Structural)]
pub enum Level {
    Low,
    LowAndEven,
    High(i32),
    VeryHigh(i32),
    AnythingElse,
}

/// The level of `i`: the first of the five cases that applies.
pub open spec fn level_of(i: int) -> Level {
    if i == 0 {
        Level::Low
    } else if i == 2 || i == 4 || i == 6 {
        Level::LowAndEven
    } else if 7 <= i <= 8 {
        Level::High(i as i32)
    } else if i > 8 {
        Level::VeryHigh(i as i32)
    } else {
        Level::AnythingElse
    }
}

/// Sorts one number into its level with alternatives, a range and a guard.
pub fn classify(i: i32) -> (level: Level)
    ensures
        level == level_of(i as int),
{
    match i {
        0 => Level::Low,
        2 | 4 | 6 => Level::LowAndEven,
        7..=8 => Level::High(i),
        i if i > 8 => Level::VeryHigh(i),
        _ => Level::AnythingElse,
    }
}


/// What matching a triple of numbers found.
#[derive(Clone, Copy, Debug, PartialEq, Eq, Structural)]
pub enum TripleShape {
    /// The first is 0; the other two are bound.
    FirstZero { y: i32, z: i32 },
    /// The first is 1, whatever the rest.
    FirstOne,
    /// The last is 2, whatever the rest.
    LastTwo,
    /// The first is 3 and the last is 4.
    FirstThreeLastFour,
    /// None of the above.
    Rest,
}

/// The first arm that a triple meets, top to bottom.
pub open spec fn triple_shape_of(t: (i32, i32, i32)) -> TripleShape {
    if t.0 == 0 {
        TripleShape::FirstZero { y: t.1, z: t.2 }
    } else if t.0 == 1 {
        TripleShape::FirstOne
    } else if t.2 == 2 {
        TripleShape::LastTwo
    } else if t.0 == 3 && t.2 == 4 {
        TripleShape::FirstThreeLastFour
    } else {
        TripleShape::Rest
    }
}

/// Destructures a tuple, ignoring parts of it with `..`.
pub fn match_triple(triple: (i32, i32, i32)) -> (shape: TripleShape)
    ensures
        shape == triple_shape_of(triple),
{
    match triple {
        (0, y, z) => TripleShape::FirstZero { y, z },
        (1, ..) => TripleShape::FirstOne,
        (.., 2) => TripleShape::LastTwo,
        (3, .., 4) => TripleShape::FirstThreeLastFour,
        _ => TripleShape::Rest,
    }
}

/// A colour, by name or by its red, green and blue parts.
#[allow(clippy::upper_case_acronyms)]
#[derive(Clone, Copy, Debug, PartialEq, Eq, Structural)]
pub enum Color {
    Red,
    Blue,
    Green,
    RGB(u32, u32, u32),
}

/// The colours that have a name of their own.
#[derive(Clone, Copy, Debug, PartialEq, Eq, Structural)]
pub enum Named {
    Red,
    Blue,
    Green,
}

/// The name of a colour that has one.
pub open spec fn name_of(color: Color) -> Option<Named> {
    match color {
        Color::Red => Some(Named::Red),
        Color::Blue => Some(Named::Blue),
        Color::Green => Some(Named::Green),
        Color::RGB(_, _, _) => None,
    }
}

/// Matches a colour against the three named ones.
pub fn match_color(color: Color) -> (name: Option<Named>)
    ensures
        name == name_of(color),
{
    match color {
        Color::Red => Some(Named::Red),
        Color::Blue => Some(Named::Blue),
        Color::Green => Some(Named::Green),
        _ => None,
    }
}

/// A pair and a number, to be taken apart by a pattern.
#[derive(Clone, Copy, Debug, PartialEq, Eq)]
pub struct Foo {
    pub x: (u32, u32),
    pub y: u32,
}

/// What matching a `Foo` found.
#[derive(Clone, Copy, Debug, PartialEq, Eq)]
pub enum FooShape {
    /// The first of `x` is 1; `b` is its second, `y` is `y`.
    FirstOfXIsOne { b: u32, y: u32 },
    /// `y` is 2; `i` is the whole of `x`.
    YIsTwo { i: (u32, u32) },
    /// Neither.
    Rest,
}

/// The first arm that a `Foo` meets.
pub open spec fn foo_shape_of(foo: Foo) -> FooShape {
    if foo.x.0 == 1 {
        FooShape::FirstOfXIsOne { b: foo.x.1, y: foo.y }
    } else if foo.y == 2 {
        FooShape::YIsTwo { i: foo.x }
    } else {
        FooShape::Rest
    }
}

/// Destructures a struct; fields may be renamed and come in any order.
pub fn match_foo(foo: Foo) -> (shape: FooShape)
    ensures
        shape == foo_shape_of(foo),
{
    match foo {
        Foo { x: (1, b), y } => FooShape::FirstOfXIsOne { b, y },
        Foo { y: 2, x: i } => FooShape::YIsTwo { i },
        _ => FooShape::Rest,
    }
}

/// `match` as an expression: 0 for `false`, 1 for `true`.
pub fn binary_of(boolean: bool) -> (binary: i32)
    ensures
        binary == (if boolean { 1i32 } else { 0i32 }),
{
    match boolean {
        false => 0,
        true => 1,
    }
}

/// All that `match_statement` finds.
#[derive(Debug)]
pub struct Matches {
    /// The level of each number from 0 up to 9, in order.
    pub levels: Vec<Level>,
    pub binary: i32,
    pub triple: TripleShape,
    pub color: Option<Named>,
    pub foo: FooShape,
}

/// Walks the numbers below 10 and matches a boolean, a triple, a colour
/// and a struct.
pub fn match_statement() -> (found: Matches)
    ensures
        found.levels@ == Seq::new(10, |i: int| level_of(i)),
        found.binary == 1,
        found.triple == (TripleShape::FirstZero { y: -2i32, z: 3i32 }),
        found.color == None::<Named>,
        found.foo == (FooShape::FirstOfXIsOne { b: 2, y: 3 }),
{
    let mut levels: Vec<Level> = Vec::new();
    for i in 0i32..10
        invariant
            levels@ == Seq::new(i as nat, |k: int| level_of(k)),
    {
        levels.push(classify(i));
    }
    let boolean = true;
    let binary = binary_of(boolean);
    let triple = match_triple((0, -2, 3));
    let color = match_color(Color::RGB(122, 17, 40));
    let foo = match_foo(Foo { x: (1, 2), y: 3 });
    Matches { levels, binary, triple, color, foo }
}

/// What the three branches make of a number: 1 grows by 2, any other
/// number below 6 shrinks by 1, the rest grow by 3.
pub open spec fn decided(n: int) -> int {
    if n == 1 {
        n + 2
    } else if n < 6 {
        n - 1
    } else {
        n + 3
    }
}

/// Takes one of three branches by `if`, `else if` and `else`. The result
/// has to fit an `i32`.
pub fn decide(n: i32) -> (m: i32)
    requires
        i32::MIN <= decided(n as int) <= i32::MAX,
    ensures
        m == decided(n as int),
{
    let mut n = n;
    if 1 == n {
        n += 2;
    } else if n < 6 {
        n -= 1;
    } else {
        n = n + 3;
    }
    n
}

/// Decides on 5, which is not 1 but below 6: the middle branch.
pub fn if_else_decisons() -> (n: i32)
    ensures
        n == 4,
{
    decide(5)
}

/// What a loop without a condition says on its way.
#[derive(Clone, Copy, Debug, PartialEq, Eq, Structural)]
pub enum Notice {
    /// The count is three; the rest of that round is skipped.
    Three,
    /// The count is five; the loop ends.
    Enough,
}

/// Counts up in a `loop`, skips ahead at three and breaks at five.
pub fn infinite_loop() -> (end: (u32, Vec<Notice>))
    ensures
        end.0 == 5,
        end.1@ == seq![Notice::Three, Notice::Enough],
{
    let mut count: u32 = 0;
    let mut notices: Vec<Notice> = Vec::new();
    loop
        invariant_except_break
            count < 5,
            notices@ == (if count >= 3 { seq![Notice::Three] } else { Seq::<Notice>::empty() }),
        ensures
            count == 5,
            notices@ == seq![Notice::Three, Notice::Enough],
        decreases 5 - count,
    {
        count += 1;
        if count == 3 {
            notices.push(Notice::Three);
            continue;
        }
        if count == 5 {
            notices.push(Notice::Enough);
            break;
        }
    }
    (count, notices)
}

/// Collects the numbers that a `while` below 5 passes.
pub fn while_loop() -> (seen: Vec<i32>)
    ensures
        seen@ == Seq::new(5, |k: int| k as i32),
{
    let mut seen: Vec<i32> = Vec::new();
    let mut n: i32 = 0;
    while n < 5
        invariant
            0 <= n <= 5,
            seen@ == Seq::new(n as nat, |k: int| k as i32),
        decreases 5 - n,
    {
        seen.push(n);
        n += 1;
    }
    seen
}

/// Walks `1..100`, which ends at 99, and then the numbers of `1..=100`,
/// which end at 100.
pub fn for_loop() -> (seen: (Vec<i32>, Vec<i32>))
    ensures
        seen.0@ == Seq::new(99, |k: int| (k + 1) as i32),
        seen.1@ == Seq::new(100, |k: int| (k + 1) as i32),
{
    let mut open: Vec<i32> = Vec::new();
    for i in 1i32..100
        invariant
            open@ == Seq::new((i - 1) as nat, |k: int| (k + 1) as i32),
    {
        open.push(i);
    }
    let mut closed: Vec<i32> = Vec::new();
    let mut i: i32 = 1;
    while i <= 100
        invariant
            1 <= i <= 101,
            closed@ == Seq::new((i - 1) as nat, |k: int| (k + 1) as i32),
        decreases 101 - i,
    {
        closed.push(i);
        i += 1;
    }
    (open, closed)
}

/// What `if let Some(i) = value` binds: the number, or nothing where the
/// pattern fails and the `else` is taken.
pub fn if_let_some(value: Option<i32>) -> (bound: Option<i32>)
    ensures
        bound == value,
{
    if let Some(i) = value {
        Some(i)
    } else {
        None
    }
}

/// Tries `if let` on a number that is there and on one that is not.
pub fn if_let() -> (bound: (Option<i32>, Option<i32>))
    ensures
        bound.0 == Some(7i32),
        bound.1 == None::<i32>,
{
    let number = Some(7);
    let letter: Option<i32> = None;
    (if_let_some(number), if_let_some(letter))
}

/// Counts for as long as the option holds a number, as `while let` does:
/// the numbers up to 9 are tried again, the first above 9 ends it.
pub fn while_let() -> (end: (Vec<i32>, i32))
    ensures
        end.0@ == Seq::new(10, |k: int| k as i32),
        end.1 == 10,
{
    let mut tried: Vec<i32> = Vec::new();
    let mut last: i32 = 0;
    let mut optional: Option<i32> = Some(0);
    loop
        invariant_except_break
            optional matches Some(v) ==> 0 <= v <= 10 && tried@ == Seq::new(
                v as nat,
                |k: int| k as i32,
            ),
            optional is None ==> last == 10 && tried@ == Seq::new(10, |k: int| k as i32),
        ensures
            last == 10,
            tried@ == Seq::new(10, |k: int| k as i32),
        decreases (if optional is Some { 11 - optional->0 } else { 0 }),
    {
        match optional {
            Some(i) => {
                if i > 9 {
                    last = i;
                    optional = None;
                } else {
                    tried.push(i);
                    optional = Some(i + 1);
                }
            },
            None => {
                break ;
            },
        }
    }
    (tried, last)
}

} // verus!
