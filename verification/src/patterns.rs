//! Patterns: taking values apart, and patterns that may fail.

use vstd::prelude::*;

verus! {

/// A point in the plane.
#[derive(Clone, Copy, Debug, PartialEq, Eq, Structural)]
pub struct Point {
    pub x: i32,
    pub y: i32,
}

/// The arm that a number which may be missing is matched by.
#[derive(Clone, Copy, Debug, PartialEq, Eq, Structural)]
pub enum NumberArm {
    /// It is 50.
    GotFifty,
    /// It is some other number `y`; this `y` shadows any outer one.
    Matched { y: i32 },
    /// There is none.
    Default,
}

/// The first arm that `x` meets.
pub open spec fn number_arm_of(x: Option<i32>) -> NumberArm {
    match x {
        Some(n) => if n == 50 {
            NumberArm::GotFifty
        } else {
            NumberArm::Matched { y: n }
        },
        None => NumberArm::Default,
    }
}

/// Matches a literal first, then binds whatever number is there.
pub fn match_number(x: Option<i32>) -> (arm: NumberArm)
    ensures
        arm == number_arm_of(x),
{
    match x {
        Some(50) => NumberArm::GotFifty,
        Some(y) => NumberArm::Matched { y },
        _ => NumberArm::Default,
    }
}

/// What `pattern_matching` binds on its way.
#[derive(Clone, Copy, Debug, PartialEq, Eq, Structural)]
pub struct Bindings {
    /// Bound to the point's `x`.
    pub a: i32,
    /// Bound to the point's `y`.
    pub b: i32,
    /// The arm that `Some(5)` takes.
    pub arm: NumberArm,
    /// The outer `y` after the match, untouched by the arm's own `y`.
    pub y: i32,
}

/// Takes a point apart with `let`, then matches `Some(5)` beside an outer
/// `y` of 10: the arm binds its own `y`, the outer one keeps its value.
pub fn pattern_matching() -> (bound: Bindings)
    ensures
        bound == (Bindings { a: 0, b: 7, arm: NumberArm::Matched { y: 5 }, y: 10 }),
{
    let p = Point { x: 0, y: 7 };
    let Point { x: a, y: b } = p;
    let x = Some(5);
    let y: i32 = 10;
    let arm = match_number(x);
    Bindings { a, b, arm, y }
}

/// A colour in one of two models.
#[derive(Clone, Copy, Debug, PartialEq, Eq, Structural)]
pub enum Color {
    Rgb(i32, i32, i32),
    Hsv(i32, i32, i32),
}

/// A message to a drawing.
#[derive(Clone, Debug, PartialEq, Eq)]
pub enum Message {
    Quit,
    Move { x: i32, y: i32 },
    Write(String),
    ChangeColor(Color),
}

/// The colour that a message changes to, if it changes one.
pub open spec fn color_change_of(msg: Message) -> Option<Color> {
    match msg {
        Message::ChangeColor(color) => Some(color),
        _ => None,
    }
}

/// Handles a pattern that not every message meets: the colour and its
/// three parts come out of a `ChangeColor`, matched through two enums at
/// once, and every other message gives nothing.
pub fn color_change(msg: &Message) -> (change: Option<Color>)
    ensures
        change == color_change_of(*msg),
{
    match msg {
        Message::ChangeColor(Color::Rgb(r, g, b)) => Some(Color::Rgb(*r, *g, *b)),
        Message::ChangeColor(Color::Hsv(h, s, v)) => Some(Color::Hsv(*h, *s, *v)),
        _ => None,
    }
}

/// A pattern that may fail cannot stand in a plain `let`; it is tried with
/// `if let`, which on a missing value binds nothing. Gives what was
/// bound.
pub fn refutability() -> (bound: Option<i32>)
    ensures
        bound == None::<i32>,
{
    let some_value: Option<i32> = None;
    if let Some(x) = some_value {
        Some(x)
    } else {
        None
    }
}

} // verus!
