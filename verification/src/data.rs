//! Values and their types, arithmetic, scopes and ranges.

use vstd::prelude::*;
use vstd::string::StrSliceExecFns;
use vstd::string::StringExecFns;

verus! {

/// A constant: fixed at compile time, never assigned again.
pub const INTEGERVALUE: i32 = 25;

/// A value that lives as long as the program.
pub const INTEGERVALUE2: i32 = 26;

/// One value of each of the basic types.
#[derive(Debug)]
pub struct Values {
    pub integer: i32,
    /// The mutable one.
    pub int2: u64,
    pub boolean1: bool,
    pub string: &'static str,
    pub v: Vec<u8>,
}

/// Declares values with and without type annotations and updates the
/// mutable one twice, by 2 and by 1.
pub fn data_types() -> (values: Values)
    ensures
        values.integer == 1,
        values.int2 == 2_000_459,
        values.boolean1,
        values.string@ == "oh yeah"@,
        values.v@ == seq![1u8, 2u8, 3u8],
{
    let integer: i32 = 1;
    let mut int2: u64 = 2_000_456;
    let boolean1: bool = true;
    let string: &'static str = "oh yeah";
    let v: Vec<u8> = vec![1, 2, 3];
    int2 = int2 + 2u64;
    int2 += 1;
    Values { integer, int2, boolean1, string, v }
}

/// The results of the five operators and of three checked operations on
/// two numbers.
#[derive(Clone, Copy, Debug, PartialEq, Eq)]
pub struct Arithmetic {
    pub sum: i32,
    pub difference: i32,
    pub quotient: i32,
    pub product: i32,
    pub remainder: i32,
    pub checked_product: Option<i32>,
    pub checked_sum: Option<i32>,
    pub checked_quotient: Option<i32>,
}

/// Applies `+ - / * %` and the checked operations to 45 and 32. The
/// checked ones give `Some` of the result, as none of them overflows and
/// the divisor is not 0. The function's own value is the 5 that its body
/// ends with.
pub fn operations() -> (end: (Arithmetic, i32))
    ensures
        end.0 == (Arithmetic {
            sum: 77,
            difference: 13,
            quotient: 1,
            product: 1440,
            remainder: 13,
            checked_product: Some(1440i32),
            checked_sum: Some(77i32),
            checked_quotient: Some(1i32),
        }),
        end.1 == 5,
{
    let int1: i32 = 45;
    let int2: i32 = 32;
    let results = Arithmetic {
        sum: int1 + int2,
        difference: int1 - int2,
        quotient: int1 / int2,
        product: int1 * int2,
        remainder: int1 % int2,
        checked_product: int1.checked_mul(int2),
        checked_sum: int1.checked_add(int2),
        checked_quotient: int1.checked_div(int2),
    };
    (results, 5)
}

/// A name declared again in an inner block shadows the outer one until the
/// block ends; a change to an outer variable from inside the block stays.
/// Gives the inner `a`, then the outer `a` and `b` after the block.
pub fn shadowing_and_scope() -> (seen: (i32, i32, i32))
    ensures
        seen == (42i32, 1i32, 46i32),
{
    let a: i32 = 1;
    let mut b: i32 = 23;
    let inner = {
        let a: i32 = 42;
        b *= 2;
        a
    };
    (inner, a, b)
}

/// What `ranges` finds.
#[derive(Clone, Debug, PartialEq, Eq)]
pub struct Ranged {
    /// Whether `0..10` contains 10.
    pub a: bool,
    /// Whether `0..10` contains 9.
    pub b: bool,
    /// The first letter of the name.
    pub first: String,
    /// The first three letters of the name.
    pub first_three: String,
}

/// A range holds its start and not its end: `0..10` contains 9 and not
/// 10. A range of indices cuts a slice out of a text.
pub fn ranges() -> (found: Ranged)
    ensures
        !found.a,
        found.b,
        found.first@ == "j"@,
        found.first_three@ == "jer"@,
{
    let range = 0i32..10;
    let a = range.contains(&10);
    let b = range.contains(&9);
    let name = String::from_str("jeremias");
    proof {
        reveal_strlit("jeremias");
        reveal_strlit("j");
        reveal_strlit("jer");
    }
    let first = String::from_str(name.as_str().substring_ascii(0, 1));
    let first_three = String::from_str(name.as_str().substring_ascii(0, 3));
    Ranged { a, b, first, first_three }
}

/// Reads a constant, a value of program lifetime and one that may change.
pub fn static_and_const() -> (values: (i32, i32, i32))
    ensures
        values == (25i32, 26i32, 26i32),
{
    let integervalue3: i32 = 26;
    (INTEGERVALUE, INTEGERVALUE2, integervalue3)
}

} // verus!
