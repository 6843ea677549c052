//! `Result`: errors that a caller can recover from.

use vstd::prelude::*;

verus! {

/// `Result::unwrap_or` of std gives the value of an `Ok` and the default
/// in place of an `Err`.
pub assume_specification<T, E>[ Result::<T, E>::unwrap_or ](result: Result<T, E>, default: T) -> (t:
    T)
    ensures
        t == (match result {
            Ok(value) => value,
            Err(_) => default,
        }),
;

/// `Result::unwrap_or_default` of std gives the value of an `Ok`, and for
/// an `Err` what `T::default()` returns.
pub assume_specification<T: core::default::Default, E>[ Result::<T, E>::unwrap_or_default ](
    result: Result<T, E>,
) -> (t: T)
    ensures
        match result {
            Ok(value) => t == value,
            Err(_) => T::default.ensures((), t),
        },
;

/// `Result::unwrap_or_else` of std gives the value of an `Ok`, and for an
/// `Err` what the closure returns for the error. The closure is called
/// only then.
pub assume_specification<T, E, F: FnOnce(E) -> T>[ Result::<T, E>::unwrap_or_else ](
    result: Result<T, E>,
    op: F,
) -> (t: T)
    requires
        result matches Err(error) ==> op.requires((error,)),
    ensures
        match result {
            Ok(value) => t == value,
            Err(error) => op.ensures((error,), t),
        },
;

/// What `result_enum` reads off a success.
#[derive(Clone, Copy, Debug, PartialEq, Eq)]
pub struct Unwrapped {
    pub is_ok: bool,
    pub is_err: bool,
    /// By `unwrap`.
    pub value: i32,
    /// By `expect`.
    pub value2: i32,
    /// By `unwrap_or(0)`.
    pub value4: i32,
    /// By `unwrap_or_default`.
    pub value5: i32,
    /// By `unwrap_or_else` with a closure that gives 5.
    pub value6: i32,
}

/// Asks a success of 45 what it is and takes its value out in five ways:
/// two that would panic on an error and three that name a way out. A
/// sixth, `expect_err`, panics on every success and so is not taken here:
/// it is left to the caller.
pub fn result_enum() -> (read: Unwrapped)
    ensures
        read == (Unwrapped {
            is_ok: true,
            is_err: false,
            value: 45,
            value2: 45,
            value4: 45,
            value5: 45,
            value6: 45,
        }),
{
    let success: Result<i32, i32> = Ok(45);
    let value = success.unwrap();
    let value2 = success.expect("Error message");
    let edge_case: i32 = 5;
    let value4 = success.unwrap_or(0);
    let value5 = success.unwrap_or_default();
    let value6 = success.unwrap_or_else(|_error: i32| edge_case);
    Unwrapped {
        is_ok: success.is_ok(),
        is_err: success.is_err(),
        value,
        value2,
        value4,
        value5,
        value6,
    }
}

/// Twice the value of a success; any error becomes the error 1.
pub open spec fn doubled_or_one(i: Result<i32, i32>) -> Result<int, int> {
    match i {
        Ok(value) => Ok(value * 2),
        Err(_) => Err(1),
    }
}

/// The view of a result of numbers as mathematical integers.
pub open spec fn as_ints(r: Result<i32, i32>) -> Result<int, int> {
    match r {
        Ok(value) => Ok(value as int),
        Err(error) => Err(error as int),
    }
}

/// Handles both cases of a result by `match`. The double of a success has
/// to fit an `i32`.
pub fn result_example(i: Result<i32, i32>) -> (r: Result<i32, i32>)
    requires
        i matches Ok(value) ==> i32::MIN <= value * 2 <= i32::MAX,
    ensures
        as_ints(r) == doubled_or_one(i),
{
    match i {
        Ok(i) => Ok(i * 2),
        Err(..) => Err(1),
    }
}

} // verus!
