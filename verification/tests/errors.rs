use primer::errors::{result_enum, result_example, Unwrapped};

#[test]
fn result_enum_reads_a_success() {
    assert_eq!(
        result_enum(),
        Unwrapped {
            is_ok: true,
            is_err: false,
            value: 45,
            value2: 45,
            value4: 45,
            value5: 45,
            value6: 45,
        }
    );
}

#[test]
fn result_example_doubles_a_success() {
    assert_eq!(result_example(Ok(5)), Ok(10));
    assert_eq!(result_example(Ok(0)), Ok(0));
    assert_eq!(result_example(Ok(-7)), Ok(-14));
    assert_eq!(result_example(Ok(i32::MAX / 2)), Ok(i32::MAX - 1));
    assert_eq!(result_example(Ok(i32::MIN / 2)), Ok(i32::MIN));
}

#[test]
fn result_example_turns_any_error_into_one() {
    assert_eq!(result_example(Err(0)), Err(1));
    assert_eq!(result_example(Err(1)), Err(1));
    assert_eq!(result_example(Err(-45)), Err(1));
    assert_eq!(result_example(Err(i32::MAX)), Err(1));
}
