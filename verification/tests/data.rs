use primer::data::{
    data_types, operations, ranges, shadowing_and_scope, static_and_const, Arithmetic,
    INTEGERVALUE, INTEGERVALUE2,
};

#[test]
fn data_types_holds_one_of_each() {
    let values = data_types();
    assert_eq!(values.integer, 1);
    assert_eq!(values.int2, 2_000_459);
    assert!(values.boolean1);
    assert_eq!(values.string, "oh yeah");
    assert_eq!(values.v, vec![1u8, 2, 3]);
}

#[test]
fn operations_on_45_and_32() {
    let (results, end) = operations();
    assert_eq!(
        results,
        Arithmetic {
            sum: 77,
            difference: 13,
            quotient: 1,
            product: 1440,
            remainder: 13,
            checked_product: Some(1440),
            checked_sum: Some(77),
            checked_quotient: Some(1),
        }
    );
    assert_eq!(end, 5);
}

#[test]
fn shadowing_ends_with_the_block() {
    assert_eq!(shadowing_and_scope(), (42, 1, 46));
}

#[test]
fn ranges_hold_start_not_end() {
    let found = ranges();
    assert!(!found.a);
    assert!(found.b);
    assert_eq!(found.first, "j");
    assert_eq!(found.first_three, "jer");
}

#[test]
fn static_and_const_values() {
    assert_eq!(INTEGERVALUE, 25);
    assert_eq!(INTEGERVALUE2, 26);
    assert_eq!(static_and_const(), (25, 26, 26));
}
