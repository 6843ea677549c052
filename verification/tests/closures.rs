use primer::closures::{
    add_one_v1, example_closure, pass_me_a_func, passing_a_func, sort, Rectangle,
};

#[test]
fn add_one_v1_counts_on() {
    assert_eq!(add_one_v1(0), 1);
    assert_eq!(add_one_v1(41), 42);
    assert_eq!(add_one_v1(u32::MAX - 1), u32::MAX);
}

#[test]
fn example_closure_pushes_seven() {
    assert_eq!(example_closure(), (vec![1, 2, 3], vec![1, 2, 3, 7]));
}

#[test]
fn pass_me_a_func_calls_on_five() {
    assert_eq!(pass_me_a_func(|i| i * i), 25);
    assert_eq!(pass_me_a_func(|i| i - 5), 0);
    assert_eq!(pass_me_a_func(add_five), 10);
    let offset = 100;
    assert_eq!(pass_me_a_func(move |i| i + offset), 105);
}

fn add_five(i: i32) -> i32 {
    i + 5
}

#[test]
fn passing_a_func_squares_five() {
    assert_eq!(passing_a_func(), 25);
}

#[test]
fn sort_orders_by_width() {
    assert_eq!(
        sort(),
        [
            Rectangle { width: 3, height: 5 },
            Rectangle { width: 7, height: 12 },
            Rectangle { width: 10, height: 1 },
        ]
    );
}
