use primer::patterns::{
    color_change, match_number, pattern_matching, refutability, Bindings, Color, Message,
    NumberArm, Point,
};
use primer::temporaries::{decomposing, Broker};

#[test]
fn match_number_takes_the_first_arm_that_fits() {
    assert_eq!(match_number(Some(50)), NumberArm::GotFifty);
    assert_eq!(match_number(Some(5)), NumberArm::Matched { y: 5 });
    assert_eq!(match_number(Some(-50)), NumberArm::Matched { y: -50 });
    assert_eq!(match_number(None), NumberArm::Default);
}

#[test]
fn pattern_matching_binds_and_shadows() {
    assert_eq!(
        pattern_matching(),
        Bindings { a: 0, b: 7, arm: NumberArm::Matched { y: 5 }, y: 10 }
    );
    let Point { x, y } = Point { x: 0, y: 7 };
    assert_eq!((x, y), (0, 7));
}

#[test]
fn color_change_of_each_message() {
    assert_eq!(color_change(&Message::Quit), None);
    assert_eq!(color_change(&Message::Move { x: 1, y: 2 }), None);
    assert_eq!(color_change(&Message::Write("hello".to_string())), None);
    assert_eq!(
        color_change(&Message::ChangeColor(Color::Rgb(1, 2, 3))),
        Some(Color::Rgb(1, 2, 3))
    );
    assert_eq!(
        color_change(&Message::ChangeColor(Color::Hsv(0, 160, 255))),
        Some(Color::Hsv(0, 160, 255))
    );
}

#[test]
fn refutability_binds_nothing() {
    assert_eq!(refutability(), None);
}

#[test]
fn brokers_compare_by_kind_and_content() {
    let a = Broker::Neobroker("If condition".to_string());
    assert!(a == Broker::Neobroker("If condition".to_string()));
    assert!(a != Broker::Neobroker("If body".to_string()));
    assert!(a != Broker::BankDepot("If condition".to_string(), 0));
    let d = Broker::BankDepot("Deutsche Bank".to_string(), 42);
    assert!(d == Broker::BankDepot("Deutsche Bank".to_string(), 42));
    assert!(d != Broker::BankDepot("Deutsche Bank".to_string(), 43));
    assert!(d != Broker::BankDepot("Bank".to_string(), 42));
}

#[test]
fn decomposing_makes_four_operands() {
    let found = decomposing();
    assert!(found.condition);
    assert!(!found.guarded);
    assert_eq!(
        found.created,
        vec![
            Broker::Neobroker("Outer tuple first".to_string()),
            Broker::Neobroker("Outer tuple second".to_string()),
            Broker::Neobroker("Inner tuple first".to_string()),
            Broker::Neobroker("Inner tuple second".to_string()),
        ]
    );
    assert_eq!(found.zero, 0);
}
