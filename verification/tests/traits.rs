use primer::abstract_module::Abstract;
use primer::traits::{
    generic_highest, needs_trait, needs_trait_short, needs_two_traits, needs_two_traits_clear,
    needs_two_traits_too, returns_summarizable, KeyLocker, Member, MyBox, Newspaper, Pair,
    Summary,
};
use std::fmt;

#[derive(Clone)]
struct Leaflet;

impl Summary for Leaflet {}

impl Abstract for Leaflet {}

impl fmt::Display for Leaflet {
    fn fmt(&self, f: &mut fmt::Formatter<'_>) -> fmt::Result {
        f.write_str("a leaflet")
    }
}

fn marked<T: Abstract>(_: &T) -> bool {
    true
}

#[test]
fn generic_highest_of_numbers() {
    assert_eq!(*generic_highest(&[1, 5, 2, 7, 3, 8, 3]), 8);
    assert_eq!(*generic_highest(&[8, 1]), 8);
    assert_eq!(*generic_highest(&[4]), 4);
    assert_eq!(*generic_highest(&[-4, -9]), -4);
    assert_eq!(*generic_highest(&[i32::MIN, i32::MAX, 0]), i32::MAX);
}

#[test]
fn generic_highest_keeps_the_first_of_equals() {
    let texts = ["pear".to_string(), "apple".to_string(), "pear".to_string()];
    assert!(std::ptr::eq(generic_highest(&texts), &texts[0]));
    assert!(!std::ptr::eq(generic_highest(&texts), &texts[2]));
}

#[test]
fn generic_highest_of_texts_and_floats() {
    assert_eq!(*generic_highest(&["b", "c", "a"]), "c");
    assert_eq!(*generic_highest(&[1.5, 0.5, 2.5]), 2.5);
}

#[test]
fn newspaper_is_summed_up_by_its_headline() {
    let paper = Newspaper { headline: "News".to_string(), story: "Much happened.".to_string() };
    assert_eq!(paper.summarize(), "News");
    assert_eq!(needs_trait_short(&paper), "News");
    let other = Newspaper { headline: "Olds".to_string(), story: String::new() };
    assert_eq!(needs_trait(&paper, &other), "News");
    assert_eq!(needs_trait(&other, &paper), "Olds");
}

#[test]
fn summary_has_a_default() {
    assert_eq!(Leaflet.summarize(), "Read more here!");
    assert_eq!(needs_trait_short(&Leaflet), "Read more here!");
}

#[test]
fn needs_two_traits_takes_what_has_both() {
    needs_two_traits(&Leaflet);
    needs_two_traits_too(&Leaflet);
    let paper = returns_summarizable();
    assert_eq!(needs_two_traits_clear(&Leaflet, &paper), 5);
    assert_eq!(needs_two_traits_clear(&Leaflet, &Leaflet), 5);
}

#[test]
fn returns_summarizable_promises_much() {
    let paper = returns_summarizable();
    assert_eq!(
        paper,
        Newspaper {
            headline: "You won't believe it".to_string(),
            story: "Omg I like the game so much I have to..".to_string(),
        }
    );
    assert_eq!(paper.summarize(), "You won't believe it");
}

#[test]
fn key_locker_holds_a_name() {
    let locker = KeyLocker { name: "front door".to_string() };
    assert_eq!(locker.name, "front door");
    let numbered = KeyLocker { name: 7u8 };
    assert_eq!(numbered.name, 7);
}

#[test]
fn pair_new_keeps_both() {
    assert_eq!(Pair::new(1, 2), Pair { x: 1, y: 2 });
    assert_eq!(Pair::new("a", "b"), Pair { x: "a", y: "b" });
}

#[test]
fn pair_cmp_display_names_the_largest() {
    assert_eq!(Pair::new(3, 4).cmp_display(), Member::Y);
    assert_eq!(Pair::new(4, 3).cmp_display(), Member::X);
    assert_eq!(Pair::new(4, 4).cmp_display(), Member::X);
    assert_eq!(Pair::new("b", "a").cmp_display(), Member::X);
}

#[test]
fn my_box_derefs_to_its_value() {
    let y = MyBox(5);
    assert_eq!(*y, 5);
    let text = MyBox("hello".to_string());
    assert_eq!(text.len(), 5);
}

#[test]
fn abstract_marks_a_type() {
    assert!(marked(&Leaflet));
}
