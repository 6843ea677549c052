use primer::types::{
    options, realistic_options, really_short_option, this_enum, Broker, Fish, GnStruct, Store,
    Swimming, Taken,
};

struct Duck;

impl Swimming for Duck {}

#[test]
fn fish_names_its_species() {
    let fish = Fish { age: 2, species: "trout".to_string() };
    assert_eq!(fish.swim(), "Swimming trout!");
    let nameless = Fish { age: 0, species: String::new() };
    assert_eq!(nameless.swim(), "Swimming !");
}

#[test]
fn swimming_has_a_default() {
    assert_eq!(Duck.swim(), "Swimming!");
}

#[test]
fn gn_struct_reads_its_field() {
    let a = GnStruct("lol".to_string());
    assert_eq!(a.0, "lol");
}

#[test]
fn store_till_of_each_kind() {
    assert_eq!(Store::Online.till(), Some("Beep Boop"));
    assert_eq!(Store::Local.till(), Some("Cash please!"));
    assert_eq!(Store::Brand.till(), None);
    assert_eq!(Store::PopUp.till(), None);
}

#[test]
fn broker_buys_and_sells() {
    assert_eq!(Broker::buyIn(), "Buy, Buy, Buy!");
    let neo = Broker::Neobroker { name: "Trade Republic".to_string() };
    assert_eq!(neo.sellOut(), Some("Sell!!!!"));
    let depot = Broker::BankDepot("Deutsche Bank".to_string(), 42);
    assert_eq!(depot.sellOut(), None);
}

#[test]
fn this_enum_shop_answers_depot_is_silent() {
    assert_eq!(this_enum(), (Some("Beep Boop"), None));
}

#[test]
fn options_take_leaves_none() {
    assert_eq!(
        options(),
        Taken { a: Some('e'), some_char: None, is_none: false, is_some: true }
    );
}

#[test]
fn realistic_options_counts_on() {
    assert_eq!(realistic_options(Some(5)), Some(6));
    assert_eq!(realistic_options(Some(-1)), Some(0));
    assert_eq!(realistic_options(Some(i32::MIN)), Some(i32::MIN + 1));
    assert_eq!(realistic_options(Some(i32::MAX - 1)), Some(i32::MAX));
    assert_eq!(realistic_options(None), Some(0));
}

#[test]
fn really_short_option_hands_none_back() {
    assert_eq!(really_short_option(Some(5)), Some(6));
    assert_eq!(really_short_option(Some(i32::MAX - 1)), Some(i32::MAX));
    assert_eq!(really_short_option(None), None);
}
