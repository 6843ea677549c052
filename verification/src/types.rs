//! Types of one's own: structs, enums, traits on them, and `Option`.

use vstd::prelude::*;
use vstd::string::StringExecFns;

verus! {

/// A fish, by age and species.
#[derive(Clone, Debug)]
pub struct Fish {
    pub age: i32,
    pub species: String,
}

/// Things that swim, and say so.
pub trait Swimming {
    /// What is said on swimming. Unless a type says otherwise, this is
    /// "Swimming!".
    fn swim(&self) -> (said: String)
        default_ensures
            said@ == "Swimming!"@,
    {
        String::from_str("Swimming!")
    }
}

impl Swimming for Fish {
    /// A fish names its species.
    fn swim(&self) -> (said: String)
        ensures
            said@ == "Swimming "@ + self.species@ + "!"@,
    {
        let mut said = String::from_str("Swimming ");
        said.append(self.species.as_str());
        said.append("!");
        said
    }
}

/// A tuple struct: one unnamed field, read as `.0`.
#[derive(Clone, Debug)]
pub struct GnStruct(pub String);

/// The kinds of shop.
#[derive(Clone, Copy, Debug, PartialEq, Eq, Structural)]
pub enum Store {
    Online,
    Local,
    Brand,
    PopUp,
}

/// What a shop says at the till, for the two kinds that say something.
pub open spec fn till_of(store: Store) -> Option<Seq<char>> {
    match store {
        Store::Online => Some("Beep Boop"@),
        Store::Local => Some("Cash please!"@),
        _ => None,
    }
}

/// The view of a text that may be missing.
pub open spec fn text_of(said: Option<&'static str>) -> Option<Seq<char>> {
    match said {
        Some(s) => Some(s@),
        None => None,
    }
}

impl Store {
    /// Matches the kind of shop against those that say something.
    pub fn till(&self) -> (said: Option<&'static str>)
        ensures
            text_of(said) == till_of(*self),
    {
        match self {
            Store::Online => Some("Beep Boop"),
            Store::Local => Some("Cash please!"),
            _ => None,
        }
    }
}

/// Where shares are held. Variants of an enum may hold values, named or
/// not.
#[derive(Clone, Debug)]
pub enum Broker {
    Neobroker { name: String },
    BankDepot(String, i32),
}

impl Broker {
    /// A function of the type, without a value of it.
    #[allow(non_snake_case)]
    pub fn buyIn() -> (said: &'static str)
        ensures
            said@ == "Buy, Buy, Buy!"@,
    {
        "Buy, Buy, Buy!"
    }

    /// Only a neobroker sells.
    #[allow(non_snake_case)]
    pub fn sellOut(&self) -> (said: Option<&'static str>)
        ensures
            text_of(said) == (if *self is Neobroker {
                Some("Sell!!!!"@)
            } else {
                None
            }),
    {
        match self {
            Broker::Neobroker { .. } => Some("Sell!!!!"),
            _ => None,
        }
    }
}

/// Asks an online shop for its word at the till, then makes a neobroker,
/// puts a bank depot in its place under the same name, and asks that one
/// to sell: the shop answers, the depot stays silent.
pub fn this_enum() -> (said: (Option<&'static str>, Option<&'static str>))
    ensures
        text_of(said.0) == Some("Beep Boop"@),
        said.1 is None,
{
    let store: Store = Store::Online;
    let at_till = store.till();
    let broker1: Broker = Broker::Neobroker { name: String::from_str("Trade Republic") };
    let broker1: Broker = Broker::BankDepot(String::from_str("Deutsche Bank"), 42);
    (at_till, broker1.sellOut())
}

/// What `options` finds.
#[derive(Clone, Copy, Debug, PartialEq, Eq)]
pub struct Taken {
    /// What `take` handed out.
    pub a: Option<char>,
    /// What `take` left behind.
    pub some_char: Option<char>,
    /// Whether `Some(5)` is none.
    pub is_none: bool,
    /// Whether `Some(5)` is some.
    pub is_some: bool,
}

/// `take` moves the value out of an option and leaves `None`; `is_none`
/// and `is_some` tell the two cases apart.
pub fn options() -> (found: Taken)
    ensures
        found.a == Some('e'),
        found.some_char == None::<char>,
        !found.is_none,
        found.is_some,
{
    let some_number = Some(5i32);
    let mut some_char = Some('e');
    let a = some_char.take();
    Taken { a, some_char, is_none: some_number.is_none(), is_some: some_number.is_some() }
}

/// The number after the one given, and 0 where none is given.
pub open spec fn next_or_zero(option: Option<i32>) -> Option<int> {
    match option {
        Some(i) => Some(i + 1),
        None => Some(0),
    }
}

/// Handles both cases of an option by `match`.
pub fn realistic_options(option: Option<i32>) -> (next: Option<i32>)
    requires
        option != Some(i32::MAX),
    ensures
        next matches Some(n) && next_or_zero(option) == Some(n as int),
{
    match option {
        Some(i) => Some(i + 1),
        None => Some(0),
    }
}

/// The same for a number that is there; `?` hands a missing one straight
/// back.
pub fn really_short_option(option: Option<i32>) -> (next: Option<i32>)
    requires
        option != Some(i32::MAX),
    ensures
        match option {
            Some(i) => next == Some((i + 1) as i32),
            None => next is None,
        },
{
    let a = option?;
    Some(a + 1)
}

} // verus!
