//! Temporaries: which values an expression creates before control leaves it.

use vstd::prelude::*;
use vstd::std_specs::cmp::PartialEqSpecImpl;
use vstd::string::StringExecFns;

verus! {

/// Where shares are held, with the holder's name.
#[derive(Clone, Debug)]
pub enum Broker {
    Neobroker(String),
    BankDepot(String, i32),
}

impl PartialEq for Broker {
    fn eq(&self, other: &Self) -> (equal: bool) {
        match (self, other) {
            (Broker::Neobroker(a), Broker::Neobroker(b)) => *a == *b,
            (Broker::BankDepot(a, n), Broker::BankDepot(b, m)) => *a == *b && *n == *m,
            _ => false,
        }
    }
}

impl PartialEqSpecImpl for Broker {
    open spec fn obeys_eq_spec() -> bool {
        true
    }

    /// Two brokers are equal when they are of one kind and hold the same
    /// text and number.
    open spec fn eq_spec(&self, other: &Self) -> bool {
        match (*self, *other) {
            (Broker::Neobroker(a), Broker::Neobroker(b)) => a@ == b@,
            (Broker::BankDepot(a, n), Broker::BankDepot(b, m)) => a@ == b@ && n == m,
            _ => false,
        }
    }
}

/// What `decomposing` finds on its way.
#[derive(Debug)]
pub struct Decomposed {
    /// Whether the broker made in the condition equals the one kept.
    pub condition: bool,
    /// Whether the guarded arm of the match was taken.
    pub guarded: bool,
    /// The operands of the nested tuple that were made before `break`,
    /// in the order of their making.
    pub created: Vec<Broker>,
    /// What a mutable borrow of the literal 0 reads.
    pub zero: i32,
}

/// Whether a broker is a neobroker of the given name.
pub open spec fn is_neobroker(broker: Broker, name: Seq<char>) -> bool {
    broker matches Broker::Neobroker(s) && s@ == name
}

/// Makes temporaries in a condition, in the scrutinee of a match and in a
/// nested tuple that a `break` cuts short. The tuple makes its operands
/// from the left, the inner tuple's too, so four exist when `break` is
/// reached and the one behind it never does.
pub fn decomposing() -> (found: Decomposed)
    ensures
        found.condition,
        !found.guarded,
        found.created@.len() == 4,
        is_neobroker(found.created@[0], "Outer tuple first"@),
        is_neobroker(found.created@[1], "Outer tuple second"@),
        is_neobroker(found.created@[2], "Inner tuple first"@),
        is_neobroker(found.created@[3], "Inner tuple second"@),
        found.zero == 0,
{
    let a = Broker::Neobroker(String::from_str("If condition"));
    let condition = Broker::Neobroker(String::from_str("If condition")) == a;
    let guarded = match Broker::Neobroker(String::from_str("Dropped at end of match")) {
        Broker::Neobroker(b) if b == String::from_str("Nothing") => true,
        _ => false,
    };
    assert("Dropped at end of match"@.len() != "Nothing"@.len()) by {
        reveal_strlit("Dropped at end of match");
        reveal_strlit("Nothing");
    }
    let mut created: Vec<Broker> = Vec::new();
    created.push(Broker::Neobroker(String::from_str("Outer tuple first")));
    created.push(Broker::Neobroker(String::from_str("Outer tuple second")));
    created.push(Broker::Neobroker(String::from_str("Inner tuple first")));
    created.push(Broker::Neobroker(String::from_str("Inner tuple second")));
    let x = &mut 0;
    let zero: i32 = *x;
    Decomposed { condition, guarded, created, zero }
}

} // verus!
