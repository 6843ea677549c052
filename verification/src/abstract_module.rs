//! Encapsulation by modules: what a module does not mark `pub` stays
//! inside it.

use vstd::prelude::*;

verus! {

/// A trait that asks nothing of its types: a mark.
pub trait Abstract {
}

} // verus!
