use vstd::prelude::*;

use crate::sym::Symbol;

verus! {

/// The engine's fixed-size representation of a term's denotation: a sort
/// tag and a 64-bit payload, opaque to everything but the owning sort. For
/// values of the solver sort the payload is only ever an index into that
/// sort's interning table; it carries no other meaning.
pub struct Value {
    pub tag: Symbol,
    pub bits: u64,
}

impl Clone for Value {
    fn clone(&self) -> (r: Value)
        ensures
            r.tag@ == self.tag@,
            r.bits == self.bits,
    {
        Value { tag: self.tag.clone(), bits: self.bits }
    }
}

impl PartialEq for Value {
    fn eq(&self, other: &Value) -> (r: bool) {
        self.tag == other.tag && self.bits == other.bits
    }
}

impl vstd::std_specs::cmp::PartialEqSpecImpl for Value {
    open spec fn obeys_eq_spec() -> bool {
        true
    }

    open spec fn eq_spec(&self, other: &Value) -> bool {
        self.tag@ == other.tag@ && self.bits == other.bits
    }
}

} // verus!
