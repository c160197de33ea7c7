use vstd::prelude::*;

verus! {

/// An identifier for a sort or a primitive operation. The engine compares
/// identifiers by their text alone, so equality is equality of the text.
pub struct Symbol {
    pub text: String,
}

impl View for Symbol {
    type V = Seq<char>;

    open spec fn view(&self) -> Seq<char> {
        self.text@
    }
}

impl Symbol {
    /// Wrap an owned string as an identifier.
    pub fn new(text: String) -> (r: Symbol)
        ensures
            r@ == text@,
    {
        Symbol { text }
    }

    /// Make an identifier from borrowed text.
    pub fn of_str(text: &str) -> (r: Symbol)
        ensures
            r@ == text@,
    {
        Symbol { text: String::from_str(text) }
    }
}

impl Clone for Symbol {
    fn clone(&self) -> (r: Symbol)
        ensures
            r@ == self@,
    {
        Symbol { text: self.text.clone() }
    }
}

impl PartialEq for Symbol {
    fn eq(&self, other: &Symbol) -> (r: bool) {
        self.text == other.text
    }
}

impl vstd::std_specs::cmp::PartialEqSpecImpl for Symbol {
    open spec fn obeys_eq_spec() -> bool {
        true
    }

    open spec fn eq_spec(&self, other: &Symbol) -> bool {
        self@ == other@
    }
}

} // verus!
