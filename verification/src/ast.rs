use vstd::prelude::*;

verus! {

/// The bridge's model of a solver-owned boolean formula: exactly the terms
/// the primitive operations can build. A value is immutable once built and
/// is compared structurally, so equal formulas share one table entry.
pub enum Z3Ast {
    True,
    False,
    Not(Box<Z3Ast>),
    And(Box<Z3Ast>, Box<Z3Ast>),
}

impl Z3Ast {
    /// The boolean a formula evaluates to: every formula the primitives can
    /// build is ground, so it denotes a single truth value.
    pub open spec fn eval(self) -> bool
        decreases self,
    {
        match self {
            Z3Ast::True => true,
            Z3Ast::False => false,
            Z3Ast::Not(a) => !a.eval(),
            Z3Ast::And(a, b) => a.eval() && b.eval(),
        }
    }

    /// The canonical text of a formula, in the solver's surface syntax.
    pub open spec fn text(self) -> Seq<char>
        decreases self,
    {
        match self {
            Z3Ast::True => "true"@,
            Z3Ast::False => "false"@,
            Z3Ast::Not(a) => "(not "@ + a.text() + ")"@,
            Z3Ast::And(a, b) => "(and "@ + a.text() + " "@ + b.text() + ")"@,
        }
    }

    /// Render the formula as its canonical text.
    pub fn to_string(&self) -> (r: String)
        ensures
            r@ == self.text(),
        decreases *self,
    {
        match self {
            Z3Ast::True => String::from_str("true"),
            Z3Ast::False => String::from_str("false"),
            Z3Ast::Not(a) => {
                let mut s = String::from_str("(not ");
                s.append(a.to_string().as_str());
                s.append(")");
                s
            },
            Z3Ast::And(a, b) => {
                let mut s = String::from_str("(and ");
                s.append(a.to_string().as_str());
                s.append(" ");
                s.append(b.to_string().as_str());
                s.append(")");
                s
            },
        }
    }
}

/// Conjoining any formula with the constant-true formula leaves the boolean
/// it evaluates to unchanged.
pub proof fn lemma_and_true_eval(x: Z3Ast)
    ensures
        Z3Ast::And(Box::new(x), Box::new(Z3Ast::True)).eval() == x.eval(),
{
    let e = Z3Ast::And(Box::new(x), Box::new(Z3Ast::True));
    assert(e.eval() == (x.eval() && Z3Ast::True.eval()));
    assert(Z3Ast::True.eval());
}

impl Clone for Z3Ast {
    fn clone(&self) -> (r: Z3Ast)
        ensures
            r == *self,
        decreases *self,
    {
        match self {
            Z3Ast::True => Z3Ast::True,
            Z3Ast::False => Z3Ast::False,
            Z3Ast::Not(a) => Z3Ast::Not(Box::new((**a).clone())),
            Z3Ast::And(a, b) => Z3Ast::And(Box::new((**a).clone()), Box::new((**b).clone())),
        }
    }
}

impl PartialEq for Z3Ast {
    fn eq(&self, other: &Z3Ast) -> (r: bool)
        decreases *self,
    {
        match (self, other) {
            (Z3Ast::True, Z3Ast::True) => true,
            (Z3Ast::False, Z3Ast::False) => true,
            (Z3Ast::Not(a), Z3Ast::Not(b)) => **a == **b,
            (Z3Ast::And(a, b), Z3Ast::And(c, d)) => **a == **c && **b == **d,
            _ => false,
        }
    }
}

impl vstd::std_specs::cmp::PartialEqSpecImpl for Z3Ast {
    open spec fn obeys_eq_spec() -> bool {
        true
    }

    open spec fn eq_spec(&self, other: &Z3Ast) -> bool {
        self == other
    }
}

} // verus!
