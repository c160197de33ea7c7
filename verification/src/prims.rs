use vstd::prelude::*;

use crate::ast::Z3Ast;
use crate::solver::{answer_text, check_formula, sat_answer, SatOutcome};
use crate::sort::{string_insert_post, Z3Sort};
use crate::sym::Symbol;
use crate::table::{insert_post, lemma_unequal_asts_unequal_indices};
use crate::value::Value;

verus! {

/// The nullary constant-true primitive: produces the solver's `true`
/// literal and interns it.
pub struct Z3True {
    pub name: Symbol,
    pub sort: Symbol,
}

impl Z3True {
    /// The primitive's registered name.
    pub fn name(&self) -> (r: &Symbol)
        ensures
            r@ == self.name@,
    {
        &self.name
    }

    /// Type-check: the result sort, if and only if the argument sorts match
    /// the signature — no arguments at all.
    pub fn accept(&self, types: &Vec<Symbol>) -> (r: Option<Symbol>)
        ensures
            if types@.len() == 0 {
                r matches Some(s) && s@ == self.sort@
            } else {
                r is None
            },
    {
        if types.len() == 0 {
            Some(self.sort.clone())
        } else {
            None
        }
    }

    /// Execute: intern the constant-true formula and hand back its value.
    /// A non-empty argument list would be an engine-contract violation and
    /// is ruled out here.
    pub fn apply(&self, sort: &mut Z3Sort, values: &Vec<Value>) -> (r: Option<Value>)
        requires
            old(sort).wf(),
            values@.len() == 0,
        ensures
            final(sort).wf(),
            final(sort).name@ == old(sort).name@,
            final(sort).stringsort == old(sort).stringsort,
            ({
                &&& r matches Some(v)
                &&& v.tag@ == old(sort).name@
                &&& insert_post(old(sort).asts@, final(sort).asts@, v.bits as int, Z3Ast::True)
            }),
    {
        Z3Ast::True.store(sort)
    }
}

/// The nullary constant-false primitive: produces the solver's `false`
/// literal and interns it.
pub struct Z3False {
    pub name: Symbol,
    pub sort: Symbol,
}

impl Z3False {
    /// The primitive's registered name.
    pub fn name(&self) -> (r: &Symbol)
        ensures
            r@ == self.name@,
    {
        &self.name
    }

    /// Type-check: the result sort, if and only if the argument sorts match
    /// the signature — no arguments at all.
    pub fn accept(&self, types: &Vec<Symbol>) -> (r: Option<Symbol>)
        ensures
            if types@.len() == 0 {
                r matches Some(s) && s@ == self.sort@
            } else {
                r is None
            },
    {
        if types.len() == 0 {
            Some(self.sort.clone())
        } else {
            None
        }
    }

    /// Execute: intern the constant-false formula and hand back its value.
    pub fn apply(&self, sort: &mut Z3Sort, values: &Vec<Value>) -> (r: Option<Value>)
        requires
            old(sort).wf(),
            values@.len() == 0,
        ensures
            final(sort).wf(),
            final(sort).name@ == old(sort).name@,
            final(sort).stringsort == old(sort).stringsort,
            ({
                &&& r matches Some(v)
                &&& v.tag@ == old(sort).name@
                &&& insert_post(old(sort).asts@, final(sort).asts@, v.bits as int, Z3Ast::False)
            }),
    {
        Z3Ast::False.store(sort)
    }
}

/// The unary negation primitive: decodes its operand, negates it, and
/// interns the result.
pub struct Z3Not {
    pub name: Symbol,
    pub sort: Symbol,
}

impl Z3Not {
    /// The primitive's registered name.
    pub fn name(&self) -> (r: &Symbol)
        ensures
            r@ == self.name@,
    {
        &self.name
    }

    /// Type-check: the result sort, if and only if the argument sorts match
    /// the signature — one argument of the owning sort.
    pub fn accept(&self, types: &Vec<Symbol>) -> (r: Option<Symbol>)
        ensures
            if types@.len() == 1 && types@[0]@ == self.sort@ {
                r matches Some(s) && s@ == self.sort@
            } else {
                r is None
            },
    {
        if types.len() == 1 && types[0] == self.sort {
            Some(self.sort.clone())
        } else {
            None
        }
    }

    /// Execute: decode the operand, intern its negation, and hand back the
    /// new value. Arity or decoding violations are engine-contract
    /// violations and are ruled out here.
    pub fn apply(&self, sort: &mut Z3Sort, values: &Vec<Value>) -> (r: Option<Value>)
        requires
            old(sort).wf(),
            values@.len() == 1,
            values@[0].tag@ == old(sort).name@,
            values@[0].bits < old(sort).asts@.len(),
        ensures
            final(sort).wf(),
            final(sort).name@ == old(sort).name@,
            final(sort).stringsort == old(sort).stringsort,
            ({
                &&& r matches Some(v)
                &&& v.tag@ == old(sort).name@
                &&& insert_post(
                    old(sort).asts@,
                    final(sort).asts@,
                    v.bits as int,
                    Z3Ast::Not(Box::new(old(sort).asts@[values@[0].bits as int])),
                )
            }),
    {
        let a = Z3Ast::load(sort, &values[0]);
        Z3Ast::Not(Box::new(a)).store(sort)
    }
}

/// The binary conjunction primitive: decodes both operands, conjoins them,
/// and interns the result.
pub struct Z3And {
    pub name: Symbol,
    pub sort: Symbol,
}

impl Z3And {
    /// The primitive's registered name.
    pub fn name(&self) -> (r: &Symbol)
        ensures
            r@ == self.name@,
    {
        &self.name
    }

    /// Type-check: the result sort, if and only if the argument sorts match
    /// the signature — two arguments of the owning sort.
    pub fn accept(&self, types: &Vec<Symbol>) -> (r: Option<Symbol>)
        ensures
            if types@.len() == 2 && types@[0]@ == self.sort@ && types@[1]@ == self.sort@ {
                r matches Some(s) && s@ == self.sort@
            } else {
                r is None
            },
    {
        if types.len() == 2 && types[0] == self.sort && types[1] == self.sort {
            Some(self.sort.clone())
        } else {
            None
        }
    }

    /// Execute: decode both operands, intern their conjunction, and hand
    /// back the new value.
    pub fn apply(&self, sort: &mut Z3Sort, values: &Vec<Value>) -> (r: Option<Value>)
        requires
            old(sort).wf(),
            values@.len() == 2,
            values@[0].tag@ == old(sort).name@,
            values@[0].bits < old(sort).asts@.len(),
            values@[1].tag@ == old(sort).name@,
            values@[1].bits < old(sort).asts@.len(),
        ensures
            final(sort).wf(),
            final(sort).name@ == old(sort).name@,
            final(sort).stringsort == old(sort).stringsort,
            ({
                &&& r matches Some(v)
                &&& v.tag@ == old(sort).name@
                &&& insert_post(
                    old(sort).asts@,
                    final(sort).asts@,
                    v.bits as int,
                    Z3Ast::And(
                        Box::new(old(sort).asts@[values@[0].bits as int]),
                        Box::new(old(sort).asts@[values@[1].bits as int]),
                    ),
                )
            }),
    {
        let a = Z3Ast::load(sort, &values[0]);
        let b = Z3Ast::load(sort, &values[1]);
        Z3Ast::And(Box::new(a), Box::new(b)).store(sort)
    }
}

/// The terminal satisfiability primitive: decodes its operand, runs the
/// decision procedure on a fresh, scoped solver, and interns the literal
/// answer through the string sort.
pub struct Z3Check {
    pub name: Symbol,
    pub sort: Symbol,
    pub string_sort: Symbol,
}

impl Z3Check {
    /// The primitive's registered name.
    pub fn name(&self) -> (r: &Symbol)
        ensures
            r@ == self.name@,
    {
        &self.name
    }

    /// Type-check: the string sort, if and only if the argument sorts match
    /// the signature — one argument of the owning sort.
    pub fn accept(&self, types: &Vec<Symbol>) -> (r: Option<Symbol>)
        ensures
            if types@.len() == 1 && types@[0]@ == self.sort@ {
                r matches Some(s) && s@ == self.string_sort@
            } else {
                r is None
            },
    {
        if types.len() == 1 && types[0] == self.sort {
            Some(self.string_sort.clone())
        } else {
            None
        }
    }

    /// Execute: decode the operand, ask the solver, and hand back one of
    /// the literal answers interned through the string sort. Whatever the
    /// solver answers, the result is one of the three literal answers, and
    /// the formula table is left untouched.
    pub fn apply(&self, sort: &mut Z3Sort, values: &Vec<Value>) -> (r: Option<Value>)
        requires
            old(sort).wf(),
            values@.len() == 1,
            values@[0].tag@ == old(sort).name@,
            values@[0].bits < old(sort).asts@.len(),
        ensures
            final(sort).wf(),
            final(sort).name@ == old(sort).name@,
            final(sort).asts@ == old(sort).asts@,
            final(sort).stringsort.name@ == old(sort).stringsort.name@,
            ({
                &&& r matches Some(v)
                &&& v.tag@ == old(sort).stringsort.name@
                &&& exists|o: SatOutcome|
                    string_insert_post(
                        old(sort).stringsort.strs(),
                        final(sort).stringsort.strs(),
                        v.bits as int,
                        answer_text(o),
                    )
            }),
    {
        let a = Z3Ast::load(sort, &values[0]);
        let o = check_formula(&a);
        let answer = sat_answer(o);
        let v = sort.stringsort.store(answer);
        proof {
            assert(string_insert_post(
                old(sort).stringsort.strs(),
                sort.stringsort.strs(),
                v.bits as int,
                answer_text(o),
            ));
        }
        Some(v)
    }
}

/// One registered primitive operation of the sort.
pub enum Primitive {
    True(Z3True),
    False(Z3False),
    Not(Z3Not),
    And(Z3And),
    Check(Z3Check),
}

impl Z3Sort {
    /// Every primitive this sort provides, each bound to the sort's
    /// identifiers under its registered name, in registration order.
    pub fn register_primitives(&self) -> (r: Vec<Primitive>)
        ensures
            r@.len() == 5,
            ({
                &&& r@[0] matches Primitive::True(p)
                &&& p.name@ == "z3true"@
                &&& p.sort@ == self.name@
            }),
            ({
                &&& r@[1] matches Primitive::False(p)
                &&& p.name@ == "z3false"@
                &&& p.sort@ == self.name@
            }),
            ({
                &&& r@[2] matches Primitive::Not(p)
                &&& p.name@ == "not"@
                &&& p.sort@ == self.name@
            }),
            ({
                &&& r@[3] matches Primitive::And(p)
                &&& p.name@ == "and"@
                &&& p.sort@ == self.name@
            }),
            ({
                &&& r@[4] matches Primitive::Check(p)
                &&& p.name@ == "check-sat"@
                &&& p.sort@ == self.name@
                &&& p.string_sort@ == self.stringsort.name@
            }),
    {
        let mut r: Vec<Primitive> = Vec::new();
        r.push(Primitive::True(Z3True {
            name: Symbol::of_str("z3true"),
            sort: self.name.clone(),
        }));
        r.push(Primitive::False(Z3False {
            name: Symbol::of_str("z3false"),
            sort: self.name.clone(),
        }));
        r.push(Primitive::Not(Z3Not {
            name: Symbol::of_str("not"),
            sort: self.name.clone(),
        }));
        r.push(Primitive::And(Z3And {
            name: Symbol::of_str("and"),
            sort: self.name.clone(),
        }));
        r.push(Primitive::Check(Z3Check {
            name: Symbol::of_str("check-sat"),
            sort: self.name.clone(),
            string_sort: self.stringsort.name.clone(),
        }));
        r
    }
}

/// Distinctness: the values produced by constant-true and constant-false
/// address two different table entries, so they are never equal.
pub proof fn lemma_true_false_values_distinct(
    s0: Seq<Z3Ast>,
    s1: Seq<Z3Ast>,
    b1: int,
    s2: Seq<Z3Ast>,
    b2: int,
)
    requires
        insert_post(s0, s1, b1, Z3Ast::True),
        insert_post(s1, s2, b2, Z3Ast::False),
    ensures
        b1 != b2,
{
    lemma_unequal_asts_unequal_indices(s0, s1, b1, s2, b2, Z3Ast::True, Z3Ast::False);
}

} // verus!
