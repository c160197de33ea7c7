use vstd::prelude::*;

use crate::ast::Z3Ast;

verus! {

/// The three-valued outcome of the decision procedure. `Unknown` is a valid
/// result, not an error.
#[derive(Clone, Copy, PartialEq, Eq, Structural, Debug)]
pub enum SatOutcome {
    Sat,
    Unsat,
    Unknown,
}

/// The literal answer the bridge returns for an outcome, quoted as the
/// engine writes its string literals.
pub open spec fn answer_text(o: SatOutcome) -> Seq<char> {
    match o {
        SatOutcome::Sat => "\"sat\""@,
        SatOutcome::Unsat => "\"unsat\""@,
        SatOutcome::Unknown => "\"unknown\""@,
    }
}

/// Map an outcome of the decision procedure to the literal answer returned
/// to the engine.
pub fn sat_answer(o: SatOutcome) -> (r: String)
    ensures
        r@ == answer_text(o),
{
    match o {
        SatOutcome::Sat => String::from_str("\"sat\""),
        SatOutcome::Unsat => String::from_str("\"unsat\""),
        SatOutcome::Unknown => String::from_str("\"unknown\""),
    }
}

#[verifier::external_type_specification]
#[verifier::external_body]
pub struct ExContext(z3::Context);

#[verifier::external_type_specification]
#[verifier::external_body]
pub struct ExSolver(z3::Solver);

#[verifier::external_type_specification]
#[verifier::external_body]
pub struct ExBool(z3::ast::Bool);

/// Relies on z3::Context::thread_local: a handle to the solver session that
/// all formulas and solvers of this thread are built in. Holding the handle
/// keeps the session alive.
#[verifier::external_body]
pub(crate) fn context_acquire() -> z3::Context {
    z3::Context::thread_local()
}

/// Relies on z3::ast::Bool::from_bool: the solver's `true` or `false`
/// literal node.
#[verifier::external_body]
pub(crate) fn z3_bool_literal(b: bool) -> z3::ast::Bool {
    z3::ast::Bool::from_bool(b)
}

/// Relies on z3::ast::Bool::not: the solver-side negation of a formula.
#[verifier::external_body]
pub(crate) fn z3_not(a: &z3::ast::Bool) -> z3::ast::Bool {
    a.not()
}

/// Relies on z3::ast::Bool::and: the solver-side conjunction of two
/// formulas.
#[verifier::external_body]
pub(crate) fn z3_and(a: &z3::ast::Bool, b: &z3::ast::Bool) -> z3::ast::Bool {
    z3::ast::Bool::and(&[a.clone(), b.clone()])
}

/// Relies on z3::Solver::new: a fresh solver with no assertions, bound to
/// this thread's session.
#[verifier::external_body]
pub(crate) fn solver_new() -> z3::Solver {
    z3::Solver::new()
}

/// Relies on z3::Solver::assert: adds a formula to the solver's assertions.
#[verifier::external_body]
pub(crate) fn solver_assert(s: &z3::Solver, f: &z3::ast::Bool) {
    s.assert(f)
}

/// Relies on z3::Solver::check: runs the decision procedure. The outcome is
/// one of satisfiable, unsatisfiable or unknown; nothing more is assumed of
/// which of the three comes back.
#[verifier::external_body]
pub(crate) fn solver_check(s: &z3::Solver) -> SatOutcome {
    match s.check() {
        z3::SatResult::Sat => SatOutcome::Sat,
        z3::SatResult::Unsat => SatOutcome::Unsat,
        z3::SatResult::Unknown => SatOutcome::Unknown,
    }
}

/// Build the solver's own representation of a formula, node by node.
pub(crate) fn build_formula(e: &Z3Ast) -> z3::ast::Bool
    decreases *e,
{
    match e {
        Z3Ast::True => z3_bool_literal(true),
        Z3Ast::False => z3_bool_literal(false),
        Z3Ast::Not(a) => {
            let x = build_formula(&**a);
            z3_not(&x)
        },
        Z3Ast::And(a, b) => {
            let x = build_formula(&**a);
            let y = build_formula(&**b);
            z3_and(&x, &y)
        },
    }
}

/// Run the decision procedure on one formula: a fresh, scoped solver is
/// created, the formula asserted, the check run, and the solver discarded.
/// The outcome is the solver's alone; every caller must be ready for any of
/// the three.
pub(crate) fn check_formula(e: &Z3Ast) -> SatOutcome {
    let f = build_formula(e);
    let s = solver_new();
    solver_assert(&s, &f);
    solver_check(&s)
}

} // verus!
