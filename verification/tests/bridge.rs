use z3sort::ast::Z3Ast;
use z3sort::prims::{Primitive, Z3And, Z3False, Z3Not, Z3True};
use z3sort::solver::{sat_answer, SatOutcome};
use z3sort::sort::{Expr, Literal, StringSort, Z3Sort};
use z3sort::sym::Symbol;
use z3sort::table::IndexSet;

fn new_sort() -> Z3Sort {
    Z3Sort::new(
        Symbol::of_str("Z3Sort"),
        StringSort::new(Symbol::of_str("String")),
    )
}

fn z3s() -> Symbol {
    Symbol::of_str("Z3Sort")
}

#[test]
fn interning_is_idempotent() {
    let mut t = IndexSet::new();
    let f = Z3Ast::Not(Box::new(Z3Ast::True));
    let i = t.insert(f.clone());
    let j = t.insert(f.clone());
    assert_eq!(i, j);
    assert_eq!(t.len(), 1);
    assert!(*t.get(i) == f);
}

#[test]
fn interning_keeps_existing_indices() {
    let mut t = IndexSet::new();
    let i = t.insert(Z3Ast::True);
    let j = t.insert(Z3Ast::False);
    let k = t.insert(Z3Ast::True);
    assert_eq!(i, k);
    assert_ne!(i, j);
    assert!(*t.get(i) == Z3Ast::True);
    assert!(*t.get(j) == Z3Ast::False);
}

#[test]
fn store_load_round_trip() {
    let mut sort = new_sort();
    let f = Z3Ast::And(
        Box::new(Z3Ast::Not(Box::new(Z3Ast::True))),
        Box::new(Z3Ast::False),
    );
    let v = f.clone().store(&mut sort).unwrap();
    let g = Z3Ast::load(&sort, &v);
    assert!(g == f);
    assert_eq!(v.tag.text, "Z3Sort");
}

#[test]
fn store_is_idempotent_on_values() {
    let mut sort = new_sort();
    let v1 = Z3Ast::True.store(&mut sort).unwrap();
    let v2 = Z3Ast::True.store(&mut sort).unwrap();
    assert!(v1 == v2);
}

#[test]
fn true_and_false_values_differ() {
    let mut sort = new_sort();
    let tp = Z3True { name: Symbol::of_str("z3true"), sort: z3s() };
    let fp = Z3False { name: Symbol::of_str("z3false"), sort: z3s() };
    let v1 = tp.apply(&mut sort, &vec![]).unwrap();
    let v2 = fp.apply(&mut sort, &vec![]).unwrap();
    assert!(v1 != v2);
    assert_ne!(v1.bits, v2.bits);
}

#[test]
fn accept_nullary_rejects_arguments() {
    let tp = Z3True { name: Symbol::of_str("z3true"), sort: z3s() };
    let fp = Z3False { name: Symbol::of_str("z3false"), sort: z3s() };
    assert!(tp.accept(&vec![]).is_some());
    assert!(fp.accept(&vec![]).is_some());
    assert_eq!(tp.accept(&vec![]).unwrap().text, "Z3Sort");
    assert!(tp.accept(&vec![z3s()]).is_none());
    assert!(tp.accept(&vec![z3s(), z3s()]).is_none());
    assert!(tp.accept(&vec![z3s(), z3s(), z3s()]).is_none());
    assert!(fp.accept(&vec![Symbol::of_str("i64")]).is_none());
}

#[test]
fn accept_unary_wants_one_argument_of_this_sort() {
    let np = Z3Not { name: Symbol::of_str("not"), sort: z3s() };
    assert_eq!(np.accept(&vec![z3s()]).unwrap().text, "Z3Sort");
    assert!(np.accept(&vec![]).is_none());
    assert!(np.accept(&vec![Symbol::of_str("i64")]).is_none());
    assert!(np.accept(&vec![z3s(), z3s()]).is_none());
    assert!(np.accept(&vec![z3s(), z3s(), z3s()]).is_none());
}

#[test]
fn accept_binary_wants_two_arguments_of_this_sort() {
    let ap = Z3And { name: Symbol::of_str("and"), sort: z3s() };
    assert_eq!(ap.accept(&vec![z3s(), z3s()]).unwrap().text, "Z3Sort");
    assert!(ap.accept(&vec![]).is_none());
    assert!(ap.accept(&vec![z3s()]).is_none());
    assert!(ap.accept(&vec![z3s(), Symbol::of_str("i64")]).is_none());
    assert!(ap.accept(&vec![Symbol::of_str("i64"), z3s()]).is_none());
    assert!(ap.accept(&vec![z3s(), z3s(), z3s()]).is_none());
}

#[test]
fn registered_primitives_carry_their_names() {
    let sort = new_sort();
    let prims = sort.register_primitives();
    assert_eq!(prims.len(), 5);
    match &prims[0] {
        Primitive::True(p) => {
            assert_eq!(p.name.text, "z3true");
            assert_eq!(p.sort.text, "Z3Sort");
        },
        _ => panic!("expected the constant-true primitive first"),
    }
    match &prims[1] {
        Primitive::False(p) => assert_eq!(p.name.text, "z3false"),
        _ => panic!("expected the constant-false primitive second"),
    }
    match &prims[2] {
        Primitive::Not(p) => assert_eq!(p.name.text, "not"),
        _ => panic!("expected the negation primitive third"),
    }
    match &prims[3] {
        Primitive::And(p) => assert_eq!(p.name.text, "and"),
        _ => panic!("expected the conjunction primitive fourth"),
    }
    match &prims[4] {
        Primitive::Check(p) => {
            assert_eq!(p.name.text, "check-sat");
            assert_eq!(p.string_sort.text, "String");
        },
        _ => panic!("expected the satisfiability primitive fifth"),
    }
}

#[test]
fn formulas_print_in_solver_syntax() {
    assert_eq!(Z3Ast::True.to_string(), "true");
    assert_eq!(Z3Ast::False.to_string(), "false");
    let f = Z3Ast::Not(Box::new(Z3Ast::And(
        Box::new(Z3Ast::True),
        Box::new(Z3Ast::False),
    )));
    assert_eq!(f.to_string(), "(not (and true false))");
}

#[test]
fn materialize_wraps_the_text_as_a_literal() {
    let mut sort = new_sort();
    let tp = Z3True { name: Symbol::of_str("z3true"), sort: z3s() };
    let fp = Z3False { name: Symbol::of_str("z3false"), sort: z3s() };
    let ap = Z3And { name: Symbol::of_str("and"), sort: z3s() };
    let vt = tp.apply(&mut sort, &vec![]).unwrap();
    let vf = fp.apply(&mut sort, &vec![]).unwrap();
    let va = ap.apply(&mut sort, &vec![vt, vf]).unwrap();
    let e = sort.make_expr(&va);
    match e {
        Expr::Lit(Literal::Str(s)) => assert_eq!(s, "(and true false)"),
    }
}

#[test]
fn answers_are_the_three_quoted_literals() {
    assert_eq!(sat_answer(SatOutcome::Sat), "\"sat\"");
    assert_eq!(sat_answer(SatOutcome::Unsat), "\"unsat\"");
    assert_eq!(sat_answer(SatOutcome::Unknown), "\"unknown\"");
}

#[test]
fn string_sort_interns_without_duplicates() {
    let mut s = StringSort::new(Symbol::of_str("String"));
    let a = s.store(String::from("\"sat\""));
    let b = s.store(String::from("\"unsat\""));
    let c = s.store(String::from("\"sat\""));
    assert_eq!(a.bits, c.bits);
    assert_ne!(a.bits, b.bits);
    assert_eq!(s.get(a.bits as usize).as_str(), "\"sat\"");
    assert_eq!(a.tag.text, "String");
}
