use z3sort::prims::{Z3And, Z3Check, Z3False, Z3Not, Z3True};
use z3sort::sort::{StringSort, Z3Sort};
use z3sort::sym::Symbol;
use z3sort::value::Value;

fn new_sort() -> Z3Sort {
    Z3Sort::new(
        Symbol::of_str("Z3Sort"),
        StringSort::new(Symbol::of_str("String")),
    )
}

fn z3s() -> Symbol {
    Symbol::of_str("Z3Sort")
}

fn constant_true(sort: &mut Z3Sort) -> Value {
    let p = Z3True { name: Symbol::of_str("z3true"), sort: z3s() };
    p.apply(sort, &vec![]).unwrap()
}

fn constant_false(sort: &mut Z3Sort) -> Value {
    let p = Z3False { name: Symbol::of_str("z3false"), sort: z3s() };
    p.apply(sort, &vec![]).unwrap()
}

fn negate(sort: &mut Z3Sort, v: Value) -> Value {
    let p = Z3Not { name: Symbol::of_str("not"), sort: z3s() };
    p.apply(sort, &vec![v]).unwrap()
}

fn conjoin(sort: &mut Z3Sort, a: Value, b: Value) -> Value {
    let p = Z3And { name: Symbol::of_str("and"), sort: z3s() };
    p.apply(sort, &vec![a, b]).unwrap()
}

fn check(sort: &mut Z3Sort, v: Value) -> String {
    let p = Z3Check {
        name: Symbol::of_str("check-sat"),
        sort: z3s(),
        string_sort: Symbol::of_str("String"),
    };
    let r = p.apply(sort, &vec![v]).unwrap();
    assert_eq!(r.tag.text, "String");
    sort.stringsort.get(r.bits as usize).clone()
}

#[test]
fn constant_true_is_sat() {
    let mut sort = new_sort();
    let v = constant_true(&mut sort);
    assert_eq!(check(&mut sort, v), "\"sat\"");
}

#[test]
fn constant_false_is_unsat() {
    let mut sort = new_sort();
    let v = constant_false(&mut sort);
    assert_eq!(check(&mut sort, v), "\"unsat\"");
}

#[test]
fn true_and_false_is_unsat() {
    let mut sort = new_sort();
    let t = constant_true(&mut sort);
    let f = constant_false(&mut sort);
    let a = conjoin(&mut sort, t, f);
    assert_eq!(check(&mut sort, a), "\"unsat\"");
}

#[test]
fn not_false_is_sat() {
    let mut sort = new_sort();
    let f = constant_false(&mut sort);
    let n = negate(&mut sort, f);
    assert_eq!(check(&mut sort, n), "\"sat\"");
}

#[test]
fn conjoining_with_true_preserves_the_answer() {
    let mut sort = new_sort();
    let t = constant_true(&mut sort);
    let f = constant_false(&mut sort);
    let nf = negate(&mut sort, f.clone());
    let tf = conjoin(&mut sort, t.clone(), f.clone());
    for x in [t.clone(), f, nf, tf] {
        let alone = check(&mut sort, x.clone());
        let t2 = constant_true(&mut sort);
        let with_true = conjoin(&mut sort, x, t2);
        assert_eq!(check(&mut sort, with_true), alone);
    }
}
