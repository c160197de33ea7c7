//! A bridge that lets a term-rewriting engine treat solver-owned boolean
//! formulas as first-class values: formulas are modelled as immutable terms,
//! deduplicated in an interning table, and addressed by fixed-size tagged
//! values, while satisfiability queries go to the Z3 solver.

pub mod ast;
pub mod prims;
pub mod solver;
pub mod sort;
pub mod sym;
pub mod table;
pub mod value;
