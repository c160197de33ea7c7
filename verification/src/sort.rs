use vstd::prelude::*;

use crate::ast::Z3Ast;
use crate::solver::context_acquire;
use crate::sym::Symbol;
use crate::table::{insert_post, IndexSet};
use crate::value::Value;

verus! {

/// No two interned strings have the same text.
pub open spec fn distinct_strings(s: Seq<Seq<char>>) -> bool {
    forall|i: int, j: int| 0 <= i < j < s.len() ==> s[i] != s[j]
}

/// What one string interning step does: the mirror of the formula table's
/// `insert_post`, over the texts of the interned strings.
pub open spec fn string_insert_post(
    pre: Seq<Seq<char>>,
    post: Seq<Seq<char>>,
    i: int,
    x: Seq<char>,
) -> bool {
    &&& 0 <= i < post.len()
    &&& post[i] == x
    &&& (forall|k: int| 0 <= k < post.len() && k != i ==> post[k] != x)
    &&& pre.is_prefix_of(post)
    &&& (if pre.contains(x) {
        post == pre
    } else {
        post == pre.push(x)
    })
}

/// The engine's interned-string sort, as this bridge sees it: it interns a
/// literal string and hands back the tagged value addressing it. The bridge
/// only ever uses it to return textual results.
pub struct StringSort {
    pub name: Symbol,
    pub strings: Vec<String>,
}

impl StringSort {
    /// The texts held by the sort, in insertion order.
    pub open spec fn strs(&self) -> Seq<Seq<char>> {
        self.strings@.map_values(|s: String| s@)
    }

    /// The sort's invariant: interned strings are pairwise unequal.
    pub open spec fn wf(&self) -> bool {
        distinct_strings(self.strs())
    }

    /// A fresh string sort with the given name and no strings.
    pub fn new(name: Symbol) -> (r: StringSort)
        ensures
            r.wf(),
            r.name@ == name@,
            r.strs() == Seq::<Seq<char>>::empty(),
    {
        let r = StringSort { name, strings: Vec::new() };
        proof {
            assert(r.strs() =~= Seq::<Seq<char>>::empty());
        }
        r
    }

    /// Intern a string and hand back the value addressing it, tagged with
    /// this sort's name.
    pub fn store(&mut self, s: String) -> (v: Value)
        requires
            old(self).wf(),
        ensures
            final(self).wf(),
            final(self).name@ == old(self).name@,
            v.tag@ == old(self).name@,
            string_insert_post(old(self).strs(), final(self).strs(), v.bits as int, s@),
    {
        let n = self.strings.len();
        let mut k: usize = 0;
        while k < n
            invariant
                n == self.strings@.len(),
                k <= n,
                *self == *old(self),
                distinct_strings(self.strs()),
                forall|j: int| 0 <= j < k ==> self.strs()[j] != s@,
            decreases n - k,
        {
            if self.strings[k] == s {
                proof {
                    assert(self.strs()[k as int] == s@);
                    assert(old(self).strs().contains(s@)) by {
                        assert(old(self).strs()[k as int] == s@);
                    }
                    assert(old(self).strs().is_prefix_of(self.strs()));
                }
                return Value { tag: self.name.clone(), bits: k as u64 };
            }
            k += 1;
        }
        proof {
            assert(!old(self).strs().contains(s@)) by {
                assert(forall|j: int|
                    0 <= j < old(self).strs().len() ==> old(self).strs()[j] != s@);
            }
        }
        let ghost pre = self.strs();
        self.strings.push(s);
        proof {
            assert(self.strs() =~= pre.push(s@));
            assert(pre.is_prefix_of(self.strs())) by {
                assert(self.strs().subrange(0, pre.len() as int) =~= pre);
            }
            assert(distinct_strings(self.strs())) by {
                assert(forall|i: int| 0 <= i < pre.len() ==> self.strs()[i] == pre[i]);
            }
        }
        Value { tag: self.name.clone(), bits: n as u64 }
    }

    /// Read the string at index `i`.
    pub fn get(&self, i: usize) -> (r: &String)
        requires
            i < self.strs().len(),
        ensures
            r@ == self.strs()[i as int],
    {
        &self.strings[i]
    }
}

/// The engine-side literal a materialized value is wrapped in.
pub enum Literal {
    Str(String),
}

/// The engine-side term a value of this sort materializes into: the
/// formula's canonical text wrapped as a literal term.
pub enum Expr {
    Lit(Literal),
}

/// The text carried by a materialized term.
pub open spec fn expr_text(e: Expr) -> Seq<char> {
    match e {
        Expr::Lit(Literal::Str(s)) => s@,
    }
}

/// The sort that owns the bridge: a dedicated solver session handle, the
/// interning table of formulas, and the string sort used for answers. The
/// session handle is held for the sort's whole lifetime, so every formula
/// the table describes stays valid as long as the sort lives.
pub struct Z3Sort {
    pub name: Symbol,
    pub ctx: z3::Context,
    pub stringsort: StringSort,
    pub asts: IndexSet,
}

impl Z3Sort {
    /// The sort's invariant: both interning tables are well formed.
    pub open spec fn wf(&self) -> bool {
        self.asts.wf() && self.stringsort.wf()
    }

    /// Construct the sort: acquires a solver session handle of its own and
    /// starts with an empty table.
    pub fn new(name: Symbol, stringsort: StringSort) -> (r: Z3Sort)
        requires
            stringsort.wf(),
        ensures
            r.wf(),
            r.name@ == name@,
            r.asts@ == Seq::<Z3Ast>::empty(),
            r.stringsort == stringsort,
    {
        Z3Sort { name, ctx: context_acquire(), stringsort, asts: IndexSet::new() }
    }

    /// The sort's stable identifier, used to tag its values and to match
    /// argument sorts.
    pub fn name(&self) -> (r: &Symbol)
        ensures
            r@ == self.name@,
    {
        &self.name
    }

    /// Materialize a value of this sort as an engine term: decode it
    /// through the table and wrap the formula's text as a literal. A value
    /// tagged with another sort, or one whose payload is no index of the
    /// table, is an engine-contract violation and is ruled out here.
    pub fn make_expr(&self, value: &Value) -> (e: Expr)
        requires
            value.tag@ == self.name@,
            value.bits < self.asts@.len(),
        ensures
            expr_text(e) == self.asts@[value.bits as int].text(),
    {
        let ast = Z3Ast::load(self, value);
        Expr::Lit(Literal::Str(ast.to_string()))
    }
}

impl Z3Ast {
    /// Encode: intern the formula in the sort's table and tag the index
    /// with the sort's name. Always succeeds.
    pub fn store(self, sort: &mut Z3Sort) -> (r: Option<Value>)
        requires
            old(sort).wf(),
        ensures
            final(sort).wf(),
            final(sort).name@ == old(sort).name@,
            final(sort).stringsort == old(sort).stringsort,
            ({
                &&& r matches Some(v)
                &&& v.tag@ == old(sort).name@
                &&& insert_post(old(sort).asts@, final(sort).asts@, v.bits as int, self)
            }),
    {
        let i = sort.asts.insert(self);
        Some(Value { tag: sort.name.clone(), bits: i as u64 })
    }

    /// Decode: read the formula a value addresses in the sort's table.
    pub fn load(sort: &Z3Sort, value: &Value) -> (r: Z3Ast)
        requires
            value.bits < sort.asts@.len(),
        ensures
            r == sort.asts@[value.bits as int],
    {
        let n = sort.asts.len();
        proof {
            assert(value.bits < n as u64);
        }
        let i = value.bits as usize;
        sort.asts.get(i).clone()
    }
}

} // verus!
