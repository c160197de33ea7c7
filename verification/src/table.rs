use vstd::prelude::*;

use crate::ast::Z3Ast;

verus! {

/// No two entries of the sequence are equal.
pub open spec fn distinct(s: Seq<Z3Ast>) -> bool {
    forall|i: int, j: int| 0 <= i < j < s.len() ==> s[i] != s[j]
}

/// What one interning step does: `post` is the table after inserting `x`
/// into `pre`, and `i` is the index handed back. Old entries keep their
/// places, `x` sits at `i` and nowhere else, and nothing but `x` is added.
pub open spec fn insert_post(pre: Seq<Z3Ast>, post: Seq<Z3Ast>, i: int, x: Z3Ast) -> bool {
    &&& 0 <= i < post.len()
    &&& post[i] == x
    &&& (forall|k: int| 0 <= k < post.len() && k != i ==> post[k] != x)
    &&& pre.is_prefix_of(post)
    &&& (if pre.contains(x) {
        post == pre
    } else {
        post == pre.push(x)
    })
}

/// An append-only, index-addressed set of distinct formulas: the interning
/// table. Indices are stable for the table's lifetime; entries are never
/// removed, reordered or mutated.
pub struct IndexSet {
    pub items: Vec<Z3Ast>,
}

impl View for IndexSet {
    type V = Seq<Z3Ast>;

    open spec fn view(&self) -> Seq<Z3Ast> {
        self.items@
    }
}

impl IndexSet {
    /// The table's invariant: entries are pairwise unequal.
    pub open spec fn wf(&self) -> bool {
        distinct(self@)
    }

    /// A fresh, empty table.
    pub fn new() -> (r: IndexSet)
        ensures
            r@ == Seq::<Z3Ast>::empty(),
            r.wf(),
    {
        IndexSet { items: Vec::new() }
    }

    /// How many formulas the table holds.
    pub fn len(&self) -> (n: usize)
        ensures
            n == self@.len(),
    {
        self.items.len()
    }

    /// Intern a formula: hand back the index of the entry equal to `x`,
    /// appending `x` first if no entry equals it.
    pub fn insert(&mut self, x: Z3Ast) -> (i: usize)
        requires
            old(self).wf(),
        ensures
            final(self).wf(),
            insert_post(old(self)@, final(self)@, i as int, x),
    {
        let n = self.items.len();
        let mut k: usize = 0;
        while k < n
            invariant
                n == self@.len(),
                k <= n,
                self@ == old(self)@,
                distinct(self@),
                forall|j: int| 0 <= j < k ==> self@[j] != x,
            decreases n - k,
        {
            if self.items[k] == x {
                proof {
                    assert(old(self)@.contains(x)) by {
                        assert(old(self)@[k as int] == x);
                    }
                    assert(forall|m: int|
                        0 <= m < self@.len() && m != k ==> self@[m] != x) by {
                        assert(distinct(self@));
                        assert(self@[k as int] == x);
                    }
                    assert(old(self)@.is_prefix_of(self@));
                }
                return k;
            }
            k += 1;
        }
        proof {
            assert(!old(self)@.contains(x)) by {
                assert(forall|j: int| 0 <= j < old(self)@.len() ==> old(self)@[j] != x);
            }
        }
        self.items.push(x);
        proof {
            assert(self@ == old(self)@.push(x));
            assert(old(self)@.is_prefix_of(self@)) by {
                assert(self@.subrange(0, old(self)@.len() as int) =~= old(self)@);
            }
            assert(distinct(self@)) by {
                assert(forall|i: int, j: int|
                    0 <= i < j < self@.len() ==> self@[i] != self@[j]) by {
                    assert(forall|i: int| 0 <= i < old(self)@.len() ==> self@[i] == old(self)@[i]);
                }
            }
        }
        n
    }

    /// Read the formula at index `i`. An index out of range is an internal
    /// invariant violation, never a reachable state, so it is ruled out here.
    pub fn get(&self, i: usize) -> (r: &Z3Ast)
        requires
            i < self@.len(),
        ensures
            *r == self@[i as int],
    {
        &self.items[i]
    }
}

/// Interning is idempotent: inserting a formula a second time changes
/// nothing and hands back the same index as the first insertion.
pub proof fn lemma_insert_idempotent(
    s0: Seq<Z3Ast>,
    s1: Seq<Z3Ast>,
    i1: int,
    s2: Seq<Z3Ast>,
    i2: int,
    x: Z3Ast,
)
    requires
        insert_post(s0, s1, i1, x),
        insert_post(s1, s2, i2, x),
    ensures
        i2 == i1,
        s2 == s1,
{
    assert(s1.contains(x)) by {
        assert(s1[i1] == x);
    }
}

/// Round trip: the index handed back by an insertion addresses exactly the
/// formula that was inserted, so decoding after encoding gives it back.
pub proof fn lemma_round_trip(s0: Seq<Z3Ast>, s1: Seq<Z3Ast>, i: int, x: Z3Ast)
    requires
        insert_post(s0, s1, i, x),
    ensures
        0 <= i < s1.len(),
        s1[i] == x,
{
}

/// Distinctness: inserting two unequal formulas, one after the other, hands
/// back two different indices, so the two tagged values differ.
pub proof fn lemma_unequal_asts_unequal_indices(
    s0: Seq<Z3Ast>,
    s1: Seq<Z3Ast>,
    i1: int,
    s2: Seq<Z3Ast>,
    i2: int,
    x: Z3Ast,
    y: Z3Ast,
)
    requires
        insert_post(s0, s1, i1, x),
        insert_post(s1, s2, i2, y),
        x != y,
    ensures
        i1 != i2,
        s2[i1] == x,
        s2[i2] == y,
{
    assert(s2[i1] == x) by {
        assert(s1.is_prefix_of(s2));
        assert(s2.subrange(0, s1.len() as int) == s1);
        assert(s2[i1] == s2.subrange(0, s1.len() as int)[i1]);
    }
}

} // verus!
