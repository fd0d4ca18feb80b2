//! Listing order of the stores: each store's records carry a total,
//! transitive "may stand at or before" relation (newest first, by name,
//! by due date), and one verified insertion sort puts any listing into
//! that order while keeping exactly the same records.

use vstd::prelude::*;

use crate::seqs::lemma_insert_multiset;

verus! {

broadcast use vstd::seq_lib::group_to_multiset_ensures, vstd::multiset::group_multiset_axioms;

/// The listing order of one record type: whether `self` may stand at
/// or before `other`. Total and transitive, with an executable test.
pub trait ListOrder: Sized {
    /// Whether `self` may stand at or before `other` in a listing.
    spec fn spec_le(&self, other: &Self) -> bool;

    /// The relation is total: of any two records, one may stand
    /// before the other.
    proof fn lemma_total(a: &Self, b: &Self)
        ensures
            a.spec_le(b) || b.spec_le(a),
    ;

    /// The relation is transitive.
    proof fn lemma_trans(a: &Self, b: &Self, c: &Self)
        requires
            a.spec_le(b),
            b.spec_le(c),
        ensures
            a.spec_le(c),
    ;

    fn le(&self, other: &Self) -> (r: bool)
        ensures
            r == self.spec_le(other),
    ;
}

/// Whether the sequence stands in listing order.
pub open spec fn listed_in_order<T: ListOrder>(s: Seq<T>) -> bool {
    forall|i: int, j: int| 0 <= i < j < s.len() ==> #[trigger] s[i].spec_le(&s[j])
}

/// Puts the records into listing order: the result holds exactly the
/// given records (ties may stand either way).
pub fn sort_in_order<T: ListOrder>(v: Vec<T>) -> (r: Vec<T>)
    ensures
        r@.to_multiset() == v@.to_multiset(),
        listed_in_order(r@),
{
    let ghost orig = v@;
    let mut rest = v;
    let mut out: Vec<T> = Vec::new();
    while rest.len() > 0
        invariant
            out@.to_multiset().add(rest@.to_multiset()) == orig.to_multiset(),
            listed_in_order(out@),
        decreases rest.len(),
    {
        let ghost rest0 = rest@;
        let x = rest.remove(0);
        let m = out.len();
        let mut k: usize = 0;
        while k < m && out[k].le(&x)
            invariant
                k <= m,
                m == out@.len(),
                forall|j: int| 0 <= j < k ==> #[trigger] out@[j].spec_le(&x),
            decreases m - k,
        {
            k = k + 1;
        }
        let ghost prev = out@;
        let ghost kk = k as int;
        out.insert(k, x);
        proof {
            // The records are conserved: one moved from `rest` to `out`.
            lemma_insert_multiset(prev, kk, x);
            assert(rest0.contains(rest0[0]));
            assert(out@.to_multiset().add(rest@.to_multiset()) =~= orig.to_multiset());

            // The insertion position keeps the order.
            prev.insert_ensures(kk, x);
            if kk < prev.len() {
                T::lemma_total(&prev[kk], &x);
            }
            assert forall|p: int, q: int|
                0 <= p < q < out@.len() implies #[trigger] out@[p].spec_le(&out@[q]) by {
                if q < kk {
                    assert(out@[p] == prev[p] && out@[q] == prev[q]);
                } else if p > kk {
                    assert(out@[p] == prev[p - 1] && out@[q] == prev[q - 1]);
                } else if p == kk && q > kk {
                    assert(out@[q] == prev[q - 1]);
                    if q - 1 > kk {
                        T::lemma_trans(&x, &prev[kk], &prev[q - 1]);
                    }
                } else if q == kk {
                    assert(out@[p] == prev[p]);
                } else {
                    assert(p < kk && q > kk);
                    assert(out@[p] == prev[p] && out@[q] == prev[q - 1]);
                }
            }
        }
    }
    out
}

/// A permutation of records with pairwise-distinct keys has
/// pairwise-distinct keys itself.
pub proof fn lemma_permutation_keeps_unique_keys<A>(s: Seq<A>, t: Seq<A>, key: spec_fn(A) -> u128)
    requires
        s.to_multiset() == t.to_multiset(),
        forall|i: int, j: int| 0 <= i < j < s.len() ==> key(s[i]) != key(s[j]),
    ensures
        forall|i: int, j: int| 0 <= i < j < t.len() ==> key(#[trigger] t[i]) != key(#[trigger] t[j]),
{
    assert(s.no_duplicates()) by {
        assert forall|i: int, j: int|
            0 <= i < s.len() && 0 <= j < s.len() && i != j implies s[i] != s[j] by {
            if i < j {
                assert(key(s[i]) != key(s[j]));
            } else {
                assert(key(s[j]) != key(s[i]));
            }
        }
    }
    s.lemma_multiset_has_no_duplicates();
    t.lemma_multiset_has_no_duplicates_conv();
    assert forall|i: int, j: int|
        0 <= i < j < t.len() implies key(#[trigger] t[i]) != key(#[trigger] t[j]) by {
        assert(t[i] != t[j]);
        assert(t.to_multiset().contains(t[i]) && t.to_multiset().contains(t[j]));
        assert(s.contains(t[i]) && s.contains(t[j]));
        let a = choose|a: int| 0 <= a < s.len() && s[a] == t[i];
        let b = choose|b: int| 0 <= b < s.len() && s[b] == t[j];
        if a < b {
            assert(key(s[a]) != key(s[b]));
        } else if b < a {
            assert(key(s[b]) != key(s[a]));
        }
    }
}

} // verus!
