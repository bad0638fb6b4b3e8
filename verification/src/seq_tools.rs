//! Small facts about sequences that the state machines use: the first element that
//! satisfies a predicate, and copying a vector.
use vstd::prelude::*;

verus! {

/// The index of the first element of `s` that satisfies `p`, if there is one.
pub open spec fn first_index<A>(s: Seq<A>, p: spec_fn(A) -> bool) -> Option<int> {
    if exists|i: int| #![trigger s[i]] 0 <= i < s.len() && p(s[i]) && forall|j: int| 0 <= j < i ==> !p(s[j]) {
        Some(choose|i: int| #![trigger s[i]] 0 <= i < s.len() && p(s[i]) && forall|j: int| 0 <= j < i ==> !p(s[j]))
    } else {
        None
    }
}

/// An index that satisfies `p` after indices that do not is the first one.
pub proof fn lemma_first_index_found<A>(s: Seq<A>, p: spec_fn(A) -> bool, i: int)
    requires
        0 <= i < s.len(),
        p(s[i]),
        forall|j: int| 0 <= j < i ==> !p(s[j]),
    ensures
        first_index(s, p) == Some(i),
{
    assert(0 <= i < s.len() && p(s[i]) && forall|j: int| 0 <= j < i ==> !p(s[j]));
    let k = choose|k: int| #![trigger s[k]] 0 <= k < s.len() && p(s[k]) && forall|j: int| 0 <= j < k ==> !p(s[j]);
    if k < i {
        assert(!p(s[k]));
    }
    if i < k {
        assert(!p(s[i]));
    }
}

/// Where no element satisfies `p`, there is no first one.
pub proof fn lemma_first_index_none<A>(s: Seq<A>, p: spec_fn(A) -> bool)
    requires
        forall|j: int| 0 <= j < s.len() ==> !p(s[j]),
    ensures
        first_index(s, p) is None,
{
}

/// Where some element satisfies `p`, there is a first one.
pub proof fn lemma_first_index_exists<A>(s: Seq<A>, p: spec_fn(A) -> bool, k: int)
    requires
        0 <= k < s.len(),
        p(s[k]),
    ensures
        first_index(s, p) is Some,
    decreases k,
{
    if exists|j: int| 0 <= j < k && p(s[j]) {
        let j = choose|j: int| 0 <= j < k && p(s[j]);
        lemma_first_index_exists(s, p, j);
    } else {
        assert(0 <= k < s.len() && p(s[k]) && forall|j: int| 0 <= j < k ==> !p(s[j]));
    }
}

/// What `first_index` returns satisfies the predicate, and nothing before it does.
pub proof fn lemma_first_index_some<A>(s: Seq<A>, p: spec_fn(A) -> bool)
    requires
        first_index(s, p) is Some,
    ensures
        0 <= first_index(s, p)->0 < s.len(),
        p(s[first_index(s, p)->0]),
        forall|j: int| 0 <= j < first_index(s, p)->0 ==> !p(s[j]),
{
}

/// The index of the first element that satisfies `p` and whose key is the largest among
/// those that satisfy `p`.
pub open spec fn best_index<A>(s: Seq<A>, p: spec_fn(A) -> bool, key: spec_fn(A) -> int) -> Option<int> {
    first_index(s, |x: A| p(x) && forall|j: int| 0 <= j < s.len() && p(s[j]) ==> key(s[j]) <= key(x))
}

/// An element of largest key, strictly above all the earlier ones, is the best one.
pub proof fn lemma_best_index_found<A>(s: Seq<A>, p: spec_fn(A) -> bool, key: spec_fn(A) -> int, b: int)
    requires
        0 <= b < s.len(),
        p(s[b]),
        forall|j: int| 0 <= j < s.len() && p(s[j]) ==> key(s[j]) <= key(s[b]),
        forall|j: int| 0 <= j < b && p(s[j]) ==> key(s[j]) < key(s[b]),
    ensures
        best_index(s, p, key) == Some(b),
{
    let q = |x: A| p(x) && forall|j: int| 0 <= j < s.len() && p(s[j]) ==> key(s[j]) <= key(x);
    assert forall|j: int| 0 <= j < b implies !q(s[j]) by {
        if p(s[j]) {
            assert(p(s[b]) && !(key(s[b]) <= key(s[j])));
        }
    }
    lemma_first_index_found(s, q, b);
}

/// Where no element satisfies `p`, there is no best one.
pub proof fn lemma_best_index_none<A>(s: Seq<A>, p: spec_fn(A) -> bool, key: spec_fn(A) -> int)
    requires
        forall|j: int| 0 <= j < s.len() ==> !p(s[j]),
    ensures
        best_index(s, p, key) is None,
{
    let q = |x: A| p(x) && forall|j: int| 0 <= j < s.len() && p(s[j]) ==> key(s[j]) <= key(x);
    assert forall|j: int| 0 <= j < s.len() implies !q(s[j]) by {}
    lemma_first_index_none(s, q);
}

/// Where some element satisfies `p`, there is a best one.
pub proof fn lemma_best_index_exists<A>(s: Seq<A>, p: spec_fn(A) -> bool, key: spec_fn(A) -> int, k: int)
    requires
        0 <= k < s.len(),
        p(s[k]),
    ensures
        best_index(s, p, key) is Some,
{
    let m = lemma_max_element(s, p, key, s.len() as int, k);
    let q = |x: A| p(x) && forall|j: int| 0 <= j < s.len() && p(s[j]) ==> key(s[j]) <= key(x);
    assert(q(s[m]));
    lemma_first_index_exists(s, q, m);
}

/// Among the first `n` elements, one that satisfies `p` (as the `k`-th does) has the
/// largest key of those that do.
proof fn lemma_max_element<A>(s: Seq<A>, p: spec_fn(A) -> bool, key: spec_fn(A) -> int, n: int, k: int) -> (m: int)
    requires
        0 <= k < n <= s.len(),
        p(s[k]),
    ensures
        0 <= m < n,
        p(s[m]),
        forall|j: int| 0 <= j < n && p(s[j]) ==> key(s[j]) <= key(s[m]),
    decreases n,
{
    if n == k + 1 {
        if exists|j: int| 0 <= j < k && p(s[j]) {
            let j = choose|j: int| 0 <= j < k && p(s[j]);
            let m0 = lemma_max_element(s, p, key, k, j);
            if key(s[m0]) <= key(s[k]) {
                k
            } else {
                m0
            }
        } else {
            k
        }
    } else {
        let m0 = lemma_max_element(s, p, key, n - 1, k);
        if p(s[n - 1]) && key(s[m0]) < key(s[n - 1]) {
            n - 1
        } else {
            m0
        }
    }
}

/// What `best_index` returns satisfies the predicate and has the largest key.
pub proof fn lemma_best_index_some<A>(s: Seq<A>, p: spec_fn(A) -> bool, key: spec_fn(A) -> int)
    requires
        best_index(s, p, key) is Some,
    ensures
        0 <= best_index(s, p, key)->0 < s.len(),
        p(s[best_index(s, p, key)->0]),
        forall|j: int| #![trigger s[j]] 0 <= j < s.len() && p(s[j]) ==> key(s[j]) <= key(s[best_index(s, p, key)->0]),
{
    let q = |x: A| p(x) && forall|j: int| 0 <= j < s.len() && p(s[j]) ==> key(s[j]) <= key(x);
    lemma_first_index_some(s, q);
}

/// A copy of a vector of plain values.
pub fn copy_vec<T: Copy>(v: &Vec<T>) -> (r: Vec<T>)
    ensures
        r@ == v@,
{
    let mut r: Vec<T> = Vec::new();
    let mut i: usize = 0;
    while i < v.len()
        invariant
            i <= v.len(),
            r@ == v@.subrange(0, i as int),
        decreases v.len() - i,
    {
        r.push(v[i]);
        i = i + 1;
    }
    assert(v@.subrange(0, v@.len() as int) =~= v@);
    r
}

} // verus!
