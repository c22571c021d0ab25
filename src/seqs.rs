use vstd::prelude::*;

verus! {

/// The index of the first element that satisfies `p`, or the length when none does.
pub open spec fn first_match<A>(s: Seq<A>, p: spec_fn(A) -> bool) -> int {
    if exists|i: int| 0 <= i < s.len() && p(s[i]) && (forall|j: int| 0 <= j < i ==> !p(s[j])) {
        choose|i: int| 0 <= i < s.len() && p(s[i]) && (forall|j: int| 0 <= j < i ==> !p(s[j]))
    } else {
        s.len() as int
    }
}

/// The first element that satisfies `p`, if any.
pub open spec fn find_first<A>(s: Seq<A>, p: spec_fn(A) -> bool) -> Option<A> {
    let i = first_match(s, p);
    if 0 <= i < s.len() {
        Some(s[i])
    } else {
        None
    }
}

pub proof fn lemma_first_match_at<A>(s: Seq<A>, p: spec_fn(A) -> bool, i: int)
    requires
        0 <= i < s.len(),
        p(s[i]),
        forall|j: int| 0 <= j < i ==> !p(s[j]),
    ensures
        first_match(s, p) == i,
        find_first(s, p) == Some(s[i]),
{
    assert(0 <= i < s.len() && p(s[i]) && (forall|j: int| 0 <= j < i ==> !p(s[j])));
    let k = choose|k: int| 0 <= k < s.len() && p(s[k]) && (forall|j: int| 0 <= j < k ==> !p(s[j]));
    if k < i {
        assert(!p(s[k]));
    }
    if k > i {
        assert(!p(s[i]));
    }
}

pub proof fn lemma_first_match_none<A>(s: Seq<A>, p: spec_fn(A) -> bool)
    requires
        forall|j: int| 0 <= j < s.len() ==> !p(s[j]),
    ensures
        first_match(s, p) == s.len(),
        find_first(s, p) == None::<A>,
{
}

/// When some element satisfies `p`, `find_first` finds one.
pub proof fn lemma_first_match_none_converse<A>(s: Seq<A>, p: spec_fn(A) -> bool, k: int)
    requires
        0 <= k < s.len(),
        p(s[k]),
    ensures
        find_first(s, p) is Some,
    decreases k,
{
    if exists|j: int| 0 <= j < k && p(s[j]) {
        let j = choose|j: int| 0 <= j < k && p(s[j]);
        lemma_first_match_none_converse(s, p, j);
    } else {
        lemma_first_match_at(s, p, k);
    }
}

pub proof fn lemma_find_first_some<A>(s: Seq<A>, p: spec_fn(A) -> bool)
    requires
        find_first(s, p) is Some,
    ensures
        exists|i: int| 0 <= i < s.len() && p(s[i]) && s[i] == find_first(s, p)->0,
{
    let i = first_match(s, p);
    assert(exists|i: int| 0 <= i < s.len() && p(s[i]) && (forall|j: int| 0 <= j < i ==> !p(s[j])));
}

/// One more element of the prefix taken: `filter` grows by it exactly when it passes.
pub proof fn lemma_filter_take_step<A>(s: Seq<A>, p: spec_fn(A) -> bool, i: int)
    requires
        0 <= i < s.len(),
    ensures
        s.take(i + 1).filter(p) == (if p(s[i]) {
            s.take(i).filter(p).push(s[i])
        } else {
            s.take(i).filter(p)
        }),
{
    reveal(Seq::filter);
    assert(s.take(i + 1).drop_last() =~= s.take(i));
    assert(s.take(i + 1).last() == s[i]);
}

/// Every element that `filter` keeps satisfies the predicate and came from the sequence;
/// every element of the sequence that satisfies it is kept.
pub proof fn lemma_filter_members<A>(s: Seq<A>, p: spec_fn(A) -> bool)
    ensures
        forall|i: int| 0 <= i < s.filter(p).len() ==> p(#[trigger] s.filter(p)[i]) && s.contains(s.filter(p)[i]),
        forall|i: int| 0 <= i < s.len() && p(#[trigger] s[i]) ==> s.filter(p).contains(s[i]),
{
    broadcast use Seq::lemma_filter_pred, Seq::lemma_filter_contains, Seq::lemma_filter_contains_rev;

    assert forall|i: int| 0 <= i < s.filter(p).len() implies p(#[trigger] s.filter(p)[i]) && s.contains(s.filter(p)[i]) by {
        assert(s.filter(p).contains(s.filter(p)[i]));
    }
}

/// No two elements share a key.
pub open spec fn distinct_keys<A, K>(s: Seq<A>, key: spec_fn(A) -> K) -> bool {
    forall|i: int, j: int| 0 <= i < s.len() && 0 <= j < s.len() && i != j ==> key(s[i]) != key(s[j])
}

/// Filtering keeps keys distinct.
pub proof fn lemma_filter_distinct_keys<A, K>(s: Seq<A>, p: spec_fn(A) -> bool, key: spec_fn(A) -> K)
    requires
        distinct_keys(s, key),
    ensures
        distinct_keys(s.filter(p), key),
    decreases s.len(),
{
    reveal(Seq::filter);
    if s.len() > 0 {
        let d = s.drop_last();
        assert(distinct_keys(d, key)) by {
            assert forall|i: int, j: int| 0 <= i < d.len() && 0 <= j < d.len() && i != j implies key(d[i]) != key(d[j]) by {
                assert(d[i] == s[i] && d[j] == s[j]);
            }
        }
        lemma_filter_distinct_keys(d, p, key);
        let sub = d.filter(p);
        if p(s.last()) {
            lemma_filter_members(d, p);
            let f = s.filter(p);
            assert(f == sub.push(s.last()));
            assert forall|a: int, b: int| 0 <= a < f.len() && 0 <= b < f.len() && a != b implies key(f[a]) != key(f[b]) by {
                if a < sub.len() && b < sub.len() {
                    assert(f[a] == sub[a] && f[b] == sub[b]);
                } else {
                    let k = if a < sub.len() { a } else { b };
                    assert(d.contains(sub[k]));
                    let i = choose|i: int| 0 <= i < d.len() && d[i] == sub[k];
                    assert(s[i] == sub[k]);
                    assert(key(s[i]) != key(s[s.len() - 1]));
                }
            }
        }
    }
}

/// Keys stay distinct when an element with a new key is appended.
pub proof fn lemma_push_distinct_keys<A, K>(s: Seq<A>, x: A, key: spec_fn(A) -> K)
    requires
        distinct_keys(s, key),
        forall|i: int| 0 <= i < s.len() ==> key(s[i]) != key(x),
    ensures
        distinct_keys(s.push(x), key),
{
    let t = s.push(x);
    assert forall|a: int, b: int| 0 <= a < t.len() && 0 <= b < t.len() && a != b implies key(t[a]) != key(t[b]) by {
        if a < s.len() && b < s.len() {
            assert(t[a] == s[a] && t[b] == s[b]);
        } else if a < s.len() {
            assert(t[a] == s[a]);
        } else {
            assert(t[b] == s[b]);
        }
    }
}

/// The elements are in non-decreasing order of `rank`.
pub open spec fn sorted_by<A>(s: Seq<A>, rank: spec_fn(A) -> int) -> bool {
    forall|i: int, j: int| 0 <= i <= j < s.len() ==> rank(s[i]) <= rank(s[j])
}

/// Filtering keeps the order.
pub proof fn lemma_filter_sorted<A>(s: Seq<A>, p: spec_fn(A) -> bool, rank: spec_fn(A) -> int)
    requires
        sorted_by(s, rank),
    ensures
        sorted_by(s.filter(p), rank),
    decreases s.len(),
{
    reveal(Seq::filter);
    if s.len() > 0 {
        let d = s.drop_last();
        assert(sorted_by(d, rank)) by {
            assert forall|i: int, j: int| 0 <= i <= j < d.len() implies rank(d[i]) <= rank(d[j]) by {
                assert(d[i] == s[i] && d[j] == s[j]);
            }
        }
        lemma_filter_sorted(d, p, rank);
        let sub = d.filter(p);
        if p(s.last()) {
            lemma_filter_members(d, p);
            let f = s.filter(p);
            assert(f == sub.push(s.last()));
            assert forall|a: int, b: int| 0 <= a <= b < f.len() implies rank(f[a]) <= rank(f[b]) by {
                if b < sub.len() {
                    assert(f[a] == sub[a] && f[b] == sub[b]);
                } else if a < sub.len() {
                    assert(d.contains(sub[a]));
                    let i = choose|i: int| 0 <= i < d.len() && d[i] == sub[a];
                    assert(s[i] == sub[a]);
                    assert(rank(s[i]) <= rank(s[s.len() - 1]));
                }
            }
        }
    }
}

} // verus!
