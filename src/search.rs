use vstd::prelude::*;

verus! {

/// `i` is the position of the first element of `s` that satisfies `p`.
pub open spec fn is_first<A>(s: Seq<A>, p: spec_fn(A) -> bool, i: int) -> bool {
    0 <= i < s.len() && p(s[i]) && forall|j: int| 0 <= j < i ==> !p(#[trigger] s[j])
}

/// The position of the first element of `s` that satisfies `p`, or -1 when
/// there is none.
pub open spec fn first_index<A>(s: Seq<A>, p: spec_fn(A) -> bool) -> int {
    if exists|i: int| is_first(s, p, i) {
        choose|i: int| is_first(s, p, i)
    } else {
        -1
    }
}

pub open spec fn any<A>(s: Seq<A>, p: spec_fn(A) -> bool) -> bool {
    exists|i: int| 0 <= i < s.len() && p(#[trigger] s[i])
}

pub proof fn lemma_first_index_at<A>(s: Seq<A>, p: spec_fn(A) -> bool, i: int)
    requires
        is_first(s, p, i),
    ensures
        first_index(s, p) == i,
{
    let k = first_index(s, p);
    assert(is_first(s, p, k));
    if k < i {
        assert(!p(s[k]));
    } else if i < k {
        assert(!p(s[i]));
    }
}

pub proof fn lemma_first_index_none<A>(s: Seq<A>, p: spec_fn(A) -> bool)
    requires
        forall|j: int| 0 <= j < s.len() ==> !p(#[trigger] s[j]),
    ensures
        first_index(s, p) == -1,
        !any(s, p),
{
    if exists|i: int| is_first(s, p, i) {
        let k = choose|i: int| is_first(s, p, i);
        assert(p(s[k]));
    }
}

proof fn lemma_first_below<A>(s: Seq<A>, p: spec_fn(A) -> bool, i: int)
    requires
        0 <= i < s.len(),
        p(s[i]),
    ensures
        exists|k: int| 0 <= k <= i && is_first(s, p, k),
    decreases i,
{
    if exists|j: int| 0 <= j < i && p(#[trigger] s[j]) {
        let j = choose|j: int| 0 <= j < i && p(#[trigger] s[j]);
        lemma_first_below(s, p, j);
    } else {
        assert(is_first(s, p, i));
    }
}

/// `first_index` is -1 exactly when no element satisfies `p`, and otherwise
/// the first position of one that does.
pub proof fn lemma_first_index<A>(s: Seq<A>, p: spec_fn(A) -> bool)
    ensures
        first_index(s, p) == -1 <==> !any(s, p),
        first_index(s, p) != -1 ==> is_first(s, p, first_index(s, p)),
        -1 <= first_index(s, p) < s.len(),
{
    if any(s, p) {
        let i = choose|i: int| 0 <= i < s.len() && p(#[trigger] s[i]);
        lemma_first_below(s, p, i);
    } else {
        if exists|i: int| is_first(s, p, i) {
            let k = choose|i: int| is_first(s, p, i);
            assert(p(s[k]));
        }
    }
}

} // verus!
