//! General facts about `Seq::filter_map`.
//!
//! The export engine states every derived list as a `filter_map` over the
//! underlying rows; these lemmas relate such a list back to the rows it was
//! drawn from.

use vstd::prelude::*;

verus! {

/// Each element of `s.filter_map(f)` is the successful image of some element
/// of `s`.
pub broadcast proof fn lemma_filter_map_elem<A, B>(s: Seq<A>, f: spec_fn(A) -> Option<B>, k: int)
    requires
        0 <= k < s.filter_map(f).len(),
    ensures
        #![trigger s.filter_map(f)[k]]
        exists|j: int| 0 <= j < s.len() && #[trigger] f(s[j]) == Some(s.filter_map(f)[k]),
    decreases s.len(),
{
    let out = s.filter_map(f);
    let rest = s.drop_last();
    let rest_out = rest.filter_map(f);
    if s.len() == 0 {
        // `out` is empty, nothing to show
    } else {
        match f(s.last()) {
            Some(b) => {
                if k < rest_out.len() {
                    lemma_filter_map_elem(rest, f, k);
                    let j = choose|j: int|
                        0 <= j < rest.len() && #[trigger] f(rest[j]) == Some(rest_out[k]);
                    assert(rest[j] == s[j]);
                    assert(out[k] == rest_out[k]);
                    assert(f(s[j]) == Some(out[k]));
                } else {
                    assert(out[k] == b);
                    assert(f(s[s.len() - 1]) == Some(out[k]));
                }
            },
            None => {
                lemma_filter_map_elem(rest, f, k);
                let j = choose|j: int|
                    0 <= j < rest.len() && #[trigger] f(rest[j]) == Some(rest_out[k]);
                assert(rest[j] == s[j]);
                assert(f(s[j]) == Some(out[k]));
            },
        }
    }
}

/// An element of `s` that `f` maps to `Some` puts that value into
/// `s.filter_map(f)`.
pub broadcast proof fn lemma_filter_map_member<A, B>(s: Seq<A>, f: spec_fn(A) -> Option<B>, j: int)
    requires
        0 <= j < s.len(),
        f(s[j]) is Some,
    ensures
        #![trigger s.filter_map(f), s[j]]
        s.filter_map(f).contains(f(s[j]).unwrap()),
    decreases s.len(),
{
    let out = s.filter_map(f);
    let rest = s.drop_last();
    let rest_out = rest.filter_map(f);
    let v = f(s[j]).unwrap();
    if j == s.len() - 1 {
        assert(out[out.len() - 1] == v);
    } else {
        assert(rest[j] == s[j]);
        lemma_filter_map_member(rest, f, j);
        let i = choose|i: int| 0 <= i < rest_out.len() && rest_out[i] == v;
        assert(out[i] == v);
    }
}

/// If `f` returns `None` on every element of `s`, `s.filter_map(f)` is empty.
pub broadcast proof fn lemma_filter_map_empty<A, B>(s: Seq<A>, f: spec_fn(A) -> Option<B>)
    requires
        forall|j: int| 0 <= j < s.len() ==> (#[trigger] f(s[j])) is None,
    ensures
        #![trigger s.filter_map(f)]
        s.filter_map(f) == Seq::<B>::empty(),
    decreases s.len(),
{
    if s.len() > 0 {
        let rest = s.drop_last();
        assert(forall|j: int| 0 <= j < rest.len() ==> rest[j] == s[j]);
        assert(f(s[s.len() - 1]) is None);
        lemma_filter_map_empty(rest, f);
    }
}

} // verus!
