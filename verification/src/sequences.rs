//! Facts about sequences that are filtered and mapped.
use vstd::prelude::*;

verus! {

/// Filtering and mapping an image of `s` is filtering and mapping `s` itself, where the predicates
/// and the functions agree on its elements.
pub proof fn lemma_filter_image<A, B, C>(
    s: Seq<A>,
    f: spec_fn(A) -> B,
    p: spec_fn(B) -> bool,
    q: spec_fn(A) -> bool,
    g: spec_fn(B) -> C,
    h: spec_fn(A) -> C,
)
    requires
        forall|k: int| 0 <= k < s.len() ==> p(f(#[trigger] s[k])) == q(s[k]),
        forall|k: int| 0 <= k < s.len() && q(#[trigger] s[k]) ==> g(f(s[k])) == h(s[k]),
    ensures
        s.map_values(f).filter(p).map_values(g) == s.filter(q).map_values(h),
        s.map_values(f).filter(p).len() == s.filter(q).len(),
    decreases s.len(),
{
    reveal(Seq::filter);
    if s.len() == 0 {
        assert(s.map_values(f).filter(p).map_values(g) =~= s.filter(q).map_values(h));
    } else {
        let rest = s.drop_last();
        let last = s.last();
        assert(s[s.len() - 1] == last);
        assert forall|k: int| 0 <= k < rest.len() implies p(f(#[trigger] rest[k])) == q(rest[k]) by {
            assert(rest[k] == s[k]);
        }
        assert forall|k: int| 0 <= k < rest.len() && q(#[trigger] rest[k]) implies g(f(rest[k]))
            == h(rest[k]) by {
            assert(rest[k] == s[k]);
        }
        lemma_filter_image(rest, f, p, q, g, h);
        assert(s.map_values(f).drop_last() =~= rest.map_values(f));
        assert(s.map_values(f).last() == f(last));
        let fewer = rest.map_values(f).filter(p);
        let fewer_own = rest.filter(q);
        if q(last) {
            assert(fewer.push(f(last)).map_values(g) =~= fewer.map_values(g).push(g(f(last))));
            assert(fewer_own.push(last).map_values(h) =~= fewer_own.map_values(h).push(h(last)));
        }
    }
}

/// The indices of a sequence of that length.
pub open spec fn indices(len: nat) -> Seq<int> {
    Seq::new(len, |i: int| i)
}

} // verus!
