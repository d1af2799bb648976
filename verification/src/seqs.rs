//! Sequences searched from the front, defined from the back.

use vstd::prelude::*;

verus! {

/// The first element of `s` that satisfies `p`, if any.
pub open spec fn first_where<A>(s: Seq<A>, p: spec_fn(A) -> bool) -> Option<A>
    decreases s.len(),
{
    if s.len() == 0 {
        None
    } else {
        match first_where(s.drop_last(), p) {
            Some(a) => Some(a),
            None => if p(s.last()) {
                Some(s.last())
            } else {
                None
            },
        }
    }
}

/// A match in a prefix is the first match of the whole sequence.
pub proof fn lemma_first_where_prefix<A>(s: Seq<A>, p: spec_fn(A) -> bool, n: int)
    requires
        0 <= n <= s.len(),
        first_where(s.take(n), p) is Some,
    ensures
        first_where(s, p) == first_where(s.take(n), p),
    decreases s.len(),
{
    if n == s.len() {
        assert(s.take(n) =~= s);
    } else {
        assert(s.drop_last().take(n) =~= s.take(n));
        lemma_first_where_prefix(s.drop_last(), p, n);
    }
}

/// Without a match in `s`, the first match of `s` followed by `a` is `a`, if it matches.
pub proof fn lemma_first_where_push<A>(s: Seq<A>, p: spec_fn(A) -> bool, a: A)
    ensures
        first_where(s.push(a), p) == (match first_where(s, p) {
            Some(b) => Some(b),
            None => if p(a) {
                Some(a)
            } else {
                None
            },
        }),
{
    assert(s.push(a).drop_last() =~= s);
}

/// A first match satisfies the predicate and occurs in the sequence.
pub proof fn lemma_first_where_found<A>(s: Seq<A>, p: spec_fn(A) -> bool)
    ensures
        first_where(s, p) matches Some(a) ==> p(a) && s.contains(a),
        first_where(s, p) is None ==> forall|i: int| 0 <= i < s.len() ==> !p(#[trigger] s[i]),
    decreases s.len(),
{
    if s.len() > 0 {
        lemma_first_where_found(s.drop_last(), p);
        if first_where(s.drop_last(), p) is Some {
            let a = first_where(s.drop_last(), p).unwrap();
            let i = choose|i: int| 0 <= i < s.drop_last().len() && s.drop_last()[i] == a;
            assert(s[i] == a);
        } else {
            assert(s[s.len() - 1] == s.last());
            if !p(s.last()) {
                assert forall|i: int| 0 <= i < s.len() implies !p(#[trigger] s[i]) by {
                    if i < s.len() - 1 {
                        assert(s[i] == s.drop_last()[i]);
                    }
                }
            }
        }
    }
}

} // verus!
