use vstd::prelude::*;

verus! {

/// `f` may be called on every argument.
pub open spec fn total<A, B, F: Fn(A) -> B>(f: F) -> bool {
    forall|a: A| #[trigger] f.requires((a,))
}

/// `f` gives at most one result for each argument.
pub open spec fn deterministic<A, B, F: Fn(A) -> B>(f: F) -> bool {
    forall|a: A, b1: B, b2: B| #[trigger] f.ensures((a,), b1) && #[trigger] f.ensures((a,), b2) ==> b1 == b2
}

/// The result of `f` on `a`.
pub open spec fn apply<A, B, F: Fn(A) -> B>(f: F, a: A) -> B {
    choose|b: B| f.ensures((a,), b)
}

/// A predicate on references that may be called on every value.
pub open spec fn total_pred<Y, F: Fn(&Y) -> bool>(f: F) -> bool {
    forall|y: Y| #[trigger] f.requires((&y,))
}

/// A predicate that answers the same way each time it is asked about a value.
pub open spec fn deterministic_pred<Y, F: Fn(&Y) -> bool>(f: F) -> bool {
    forall|y: Y, b: bool| #[trigger] f.ensures((&y,), b) ==> b == accepts(f, y)
}

/// The predicate holds of `y`.
pub open spec fn accepts<Y, F: Fn(&Y) -> bool>(f: F, y: Y) -> bool {
    f.ensures((&y,), true)
}

/// A two-argument step function that may be called on every pair.
pub open spec fn total2<B, Y, F: Fn(B, Y) -> B>(f: F) -> bool {
    forall|b: B, y: Y| #[trigger] f.requires((b, y))
}

/// A two-argument step function with at most one result for each pair.
pub open spec fn deterministic2<B, Y, F: Fn(B, Y) -> B>(f: F) -> bool {
    forall|b: B, y: Y, c1: B, c2: B|
        #[trigger] f.ensures((b, y), c1) && #[trigger] f.ensures((b, y), c2) ==> c1 == c2
}

/// The result of the step function on `(b, y)`.
pub open spec fn apply2<B, Y, F: Fn(B, Y) -> B>(f: F, b: B, y: Y) -> B {
    choose|c: B| f.ensures((b, y), c)
}

/// The items of `s` that the predicate accepts, in order.
pub open spec fn kept<Y, F: Fn(&Y) -> bool>(s: Seq<Y>, f: F) -> Seq<Y>
    decreases s.len(),
{
    if s.len() == 0 {
        s
    } else if accepts(f, s[0]) {
        seq![s[0]] + kept(s.drop_first(), f)
    } else {
        kept(s.drop_first(), f)
    }
}

/// The index of the first item of `s` that the predicate accepts, or `s.len()`.
pub open spec fn first_kept<Y, F: Fn(&Y) -> bool>(s: Seq<Y>, f: F) -> int
    decreases s.len(),
{
    if s.len() == 0 {
        0
    } else if accepts(f, s[0]) {
        0
    } else {
        1 + first_kept(s.drop_first(), f)
    }
}

/// The index of the first accepted item lies within the sequence, or just past it.
pub proof fn lemma_first_kept_bounds<Y, F: Fn(&Y) -> bool>(s: Seq<Y>, f: F)
    ensures
        0 <= first_kept(s, f) <= s.len(),
        first_kept(s, f) < s.len() ==> accepts(f, s[first_kept(s, f)]),
    decreases s.len(),
{
    if s.len() > 0 && !accepts(f, s[0]) {
        lemma_first_kept_bounds(s.drop_first(), f);
    }
}

/// Every item that survives filtering is accepted, and filtering never
/// lengthens a sequence; a sequence whose items are all accepted survives whole.
pub proof fn lemma_kept_items<Y, F: Fn(&Y) -> bool>(s: Seq<Y>, f: F)
    ensures
        kept(s, f).len() <= s.len(),
        forall|i: int| 0 <= i < kept(s, f).len() ==> accepts(f, #[trigger] kept(s, f)[i]),
        (forall|i: int| 0 <= i < s.len() ==> accepts(f, #[trigger] s[i])) ==> kept(s, f) == s,
    decreases s.len(),
{
    if s.len() > 0 {
        let t = s.drop_first();
        lemma_kept_items(t, f);
        if accepts(f, s[0]) {
            assert forall|i: int| 0 <= i < kept(s, f).len() implies accepts(f, #[trigger] kept(s, f)[i]) by {
                if i > 0 {
                    assert(kept(s, f)[i] == kept(t, f)[i - 1]);
                }
            }
            if forall|i: int| 0 <= i < s.len() ==> accepts(f, #[trigger] s[i]) {
                assert forall|i: int| 0 <= i < t.len() implies accepts(f, #[trigger] t[i]) by {
                    assert(t[i] == s[i + 1]);
                }
                assert(seq![s[0]] + t =~= s);
            }
        }
    }
}

/// The longest prefix of `s` whose items the predicate all accepts.
pub open spec fn prefix_while<Y, F: Fn(&Y) -> bool>(s: Seq<Y>, f: F) -> Seq<Y>
    decreases s.len(),
{
    if s.len() > 0 && accepts(f, s[0]) {
        seq![s[0]] + prefix_while(s.drop_first(), f)
    } else {
        Seq::empty()
    }
}

/// The accepted prefix is a prefix of `s` whose items are all accepted, and
/// the item just past it, if any, is rejected.
pub proof fn lemma_prefix_while_items<Y, F: Fn(&Y) -> bool>(s: Seq<Y>, f: F)
    ensures
        prefix_while(s, f).len() <= s.len(),
        forall|i: int| 0 <= i < prefix_while(s, f).len() ==> #[trigger] prefix_while(s, f)[i] == s[i],
        forall|i: int| 0 <= i < prefix_while(s, f).len() ==> accepts(f, #[trigger] prefix_while(s, f)[i]),
        prefix_while(s, f).len() < s.len() ==> !accepts(f, s[prefix_while(s, f).len() as int]),
    decreases s.len(),
{
    if s.len() > 0 && accepts(f, s[0]) {
        let t = s.drop_first();
        lemma_prefix_while_items(t, f);
        assert forall|i: int| 0 <= i < prefix_while(s, f).len() implies #[trigger] prefix_while(s, f)[i] == s[i]
            && accepts(f, prefix_while(s, f)[i]) by {
            if i > 0 {
                assert(prefix_while(s, f)[i] == prefix_while(t, f)[i - 1]);
            }
        }
    }
}

/// At most the first `n` items of `s`.
pub open spec fn first_n<Y>(s: Seq<Y>, n: nat) -> Seq<Y> {
    if n >= s.len() {
        s
    } else {
        s.take(n as int)
    }
}

/// `acc` combined with each item of `s` in turn by the step function.
pub open spec fn folded<B, Y, F: Fn(B, Y) -> B>(s: Seq<Y>, acc: B, f: F) -> B
    decreases s.len(),
{
    if s.len() == 0 {
        acc
    } else {
        folded(s.drop_first(), apply2(f, acc, s[0]), f)
    }
}

} // verus!
