//! Why canonical names are collision-free.
//!
//! The canonical name of a type tree is the concatenation of fixed tokens,
//! one token per node, written in prefix order: `Optional`, `Sequence` and
//! `Dictionary` for the compound nodes, `Timestamp` and `Duration` for the
//! fixed-identity leaves, and a scalar's own canonical name for a scalar
//! leaf. Over trees whose scalar leaves are drawn from a registered set of
//! scalar names, no token is a prefix of another, so the concatenation can
//! be decoded unambiguously back into the token sequence, and the token
//! sequence (a prefix-order walk) determines the tree. Distinct trees
//! therefore keep distinct canonical names.

use vstd::prelude::*;

use crate::types::Type;
use crate::types::canon_spec;

verus! {

/// One token of a canonical name.
pub enum CanonTok {
    Optional,
    Sequence,
    Dictionary,
    Timestamp,
    Duration,
    StringLeaf,
    Int32Leaf,
}

/// The text of a token.
pub open spec fn tok_str(k: CanonTok) -> Seq<char> {
    match k {
        CanonTok::Optional => "Optional"@,
        CanonTok::Sequence => "Sequence"@,
        CanonTok::Dictionary => "Dictionary"@,
        CanonTok::Timestamp => "Timestamp"@,
        CanonTok::Duration => "Duration"@,
        CanonTok::StringLeaf => "String"@,
        CanonTok::Int32Leaf => "Int32"@,
    }
}

/// Every scalar leaf of the tree carries one of the registered scalar
/// canonical names. Two registered scalars are enough to exhibit every
/// distinct-tree case; an unregistered scalar name could collide with a
/// token (a scalar canonically named `Timestamp`, say) and forfeit
/// uniqueness.
pub open spec fn scalar_names_known(t: Type) -> bool
    decreases t,
{
    match t {
        Type::Optional(inner) => scalar_names_known(*inner),
        Type::Sequence(inner) => scalar_names_known(*inner),
        Type::Dictionary(k, v) => scalar_names_known(*k) && scalar_names_known(*v),
        Type::Timestamp => true,
        Type::Duration => true,
        Type::Scalar(sh) => sh.canonical@ == "String"@ || sh.canonical@ == "Int32"@,
    }
}

/// Structural equality of two trees as abstract types: node for node, with
/// scalar leaves compared by the scalar they name (the scalar's canonical
/// name), since a scalar leaf stands for whichever scalar type the
/// surrounding generator resolved there.
pub open spec fn same_shape(t1: Type, t2: Type) -> bool
    decreases t1,
{
    match (t1, t2) {
        (Type::Optional(a), Type::Optional(b)) => same_shape(*a, *b),
        (Type::Sequence(a), Type::Sequence(b)) => same_shape(*a, *b),
        (Type::Dictionary(k1, v1), Type::Dictionary(k2, v2)) => same_shape(*k1, *k2)
            && same_shape(*v1, *v2),
        (Type::Timestamp, Type::Timestamp) => true,
        (Type::Duration, Type::Duration) => true,
        (Type::Scalar(s1), Type::Scalar(s2)) => s1.canonical@ == s2.canonical@,
        _ => false,
    }
}

/// The token of a tree's root node.
pub open spec fn head_tok(t: Type) -> CanonTok {
    match t {
        Type::Optional(_) => CanonTok::Optional,
        Type::Sequence(_) => CanonTok::Sequence,
        Type::Dictionary(_, _) => CanonTok::Dictionary,
        Type::Timestamp => CanonTok::Timestamp,
        Type::Duration => CanonTok::Duration,
        Type::Scalar(sh) => if sh.canonical@ == "Int32"@ {
            CanonTok::Int32Leaf
        } else {
            CanonTok::StringLeaf
        },
    }
}

/// The tokens of a tree, in prefix order.
pub open spec fn toks(t: Type) -> Seq<CanonTok>
    decreases t,
{
    match t {
        Type::Optional(inner) => seq![CanonTok::Optional] + toks(*inner),
        Type::Sequence(inner) => seq![CanonTok::Sequence] + toks(*inner),
        Type::Dictionary(k, v) => seq![CanonTok::Dictionary] + toks(*k) + toks(*v),
        Type::Timestamp => seq![CanonTok::Timestamp],
        Type::Duration => seq![CanonTok::Duration],
        Type::Scalar(sh) => if sh.canonical@ == "Int32"@ {
            seq![CanonTok::Int32Leaf]
        } else {
            seq![CanonTok::StringLeaf]
        },
    }
}

/// The text of a token sequence: each token's text, concatenated.
pub open spec fn cat(ts: Seq<CanonTok>) -> Seq<char>
    decreases ts.len(),
{
    if ts.len() == 0 {
        Seq::empty()
    } else {
        tok_str(ts[0]) + cat(ts.drop_first())
    }
}

/// Concatenating token sequences concatenates their texts.
pub proof fn lemma_cat_append(a: Seq<CanonTok>, b: Seq<CanonTok>)
    ensures
        cat(a + b) == cat(a) + cat(b),
    decreases a.len(),
{
    if a.len() == 0 {
        assert(a + b =~= b);
        assert(cat(a) + cat(b) =~= cat(b));
    } else {
        assert((a + b).drop_first() =~= a.drop_first() + b);
        lemma_cat_append(a.drop_first(), b);
        assert((a + b)[0] == a[0]);
        assert(tok_str(a[0]) + (cat(a.drop_first()) + cat(b)) =~= (tok_str(a[0]) + cat(
            a.drop_first(),
        )) + cat(b));
    }
}

/// The text of a single token is that token's text.
pub proof fn lemma_cat_singleton(k: CanonTok)
    ensures
        cat(seq![k]) == tok_str(k),
{
    assert(seq![k].drop_first() =~= Seq::<CanonTok>::empty());
    assert(cat(seq![k]) == tok_str(k) + cat(Seq::<CanonTok>::empty()));
    assert(tok_str(k) + Seq::<char>::empty() =~= tok_str(k));
}

/// The canonical name of a tree with registered scalar leaves is exactly
/// the text of its token sequence.
pub proof fn lemma_canon_is_cat(t: Type)
    requires
        scalar_names_known(t),
    ensures
        canon_spec(t) == cat(toks(t)),
    decreases t,
{
    lemma_cat_singleton(CanonTok::Optional);
    lemma_cat_singleton(CanonTok::Sequence);
    lemma_cat_singleton(CanonTok::Dictionary);
    lemma_cat_singleton(CanonTok::Timestamp);
    lemma_cat_singleton(CanonTok::Duration);
    lemma_cat_singleton(CanonTok::StringLeaf);
    lemma_cat_singleton(CanonTok::Int32Leaf);
    match t {
        Type::Optional(inner) => {
            lemma_canon_is_cat(*inner);
            lemma_cat_append(seq![CanonTok::Optional], toks(*inner));
        },
        Type::Sequence(inner) => {
            lemma_canon_is_cat(*inner);
            lemma_cat_append(seq![CanonTok::Sequence], toks(*inner));
        },
        Type::Dictionary(k, v) => {
            lemma_canon_is_cat(*k);
            lemma_canon_is_cat(*v);
            lemma_cat_append(seq![CanonTok::Dictionary], toks(*k));
            lemma_cat_append(seq![CanonTok::Dictionary] + toks(*k), toks(*v));
        },
        Type::Timestamp => {
        },
        Type::Duration => {
        },
        Type::Scalar(_) => {
        },
    }
}

/// A sequence that differs from another at an index within both is no
/// prefix of it.
pub proof fn lemma_differs_not_prefix(a: Seq<char>, b: Seq<char>, i: int)
    requires
        0 <= i < a.len(),
        i < b.len(),
        a[i] != b[i],
    ensures
        !a.is_prefix_of(b),
{
    if a.is_prefix_of(b) {
        assert(a[i] == b.subrange(0, a.len() as int)[i]);
    }
}

/// No token's text is a prefix of another token's text: the tokens form a
/// prefix code, so a canonical name decodes into tokens in only one way.
pub proof fn lemma_tok_prefix_free(a: CanonTok, b: CanonTok)
    requires
        a != b,
    ensures
        !tok_str(a).is_prefix_of(tok_str(b)),
{
    reveal_strlit("Optional");
    reveal_strlit("Sequence");
    reveal_strlit("Dictionary");
    reveal_strlit("Timestamp");
    reveal_strlit("Duration");
    reveal_strlit("String");
    reveal_strlit("Int32");
    let x = tok_str(a);
    let y = tok_str(b);
    if x[0] != y[0] {
        lemma_differs_not_prefix(x, y, 0);
    } else {
        assert(x[1] != y[1]);
        lemma_differs_not_prefix(x, y, 1);
    }
}

/// If two concatenations are equal, the shorter left part is a prefix of
/// the longer one.
pub proof fn lemma_concat_common_prefix<A>(a: Seq<A>, x: Seq<A>, b: Seq<A>, y: Seq<A>)
    requires
        a + x == b + y,
        a.len() <= b.len(),
    ensures
        a.is_prefix_of(b),
{
    assert forall|i: int| 0 <= i < a.len() implies a[i] == b[i] by {
        assert((a + x)[i] == a[i]);
        assert((b + y)[i] == b[i]);
    }
    assert(a =~= b.subrange(0, a.len() as int));
}

/// Equal concatenations with the same left part have the same right part.
pub proof fn lemma_concat_cancel_left<A>(a: Seq<A>, x: Seq<A>, y: Seq<A>)
    requires
        a + x == a + y,
    ensures
        x == y,
{
    assert((a + x).len() == a.len() + x.len());
    assert((a + y).len() == a.len() + y.len());
    assert(x.len() == y.len());
    assert forall|i: int| 0 <= i < x.len() implies x[i] == y[i] by {
        assert((a + x)[a.len() + i] == x[i]);
        assert((a + y)[a.len() + i] == y[i]);
    }
    assert(x =~= y);
}

/// Equal concatenations with the same right part have the same left part.
pub proof fn lemma_concat_cancel_right<A>(x: Seq<A>, y: Seq<A>, s: Seq<A>)
    requires
        x + s == y + s,
    ensures
        x == y,
{
    assert((x + s).len() == x.len() + s.len());
    assert((y + s).len() == y.len() + s.len());
    assert(x.len() == y.len());
    assert forall|i: int| 0 <= i < x.len() implies x[i] == y[i] by {
        assert((x + s)[i] == x[i]);
        assert((y + s)[i] == y[i]);
    }
    assert(x =~= y);
}

/// Token texts are never empty.
pub proof fn lemma_tok_nonempty(k: CanonTok)
    ensures
        tok_str(k).len() >= 1,
{
    reveal_strlit("Optional");
    reveal_strlit("Sequence");
    reveal_strlit("Dictionary");
    reveal_strlit("Timestamp");
    reveal_strlit("Duration");
    reveal_strlit("String");
    reveal_strlit("Int32");
}

/// Because the tokens form a prefix code, a text decodes into at most one
/// token sequence.
pub proof fn lemma_cat_injective(ts1: Seq<CanonTok>, ts2: Seq<CanonTok>)
    requires
        cat(ts1) == cat(ts2),
    ensures
        ts1 == ts2,
    decreases ts1.len(),
{
    if ts1.len() == 0 && ts2.len() == 0 {
        assert(ts1 =~= ts2);
    } else if ts1.len() == 0 {
        lemma_tok_nonempty(ts2[0]);
        assert(cat(ts2).len() >= tok_str(ts2[0]).len());
        assert(false);
    } else if ts2.len() == 0 {
        lemma_tok_nonempty(ts1[0]);
        assert(cat(ts1).len() >= tok_str(ts1[0]).len());
        assert(false);
    } else {
        let h1 = ts1[0];
        let h2 = ts2[0];
        let r1 = ts1.drop_first();
        let r2 = ts2.drop_first();
        if h1 != h2 {
            if tok_str(h1).len() <= tok_str(h2).len() {
                lemma_concat_common_prefix(tok_str(h1), cat(r1), tok_str(h2), cat(r2));
                lemma_tok_prefix_free(h1, h2);
            } else {
                lemma_concat_common_prefix(tok_str(h2), cat(r2), tok_str(h1), cat(r1));
                lemma_tok_prefix_free(h2, h1);
            }
            assert(false);
        }
        lemma_concat_cancel_left(tok_str(h1), cat(r1), cat(r2));
        lemma_cat_injective(r1, r2);
        assert forall|i: int| 0 <= i < ts1.len() implies ts1[i] == ts2[i] by {
            if i > 0 {
                assert(ts1[i] == r1[i - 1]);
                assert(ts2[i] == r2[i - 1]);
            }
        }
        assert(ts1 =~= ts2);
    }
}

/// A tree has at least one token.
pub proof fn lemma_toks_nonempty(t: Type)
    ensures
        toks(t).len() >= 1,
        toks(t)[0] == head_tok(t),
{
    match t {
        Type::Optional(_) => {
        },
        Type::Sequence(_) => {
        },
        Type::Dictionary(_, _) => {
        },
        Type::Timestamp => {
        },
        Type::Duration => {
        },
        Type::Scalar(_) => {
        },
    }
}

/// The token sequence, read in prefix order, determines the tree: if the
/// token walks of two trees open the same token text stream, the trees have
/// the same shape and the streams continue identically.
pub proof fn lemma_toks_same_shape(t1: Type, t2: Type, r1: Seq<CanonTok>, r2: Seq<CanonTok>)
    requires
        scalar_names_known(t1),
        scalar_names_known(t2),
        toks(t1) + r1 == toks(t2) + r2,
    ensures
        same_shape(t1, t2),
        r1 == r2,
    decreases t1,
{
    lemma_toks_nonempty(t1);
    lemma_toks_nonempty(t2);
    assert((toks(t1) + r1)[0] == head_tok(t1));
    assert((toks(t2) + r2)[0] == head_tok(t2));
    assert(head_tok(t1) == head_tok(t2));
    match (t1, t2) {
        (Type::Optional(a), Type::Optional(b)) => {
            assert(toks(t1) + r1 =~= seq![CanonTok::Optional] + (toks(*a) + r1));
            assert(toks(t2) + r2 =~= seq![CanonTok::Optional] + (toks(*b) + r2));
            lemma_concat_cancel_left(seq![CanonTok::Optional], toks(*a) + r1, toks(*b) + r2);
            lemma_toks_same_shape(*a, *b, r1, r2);
        },
        (Type::Sequence(a), Type::Sequence(b)) => {
            assert(toks(t1) + r1 =~= seq![CanonTok::Sequence] + (toks(*a) + r1));
            assert(toks(t2) + r2 =~= seq![CanonTok::Sequence] + (toks(*b) + r2));
            lemma_concat_cancel_left(seq![CanonTok::Sequence], toks(*a) + r1, toks(*b) + r2);
            lemma_toks_same_shape(*a, *b, r1, r2);
        },
        (Type::Dictionary(k1, v1), Type::Dictionary(k2, v2)) => {
            assert(toks(t1) + r1 =~= seq![CanonTok::Dictionary] + (toks(*k1) + (toks(*v1)
                + r1)));
            assert(toks(t2) + r2 =~= seq![CanonTok::Dictionary] + (toks(*k2) + (toks(*v2)
                + r2)));
            lemma_concat_cancel_left(
                seq![CanonTok::Dictionary],
                toks(*k1) + (toks(*v1) + r1),
                toks(*k2) + (toks(*v2) + r2),
            );
            lemma_toks_same_shape(*k1, *k2, toks(*v1) + r1, toks(*v2) + r2);
            lemma_toks_same_shape(*v1, *v2, r1, r2);
        },
        (Type::Timestamp, Type::Timestamp) => {
            lemma_concat_cancel_left(seq![CanonTok::Timestamp], r1, r2);
        },
        (Type::Duration, Type::Duration) => {
            lemma_concat_cancel_left(seq![CanonTok::Duration], r1, r2);
        },
        (Type::Scalar(s1), Type::Scalar(s2)) => {
            if s1.canonical@ == "Int32"@ {
                assert(s2.canonical@ == "Int32"@);
                lemma_concat_cancel_left(seq![CanonTok::Int32Leaf], r1, r2);
            } else {
                assert(s1.canonical@ == "String"@);
                assert(s2.canonical@ == "String"@);
                lemma_concat_cancel_left(seq![CanonTok::StringLeaf], r1, r2);
            }
        },
        _ => {
            assert(false);
        },
    }
}

} // verus!
