//! The library's laws, stated over the specification functions that the
//! executable functions' contracts use.

use vstd::prelude::*;

use crate::canonical::lemma_canon_is_cat;
use crate::canonical::lemma_cat_injective;
use crate::canonical::lemma_concat_cancel_left;
use crate::canonical::lemma_concat_cancel_right;
use crate::canonical::lemma_toks_same_shape;
use crate::canonical::same_shape;
use crate::canonical::scalar_names_known;
use crate::canonical::toks;
use crate::canonical::CanonTok;
use crate::compounds::MapCodeType;
use crate::types::Literal;
use crate::types::Rendering;
use crate::types::Type;
use crate::types::canon_spec;
use crate::types::dispatch_spec;
use crate::types::lit_kind_spec;
use crate::types::lit_spec;

verus! {

/// Canonical names are collision-free: two trees that are structurally
/// distinct as abstract types, with scalar leaves drawn from the
/// registered scalar names, have distinct canonical names. The canonical
/// name can therefore serve, outside this library, as a key that
/// deduplicates generated helper code, one helper per distinct shape.
pub proof fn lemma_canonical_name_uniqueness(t1: Type, t2: Type)
    requires
        scalar_names_known(t1),
        scalar_names_known(t2),
        !same_shape(t1, t2),
    ensures
        canon_spec(t1) != canon_spec(t2),
{
    if canon_spec(t1) == canon_spec(t2) {
        lemma_canon_is_cat(t1);
        lemma_canon_is_cat(t2);
        lemma_cat_injective(toks(t1), toks(t2));
        assert(toks(t1) + Seq::<CanonTok>::empty() =~= toks(t2) + Seq::<CanonTok>::empty());
        lemma_toks_same_shape(t1, t2, Seq::empty(), Seq::empty());
        assert(false);
    }
}

/// Canonical names are stable: the canonical name is a function of the
/// tree alone, so rendering it twice — or rendering it for two equal
/// trees — yields identical strings. The executable renderer's contract
/// ties every call's result to this one specification function.
pub proof fn lemma_canonical_name_stable(t1: Type, t2: Type)
    requires
        t1 == t2,
    ensures
        canon_spec(t1) == canon_spec(t2),
{
}

/// Null-collapse at a compound position: an explicit "no value" and both
/// empty-collection sentinels all render the null sentinel, whatever the
/// nested type. In particular, `Absent`, `EmptySequence` and `EmptyMap`
/// on an optional-wrapped type all render `null`: optionality absorbs
/// emptiness.
pub proof fn lemma_null_collapse(l: Literal, inner: Type)
    requires
        l is Absent || l is EmptySequence || l is EmptyMap,
    ensures
        dispatch_spec(l, inner) == Rendering::Rendered("null"@),
{
}

/// Map asymmetry: the key type never takes part in literal rendering, so
/// two maps with the same value type render every literal identically,
/// whatever their keys — yet maps whose keys differ (as registered-scalar
/// trees) keep distinct canonical names.
pub proof fn lemma_map_asymmetry(m1: MapCodeType, m2: MapCodeType, l: Literal)
    requires
        m1.value == m2.value,
        scalar_names_known(m1.key),
        scalar_names_known(m2.key),
        !same_shape(m1.key, m2.key),
    ensures
        dispatch_spec(l, m1.value) == dispatch_spec(l, m2.value),
        "Dictionary"@ + canon_spec(m1.key) + canon_spec(m1.value) != "Dictionary"@ + canon_spec(
            m2.key,
        ) + canon_spec(m2.value),
{
    lemma_canonical_name_uniqueness(m1.key, m2.key);
    if "Dictionary"@ + canon_spec(m1.key) + canon_spec(m1.value) == "Dictionary"@ + canon_spec(
        m2.key,
    ) + canon_spec(m2.value) {
        lemma_concat_cancel_right(
            "Dictionary"@ + canon_spec(m1.key),
            "Dictionary"@ + canon_spec(m2.key),
            canon_spec(m1.value),
        );
        lemma_concat_cancel_left("Dictionary"@, canon_spec(m1.key), canon_spec(m2.key));
        assert(false);
    }
}

/// The fatal contract: a literal of any kind arriving at a bare
/// fixed-identity type — timestamp or duration, not wrapped in an
/// optional — comes to the fatal outcome, never to a rendering.
pub proof fn lemma_fixed_identity_literal_fatal(l: Literal)
    ensures
        lit_spec(Type::Timestamp, l) == Rendering::Fatal("DateTime"@, lit_kind_spec(l)),
        lit_spec(Type::Duration, l) == Rendering::Fatal("TimeSpan"@, lit_kind_spec(l)),
        !(lit_spec(Type::Timestamp, l) is Rendered),
        !(lit_spec(Type::Duration, l) is Rendered),
{
}

} // verus!
