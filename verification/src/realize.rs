//! The recursive rendering core: for each node of a type tree it plays the
//! resolver's part, picking the arm that realizes that node and re-entering
//! itself for the nested types.

use vstd::prelude::*;

use crate::types::DefaultValue;
use crate::types::Literal;
use crate::types::RealizeError;
use crate::types::Type;
use crate::types::default_spec;
use crate::types::dispatch_fits;
use crate::types::dispatch_spec;
use crate::types::label_spec;
use crate::types::canon_spec;
use crate::types::lit_fits;
use crate::types::lit_kind_spec;
use crate::types::lit_spec;
use crate::types::reflects;

verus! {

/// The kind of a literal, by name; used in the fatal error's message.
pub fn literal_kind_label(l: &Literal) -> (res: String)
    ensures
        res@ == lit_kind_spec(*l),
{
    match l {
        Literal::Absent => String::from_str("Absent"),
        Literal::Present(_) => String::from_str("Present"),
        Literal::EmptySequence => String::from_str("EmptySequence"),
        Literal::EmptyMap => String::from_str("EmptyMap"),
        Literal::Scalar(_) => String::from_str("Scalar"),
    }
}

impl Type {
    /// The surface syntax name of this type: `T?` for an optional, `T[]`
    /// for a sequence, `Dictionary<K, V>` for a map, `DateTime` and
    /// `TimeSpan` for the fixed-identity types, and a scalar's own label.
    pub fn type_label(&self) -> (res: String)
        ensures
            res@ == label_spec(*self),
        decreases *self,
    {
        match self {
            Type::Optional(inner) => inner.type_label().concat("?"),
            Type::Sequence(inner) => inner.type_label().concat("[]"),
            Type::Dictionary(k, v) => {
                let mut s = String::from_str("Dictionary<");
                s.append(k.type_label().as_str());
                s.append(", ");
                s.append(v.type_label().as_str());
                s.append(">");
                s
            },
            Type::Timestamp => String::from_str("DateTime"),
            Type::Duration => String::from_str("TimeSpan"),
            Type::Scalar(sh) => sh.label.clone(),
        }
    }

    /// The canonical (mangled) name of this type: byte-identical for
    /// structurally equal trees, and used outside this library as a
    /// deduplication key for emitting shared helper code once per shape.
    pub fn canonical_name(&self) -> (res: String)
        ensures
            res@ == canon_spec(*self),
        decreases *self,
    {
        match self {
            Type::Optional(inner) => String::from_str("Optional").concat(
                inner.canonical_name().as_str(),
            ),
            Type::Sequence(inner) => String::from_str("Sequence").concat(
                inner.canonical_name().as_str(),
            ),
            Type::Dictionary(k, v) => {
                let mut s = String::from_str("Dictionary");
                s.append(k.canonical_name().as_str());
                s.append(v.canonical_name().as_str());
                s
            },
            Type::Timestamp => String::from_str("Timestamp"),
            Type::Duration => String::from_str("Duration"),
            Type::Scalar(sh) => sh.canonical.clone(),
        }
    }

    /// The rendering of "no value supplied" for this type.
    pub fn default_value(&self) -> (res: String)
        ensures
            res@ == default_spec(*self),
    {
        match self {
            Type::Optional(_) => String::from_str("null"),
            Type::Sequence(_) => String::from_str("null"),
            Type::Dictionary(_, _) => String::from_str("null"),
            Type::Timestamp => String::from_str("default(DateTime)"),
            Type::Duration => String::from_str("default(TimeSpan)"),
            Type::Scalar(sh) => sh.default_expr.clone(),
        }
    }

    /// Render a literal at this type. Compound types go through the shared
    /// dispatch table bound to their nested type (a map to its value type);
    /// the fixed-identity types answer every literal with the fatal error,
    /// since no literal is ever legitimately attached to them.
    pub fn literal(&self, literal: &Literal) -> (res: Result<String, RealizeError>)
        requires
            lit_fits(*self, *literal),
        ensures
            reflects(res, lit_spec(*self, *literal)),
        decreases *self, 0int,
    {
        match self {
            Type::Optional(inner) => render_literal(literal, inner),
            Type::Sequence(inner) => render_literal(literal, inner),
            Type::Dictionary(_, v) => render_literal(literal, v),
            Type::Timestamp => Err(
                RealizeError {
                    type_label: String::from_str("DateTime"),
                    literal_kind: literal_kind_label(literal),
                },
            ),
            Type::Duration => Err(
                RealizeError {
                    type_label: String::from_str("TimeSpan"),
                    literal_kind: literal_kind_label(literal),
                },
            ),
            Type::Scalar(sh) => match literal {
                Literal::Scalar(s) => Ok(s.clone()),
                _ => {
                    proof {
                        assert(false);
                    }
                    Err(
                        RealizeError {
                            type_label: sh.label.clone(),
                            literal_kind: literal_kind_label(literal),
                        },
                    )
                },
            },
        }
    }
}

impl Type {
    /// Does the literal type-check against this type tree? Callers that
    /// receive literals from outside can test this before asking for a
    /// rendering, since [`Type::literal`] assumes it.
    pub fn literal_fits(&self, literal: &Literal) -> (res: bool)
        ensures
            res == lit_fits(*self, *literal),
        decreases *self, 0int,
    {
        match self {
            Type::Optional(inner) => literal_dispatch_fits(literal, inner),
            Type::Sequence(inner) => literal_dispatch_fits(literal, inner),
            Type::Dictionary(_, v) => literal_dispatch_fits(literal, v),
            Type::Timestamp => true,
            Type::Duration => true,
            Type::Scalar(_) => match literal {
                Literal::Scalar(_) => true,
                _ => false,
            },
        }
    }
}

/// The shared-dispatch half of [`Type::literal_fits`], bound to a
/// compound's nested type.
fn literal_dispatch_fits(literal: &Literal, inner: &Type) -> (res: bool)
    ensures
        res == dispatch_fits(*literal, *inner),
    decreases *inner, 1int,
{
    match literal {
        Literal::Present(DefaultValue::Explicit(l2)) => inner.literal_fits(&**l2),
        Literal::Scalar(_) => inner.literal_fits(literal),
        _ => true,
    }
}

/// The shared literal dispatch of the three compound shapes, bound to the
/// compound's nested type `inner`. An explicit "no value" and the
/// empty-collection sentinels render the null sentinel; a supplied value
/// defers to the nested type's default or to its rendering of the carried
/// literal; a scalar literal is handed on to the nested type.
pub fn render_literal(literal: &Literal, inner: &Type) -> (res: Result<String, RealizeError>)
    requires
        dispatch_fits(*literal, *inner),
    ensures
        reflects(res, dispatch_spec(*literal, *inner)),
    decreases *inner, 1int,
{
    match literal {
        Literal::Absent => Ok(String::from_str("null")),
        Literal::Present(DefaultValue::UseTypeDefault) => Ok(inner.default_value()),
        Literal::Present(DefaultValue::Explicit(l2)) => inner.literal(&**l2),
        Literal::EmptySequence => Ok(String::from_str("null")),
        Literal::EmptyMap => Ok(String::from_str("null")),
        Literal::Scalar(_) => inner.literal(literal),
    }
}

impl RealizeError {
    /// The generation-time abort message: it names the offending type and
    /// the kind of literal that reached it.
    pub fn message(&self) -> (res: String)
        ensures
            res@ == "no literal rendering for type "@ + self.type_label@ + " (literal kind "@
                + self.literal_kind@ + ")"@,
    {
        let mut s = String::from_str("no literal rendering for type ");
        s.append(self.type_label.as_str());
        s.append(" (literal kind ");
        s.append(self.literal_kind.as_str());
        s.append(")");
        s
    }
}

} // verus!
