//! The three compound type realizers: Optional, Sequence, Map. Each wraps
//! the nested type(s) it was resolved for and delegates nested rendering
//! back through the recursive core.

use vstd::prelude::*;

use crate::realize::render_literal;
use crate::types::Literal;
use crate::types::RealizeError;
use crate::types::Type;
use crate::types::canon_spec;
use crate::types::dispatch_fits;
use crate::types::dispatch_spec;
use crate::types::label_spec;
use crate::types::reflects;

verus! {

/// Realizes `Optional(inner)`: nullable-suffix surface syntax, `Optional`
/// canonical prefix, and the shared literal dispatch bound to the inner
/// type.
#[derive(Debug)]
pub struct OptionalCodeType {
    pub inner: Type,
}

impl OptionalCodeType {
    pub fn new(inner: Type) -> (res: Self)
        ensures
            res.inner == inner,
    {
        Self { inner }
    }

    /// The wrapped inner type.
    pub fn inner(&self) -> (res: &Type)
        ensures
            *res == self.inner,
    {
        &self.inner
    }

    /// `T?` for inner surface name `T`.
    pub fn type_label(&self) -> (res: String)
        ensures
            res@ == label_spec(self.inner) + "?"@,
    {
        self.inner.type_label().concat("?")
    }

    /// `OptionalC` for inner canonical name `C`.
    pub fn canonical_name(&self) -> (res: String)
        ensures
            res@ == "Optional"@ + canon_spec(self.inner),
    {
        String::from_str("Optional").concat(self.inner.canonical_name().as_str())
    }

    /// Render a literal at an optional position: the shared dispatch,
    /// bound to the inner type.
    pub fn literal(&self, literal: &Literal) -> (res: Result<String, RealizeError>)
        requires
            dispatch_fits(*literal, self.inner),
        ensures
            reflects(res, dispatch_spec(*literal, self.inner)),
    {
        render_literal(literal, &self.inner)
    }

    /// An optional with no literal renders the null sentinel.
    pub fn default_value(&self) -> (res: String)
        ensures
            res@ == "null"@,
    {
        String::from_str("null")
    }
}

/// Realizes `Sequence(inner)`: array-suffix surface syntax, `Sequence`
/// canonical prefix, and the shared literal dispatch bound to the element
/// type.
#[derive(Debug)]
pub struct SequenceCodeType {
    pub inner: Type,
}

impl SequenceCodeType {
    pub fn new(inner: Type) -> (res: Self)
        ensures
            res.inner == inner,
    {
        Self { inner }
    }

    /// The wrapped element type.
    pub fn inner(&self) -> (res: &Type)
        ensures
            *res == self.inner,
    {
        &self.inner
    }

    /// `T[]` for element surface name `T`.
    pub fn type_label(&self) -> (res: String)
        ensures
            res@ == label_spec(self.inner) + "[]"@,
    {
        self.inner.type_label().concat("[]")
    }

    /// `SequenceC` for element canonical name `C`.
    pub fn canonical_name(&self) -> (res: String)
        ensures
            res@ == "Sequence"@ + canon_spec(self.inner),
    {
        String::from_str("Sequence").concat(self.inner.canonical_name().as_str())
    }

    /// Render a literal at a sequence position: the same shared dispatch
    /// as an optional, bound to the element type.
    pub fn literal(&self, literal: &Literal) -> (res: Result<String, RealizeError>)
        requires
            dispatch_fits(*literal, self.inner),
        ensures
            reflects(res, dispatch_spec(*literal, self.inner)),
    {
        render_literal(literal, &self.inner)
    }

    /// A sequence with no literal renders the null sentinel.
    pub fn default_value(&self) -> (res: String)
        ensures
            res@ == "null"@,
    {
        String::from_str("null")
    }
}

/// Realizes `Dictionary(key, value)`: both nested types contribute to the
/// surface and canonical names, but only the value type takes part in
/// literal rendering.
#[derive(Debug)]
pub struct MapCodeType {
    pub key: Type,
    pub value: Type,
}

impl MapCodeType {
    pub fn new(key: Type, value: Type) -> (res: Self)
        ensures
            res.key == key,
            res.value == value,
    {
        Self { key, value }
    }

    /// The wrapped key type.
    pub fn key(&self) -> (res: &Type)
        ensures
            *res == self.key,
    {
        &self.key
    }

    /// The wrapped value type.
    pub fn value(&self) -> (res: &Type)
        ensures
            *res == self.value,
    {
        &self.value
    }

    /// `Dictionary<K, V>` for key and value surface names `K` and `V`.
    pub fn type_label(&self) -> (res: String)
        ensures
            res@ == "Dictionary<"@ + label_spec(self.key) + ", "@ + label_spec(self.value)
                + ">"@,
    {
        let mut s = String::from_str("Dictionary<");
        s.append(self.key.type_label().as_str());
        s.append(", ");
        s.append(self.value.type_label().as_str());
        s.append(">");
        s
    }

    /// `DictionaryKV` for key and value canonical names `K` and `V`: both
    /// contribute, so that two map shapes that differ only in the key, or
    /// only in the value, keep distinct canonical names.
    pub fn canonical_name(&self) -> (res: String)
        ensures
            res@ == "Dictionary"@ + canon_spec(self.key) + canon_spec(self.value),
    {
        let mut s = String::from_str("Dictionary");
        s.append(self.key.canonical_name().as_str());
        s.append(self.value.canonical_name().as_str());
        s
    }

    /// Render a literal at a map position: the shared dispatch bound to
    /// the value type alone. The key type never takes part in literal
    /// rendering.
    pub fn literal(&self, literal: &Literal) -> (res: Result<String, RealizeError>)
        requires
            dispatch_fits(*literal, self.value),
        ensures
            reflects(res, dispatch_spec(*literal, self.value)),
    {
        render_literal(literal, &self.value)
    }

    /// A map with no literal renders the null sentinel.
    pub fn default_value(&self) -> (res: String)
        ensures
            res@ == "null"@,
    {
        String::from_str("null")
    }
}

} // verus!
