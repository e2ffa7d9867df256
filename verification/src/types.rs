//! The abstract data model: type trees, literals, and the specification
//! functions that say what each rendering operation returns.

use vstd::prelude::*;

verus! {

/// An opaque scalar leaf of a type tree (a string, an integer, an enum, a
/// record, ...). Scalar types are resolved and rendered by the surrounding
/// generator, not by this library; the three renderings this library reads
/// from a scalar are carried here as plain values.
#[derive(Debug)]
pub struct ScalarShape {
    /// The scalar's surface syntax name (for example `String`).
    pub label: String,
    /// The scalar's canonical (mangled) name (for example `String`).
    pub canonical: String,
    /// The expression the scalar renders when no value is supplied.
    pub default_expr: String,
}

/// A node in the tree-shaped description of a value's shape.
#[derive(Debug)]
pub enum Type {
    /// A value that may be absent; wraps the inner type.
    Optional(Box<Type>),
    /// A list of values of the inner type.
    Sequence(Box<Type>),
    /// A dictionary from a key type to a value type.
    Dictionary(Box<Type>, Box<Type>),
    /// A point in time; fixed identity, no nested types.
    Timestamp,
    /// A span of time; fixed identity, no nested types.
    Duration,
    /// An opaque scalar leaf, rendered outside this library.
    Scalar(ScalarShape),
}

/// What a supplied default value defers to.
#[derive(Debug)]
pub enum DefaultValue {
    /// Defer to the inner type's own notion of a default.
    UseTypeDefault,
    /// An explicit literal of the inner type.
    Explicit(Box<Literal>),
}

/// An abstract description of a default/constant value attached to a typed
/// position. This library reads literals; it never constructs or mutates
/// them.
#[derive(Debug)]
pub enum Literal {
    /// Explicit "no value" (an optional left unset).
    Absent,
    /// A value is supplied.
    Present(DefaultValue),
    /// The empty list, carrying no payload.
    EmptySequence,
    /// The empty dictionary, carrying no payload.
    EmptyMap,
    /// A literal of an opaque scalar type, carried together with the
    /// rendering that the scalar's own realizer (outside this library)
    /// produces for it.
    Scalar(String),
}

/// The error for the one fatal path: asking a fixed-identity type
/// (timestamp or duration) to render a literal. It identifies the
/// offending type and the kind of literal that reached it.
#[derive(Debug)]
pub struct RealizeError {
    /// Surface syntax name of the type that cannot render a literal.
    pub type_label: String,
    /// The kind of literal that arrived (for example `Absent`).
    pub literal_kind: String,
}

/// What a literal-rendering request comes to: either a rendered string, or
/// the fatal invariant violation with the offending type's label and the
/// literal's kind.
pub enum Rendering {
    Rendered(Seq<char>),
    Fatal(Seq<char>, Seq<char>),
}

/// The surface syntax name of a type.
pub open spec fn label_spec(t: Type) -> Seq<char>
    decreases t,
{
    match t {
        Type::Optional(inner) => label_spec(*inner) + "?"@,
        Type::Sequence(inner) => label_spec(*inner) + "[]"@,
        Type::Dictionary(k, v) => "Dictionary<"@ + label_spec(*k) + ", "@ + label_spec(*v) + ">"@,
        Type::Timestamp => "DateTime"@,
        Type::Duration => "TimeSpan"@,
        Type::Scalar(sh) => sh.label@,
    }
}

/// The canonical (mangled) name of a type: a stable identifier derived from
/// the type's shape alone, used to deduplicate generated helper code.
pub open spec fn canon_spec(t: Type) -> Seq<char>
    decreases t,
{
    match t {
        Type::Optional(inner) => "Optional"@ + canon_spec(*inner),
        Type::Sequence(inner) => "Sequence"@ + canon_spec(*inner),
        Type::Dictionary(k, v) => "Dictionary"@ + canon_spec(*k) + canon_spec(*v),
        Type::Timestamp => "Timestamp"@,
        Type::Duration => "Duration"@,
        Type::Scalar(sh) => sh.canonical@,
    }
}

/// The rendering of "no value supplied" for a type. Compounds render the
/// null sentinel; the fixed-identity types render a value-type
/// zero-construction expression, because their target representation is a
/// non-nullable value type.
pub open spec fn default_spec(t: Type) -> Seq<char>
    decreases t,
{
    match t {
        Type::Optional(_) => "null"@,
        Type::Sequence(_) => "null"@,
        Type::Dictionary(_, _) => "null"@,
        Type::Timestamp => "default(DateTime)"@,
        Type::Duration => "default(TimeSpan)"@,
        Type::Scalar(sh) => sh.default_expr@,
    }
}

/// The kind of a literal, by name; used in the fatal error's message.
pub open spec fn lit_kind_spec(l: Literal) -> Seq<char> {
    match l {
        Literal::Absent => "Absent"@,
        Literal::Present(_) => "Present"@,
        Literal::EmptySequence => "EmptySequence"@,
        Literal::EmptyMap => "EmptyMap"@,
        Literal::Scalar(_) => "Scalar"@,
    }
}

/// The shared literal dispatch table of the three compound shapes, bound to
/// the compound's nested type `inner` (the element type of a sequence, the
/// value type of a map). An explicit "no value", or an empty-collection
/// sentinel arriving at a compound position, degenerates to the null
/// sentinel: optionality absorbs emptiness. A supplied value defers either
/// to the inner type's default or to the inner type's rendering of the
/// carried literal.
pub open spec fn dispatch_spec(l: Literal, inner: Type) -> Rendering
    decreases inner, 1int,
{
    match l {
        Literal::Absent => Rendering::Rendered("null"@),
        Literal::Present(DefaultValue::UseTypeDefault) => Rendering::Rendered(
            default_spec(inner),
        ),
        Literal::Present(DefaultValue::Explicit(l2)) => lit_spec(inner, *l2),
        Literal::EmptySequence => Rendering::Rendered("null"@),
        Literal::EmptyMap => Rendering::Rendered("null"@),
        Literal::Scalar(_) => lit_spec(inner, l),
    }
}

/// What rendering a literal at a type comes to. Compounds go through the
/// shared dispatch table; a map dispatches on its value type only. The
/// fixed-identity types render no literal at all: any literal reaching them
/// is a fatal upstream contract violation.
pub open spec fn lit_spec(t: Type, l: Literal) -> Rendering
    decreases t, 0int,
{
    match t {
        Type::Optional(inner) => dispatch_spec(l, *inner),
        Type::Sequence(inner) => dispatch_spec(l, *inner),
        Type::Dictionary(_, v) => dispatch_spec(l, *v),
        Type::Timestamp => Rendering::Fatal("DateTime"@, lit_kind_spec(l)),
        Type::Duration => Rendering::Fatal("TimeSpan"@, lit_kind_spec(l)),
        Type::Scalar(sh) => match l {
            Literal::Scalar(s) => Rendering::Rendered(s@),
            _ => Rendering::Fatal(sh.label@, lit_kind_spec(l)),
        },
    }
}

/// The literal type-checks against the type tree, as the surrounding
/// generator guarantees of its inputs. The fixed-identity types accept any
/// literal here (the call itself is the violation, and it is answered with
/// the fatal error); an opaque scalar leaf can only be reached by a scalar
/// literal, since this library does not render scalar literals itself.
pub open spec fn dispatch_fits(l: Literal, inner: Type) -> bool
    decreases inner, 1int,
{
    match l {
        Literal::Present(DefaultValue::Explicit(l2)) => lit_fits(inner, *l2),
        Literal::Scalar(_) => lit_fits(inner, l),
        _ => true,
    }
}

/// See [`dispatch_fits`]: the literal fits the type tree.
pub open spec fn lit_fits(t: Type, l: Literal) -> bool
    decreases t, 0int,
{
    match t {
        Type::Optional(inner) => dispatch_fits(l, *inner),
        Type::Sequence(inner) => dispatch_fits(l, *inner),
        Type::Dictionary(_, v) => dispatch_fits(l, *v),
        Type::Timestamp => true,
        Type::Duration => true,
        Type::Scalar(_) => l is Scalar,
    }
}

/// The result of a literal-rendering call reports exactly the outcome the
/// specification assigns: the rendered text on success, and the offending
/// type's label with the literal's kind on the fatal path.
pub open spec fn reflects(res: Result<String, RealizeError>, out: Rendering) -> bool {
    match res {
        Ok(s) => out == Rendering::Rendered(s@),
        Err(e) => out == Rendering::Fatal(e.type_label@, e.literal_kind@),
    }
}

} // verus!
