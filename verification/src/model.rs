//! Structural model of the input: a record type description as handed over
//! by a host compiler's reflection facility, reduced to the plain values the
//! engine reads.

use vstd::prelude::*;

verus! {

/// How the final segment of a path type applies its arguments.
#[derive(Debug, Clone, Copy, PartialEq, Eq, Structural)]
pub enum ArgStyle {
    /// No arguments at all, as in `String`.
    NoArgs,
    /// Angle-bracketed arguments, as in `Option<T>`.
    AngleArgs,
    /// Parenthesized arguments, as in `Fn(T) -> U`.
    ParenArgs,
}

/// The top-level shape of a type expression: the one structural fact the
/// classifier reads, beside the verbatim text.
#[derive(Debug)]
pub enum TypeShape {
    /// A path type; only its final segment matters to the engine.
    Path { last_ident: String, last_args: ArgStyle },
    /// Any non-path type (reference, tuple, slice, ...).
    Other,
}

/// A declared field type: its verbatim source text (carried opaquely into
/// the generated artifacts) plus its top-level shape.
#[derive(Debug)]
pub struct TypeExpr {
    pub text: String,
    pub shape: TypeShape,
}

/// A raw field as delivered by the host: the name may be absent
/// (positional fields are rejected during validation).
#[derive(Debug)]
pub struct FieldInput {
    pub name: Option<String>,
    pub vis: String,
    pub ty: TypeExpr,
}

/// A validated named field.
#[derive(Debug)]
pub struct Field {
    pub name: String,
    pub vis: String,
    pub ty: TypeExpr,
}

/// An annotation block attached to the type: a name and its arguments,
/// already flattened to plain identifiers by the host-side attribute reader.
#[derive(Debug)]
pub struct AttrInput {
    pub name: String,
    pub args: Vec<String>,
}

/// The data shape of the described type.
#[derive(Debug)]
pub enum TypeData {
    /// A record with named fields: the only supported shape.
    NamedRecord(Vec<FieldInput>),
    /// A record with positional (tuple) fields.
    PositionalRecord,
    /// A record with no field list at all (unit shape).
    UnitRecord,
    /// A multi-variant (sum) type.
    SumType,
    /// An untagged union.
    UntaggedUnion,
}

/// The structural description of one annotated type.
#[derive(Debug)]
pub struct TypeInput {
    pub name: String,
    pub vis: String,
    /// Generic and lifetime parameters with their bounds, verbatim.
    pub generics: String,
    /// The `where` constraint clause, verbatim, if any.
    pub where_clause: Option<String>,
    pub attrs: Vec<AttrInput>,
    pub data: TypeData,
}

/// Why a derivation was refused before synthesis began.
#[derive(Debug, Clone, Copy, PartialEq, Eq, Structural)]
pub enum ShapeError {
    /// The input is a sum type or an untagged union.
    NotAStruct,
    /// The input is a record without named fields (tuple or unit shape).
    UnnamedFields,
    /// The input has an empty field list.
    NoFields,
    /// A field of the record carries no name.
    AnonymousField,
}

/// The text of an optional verbatim clause, for stating that one was copied
/// unchanged.
pub open spec fn opt_text(o: Option<String>) -> Option<Seq<char>> {
    match o {
        Some(s) => Some(s@),
        None => None,
    }
}

/// Copies an optional verbatim clause.
pub fn clone_opt_text(o: &Option<String>) -> (r: Option<String>)
    ensures
        opt_text(r) == opt_text(*o),
{
    match o {
        Some(s) => Some(s.clone()),
        None => None,
    }
}

/// Copies a type shape, preserving the value exactly.
pub fn clone_type_shape(s: &TypeShape) -> (r: TypeShape)
    ensures
        r == *s,
{
    match s {
        TypeShape::Path { last_ident, last_args } => (TypeShape::Path {
            last_ident: last_ident.clone(),
            last_args: *last_args,
        }),
        TypeShape::Other => TypeShape::Other,
    }
}

/// Copies a type expression, preserving the value exactly.
pub fn clone_type_expr(t: &TypeExpr) -> (r: TypeExpr)
    ensures
        r == *t,
{
    TypeExpr { text: t.text.clone(), shape: clone_type_shape(&t.shape) }
}

} // verus!
