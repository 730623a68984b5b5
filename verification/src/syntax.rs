//! The description of a type definition that a host hands to the generators:
//! the definition's name, the shape of its body and, for each named field, the
//! declared type and the markers attached to it, all as plain data.

use vstd::prelude::*;

verus! {

/// A literal as it stands in a marker.
#[derive(Clone, Debug, PartialEq, Eq)]
pub enum Literal {
    /// A string literal, by its value.
    Str(String),
    /// Any other literal (a number, a boolean, a character), by its text.
    Other(String),
}

/// One item between the parentheses of a marker such as `builder(each = "arg")`.
#[derive(Clone, Debug, PartialEq, Eq)]
pub enum Nested {
    /// `key = literal`
    Pair(String, Literal),
    /// Anything else: a bare word, a nested list, a lone literal.
    Other,
}

/// What follows the namespace of a marker.
#[derive(Clone, Debug, PartialEq, Eq)]
pub enum MarkerBody {
    /// Nothing: `#[builder]`.
    Bare,
    /// A value: `#[builder = "..."]`.
    Assigned(Literal),
    /// A parenthesised list: `#[builder(...)]`.
    List(Vec<Nested>),
    /// Tokens that the host could not read as any of the above; holds the
    /// host's complaint.
    Unreadable(String),
}

/// A marker attached to a field, unparsed: `#[namespace ...]`.
#[derive(Clone, Debug, PartialEq, Eq)]
pub struct Marker {
    /// The path before the body, `::` included where it has several segments.
    pub namespace: String,
    pub body: MarkerBody,
}

/// One argument between the angle brackets of a path segment.
#[derive(Clone, Debug, PartialEq, Eq)]
pub enum GenericArg {
    /// A type, by its text.
    Type(String),
    /// A lifetime, a constant, a binding or a constraint.
    Other,
}

/// One segment of a type path: `Vec<String>` is the single segment `Vec` with
/// one generic argument.
#[derive(Clone, Debug, PartialEq, Eq)]
pub struct Segment {
    pub ident: String,
    /// The arguments between angle brackets; empty where there are none.
    pub generics: Vec<GenericArg>,
}

/// A declared type.
#[derive(Clone, Debug, PartialEq, Eq)]
pub struct TypeExpr {
    /// The type exactly as written.
    pub text: String,
    /// The segments of the path if the type is a path, empty otherwise
    /// (a reference, a tuple, an array, ...).
    pub segments: Vec<Segment>,
}

/// A named field of a record.
#[derive(Clone, Debug, PartialEq, Eq)]
pub struct FieldDef {
    pub name: String,
    pub ty: TypeExpr,
    /// Every marker on the field, in source order.
    pub markers: Vec<Marker>,
}

/// The body of a type definition.
#[derive(Clone, Debug, PartialEq, Eq)]
pub enum Body {
    /// A record with named fields, in declaration order.
    Named(Vec<FieldDef>),
    /// A tuple-shaped record.
    Tuple,
    /// A record without fields.
    Unit,
    /// A sum type.
    Enum,
    /// An untagged union.
    Union,
}

/// A type definition as the host sees it.
#[derive(Clone, Debug, PartialEq, Eq)]
pub struct TypeDef {
    pub name: String,
    pub body: Body,
}

} // verus!
