//! The three kinds of field that a builder knows.

use vstd::prelude::*;
use crate::descriptor::{FieldDescriptor, TypeSignature};
use crate::directive::AttributeDirective;
use crate::introspect::ty_inner_type;

verus! {

/// How the builder treats a field.
#[derive(Clone, Debug, PartialEq, Eq)]
pub enum Classification {
    /// The field has to be set before construction; holds the field's type.
    Required(TypeSignature),
    /// The field may stay unset; holds the type inside the optional wrapper.
    Optional(TypeSignature),
    /// The field collects elements; holds the element type and the name of
    /// the method that appends one element.
    Repeated(TypeSignature, String),
}

/// A directive stands on a field whose type is no sequence wrapper.
#[derive(Clone, Copy, Debug, PartialEq, Eq)]
pub struct TypeMismatch;

/// The name of the wrapper that makes a field optional.
pub open spec fn optional_wrapper() -> Seq<char> {
    "Option"@
}

/// The name of the wrapper that a field with a directive must have.
pub open spec fn sequence_wrapper() -> Seq<char> {
    "Vec"@
}

/// The classification of a field with the given type and directive.
///
/// An optional wrapper decides first, whatever the directive. Otherwise a
/// directive asks for a sequence wrapper. A field with neither is required.
pub open spec fn classification(
    signature: TypeSignature,
    directive: Option<AttributeDirective>,
) -> Result<Classification, TypeMismatch> {
    match signature.inner_of(optional_wrapper()) {
        Some(inner) => Ok(Classification::Optional(inner)),
        None => match directive {
            Some(d) => match signature.inner_of(sequence_wrapper()) {
                Some(element) => Ok(Classification::Repeated(element, d.accessor_name)),
                None => Err(TypeMismatch),
            },
            None => Ok(Classification::Required(signature)),
        },
    }
}

/// Classifies a field from the shape of its type and its parsed directive.
pub fn classify(field: &FieldDescriptor, directive: &Option<AttributeDirective>) -> (r: Result<
    Classification,
    TypeMismatch,
>)
    ensures
        r == classification(field.type_signature, *directive),
{
    if let Some(inner) = ty_inner_type("Option", &field.type_signature) {
        return Ok(Classification::Optional(inner.clone()));
    }
    match directive {
        Some(d) => match ty_inner_type("Vec", &field.type_signature) {
            Some(element) => Ok(Classification::Repeated(element.clone(), d.accessor_name.clone())),
            None => Err(TypeMismatch),
        },
        None => Ok(Classification::Required(field.type_signature.clone())),
    }
}

} // verus!
