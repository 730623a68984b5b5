//! From a type definition to the description of a record.

use vstd::prelude::*;
use crate::descriptor::{FieldDescriptor, TypeDescriptor, TypeSignature};
use crate::syntax::{Body, FieldDef, GenericArg, TypeDef, TypeExpr};
use crate::text::is_word;

verus! {

/// The definition is not a record with named fields.
#[derive(Clone, Copy, Debug, PartialEq, Eq)]
pub struct UnsupportedShape;

impl TypeExpr {
    /// The wrapper's name and the text of its argument, where the type is a
    /// path of one segment with exactly one generic argument that is a type.
    pub open spec fn wrapped(&self) -> Option<(String, String)> {
        if self.segments@.len() == 1 && self.segments@[0].generics@.len() == 1 {
            match self.segments@[0].generics@[0] {
                GenericArg::Type(inner) => Some((self.segments@[0].ident, inner)),
                GenericArg::Other => None,
            }
        } else {
            None
        }
    }

    /// The signature that stands for the type.
    pub open spec fn signature(&self) -> TypeSignature {
        match self.wrapped() {
            Some((wrapper, inner)) => TypeSignature::Wrapper(
                wrapper,
                Box::new(TypeSignature::Plain(inner)),
            ),
            None => TypeSignature::Plain(self.text),
        }
    }
}

impl TypeSignature {
    /// What `wrapper` wraps in this type, if the type is `wrapper<...>`.
    pub open spec fn inner_of(&self, wrapper: Seq<char>) -> Option<TypeSignature> {
        match *self {
            TypeSignature::Wrapper(name, inner) => if name@ == wrapper {
                Some(*inner)
            } else {
                None
            },
            TypeSignature::Plain(_) => None,
        }
    }
}

impl FieldDef {
    /// The description of the field.
    pub open spec fn described(&self) -> FieldDescriptor {
        FieldDescriptor {
            name: self.name,
            type_signature: self.ty.signature(),
            raw_directives: self.markers,
        }
    }
}

/// Reads the shape of a declared type.
pub fn signature_of(ty: &TypeExpr) -> (r: TypeSignature)
    ensures
        r == ty.signature(),
{
    if ty.segments.len() == 1 && ty.segments[0].generics.len() == 1 {
        match &ty.segments[0].generics[0] {
            GenericArg::Type(inner) => {
                return TypeSignature::Wrapper(
                    ty.segments[0].ident.clone(),
                    Box::new(TypeSignature::Plain(inner.clone())),
                );
            },
            GenericArg::Other => {},
        }
    }
    TypeSignature::Plain(ty.text.clone())
}

/// The type inside `wrapper<...>`: `Some` exactly when `ty` is the generic
/// type `wrapper` with its single type argument.
pub fn ty_inner_type<'a>(wrapper: &str, ty: &'a TypeSignature) -> (r: Option<&'a TypeSignature>)
    ensures
        match ty.inner_of(wrapper@) {
            Some(inner) => r == Some(&inner),
            None => r is None,
        },
{
    match ty {
        TypeSignature::Wrapper(name, inner) => {
            if is_word(name, wrapper) {
                Some(&**inner)
            } else {
                None
            }
        },
        TypeSignature::Plain(_) => None,
    }
}

/// Describes the record that `type_def` defines.
///
/// Only a record with named fields is accepted. Of each field the name, the
/// signature of the declared type and the markers, unparsed, are kept, in
/// declaration order.
pub fn extract(type_def: TypeDef) -> (r: Result<TypeDescriptor, UnsupportedShape>)
    ensures
        match type_def.body {
            Body::Named(fields) => r matches Ok(d) && d.name == type_def.name && d.fields@
                == fields@.map_values(|f: FieldDef| f.described()),
            _ => r is Err,
        },
{
    let TypeDef { name, body } = type_def;
    match body {
        Body::Named(fields) => {
            let ghost all = fields@;
            let mut described: Vec<FieldDescriptor> = Vec::new();
            for field in it: fields
                invariant
                    it.seq() == all,
                    described@ == all.take(it.index() as int).map_values(
                        |f: FieldDef| f.described(),
                    ),
            {
                let type_signature = signature_of(&field.ty);
                let FieldDef { name: field_name, ty: _, markers } = field;
                described.push(
                    FieldDescriptor { name: field_name, type_signature, raw_directives: markers },
                );
                assert(all.take(it.index() + 1) == all.take(it.index() as int).push(
                    all[it.index() as int],
                ));
            }
            assert(all.take(all.len() as int) == all);
            Ok(TypeDescriptor { name, fields: described })
        },
        _ => Err(UnsupportedShape),
    }
}

} // verus!
