//! The structured description of a record that the generators work on.

use vstd::prelude::*;
use crate::syntax::Marker;

verus! {

/// The declared type of a field, as far as generation looks into it.
///
/// Only a generic wrapper with a single type argument is recognised as such;
/// what stands inside the wrapper is not analysed further.
#[derive(Debug, PartialEq, Eq)]
pub enum TypeSignature {
    /// A type taken as a whole, by its text.
    Plain(String),
    /// `wrapper<inner>`.
    Wrapper(String, Box<TypeSignature>),
}

impl Clone for TypeSignature {
    fn clone(&self) -> (r: TypeSignature)
        ensures
            r == *self,
        decreases self,
    {
        match self {
            TypeSignature::Plain(name) => TypeSignature::Plain(name.clone()),
            TypeSignature::Wrapper(wrapper, inner) => TypeSignature::Wrapper(
                wrapper.clone(),
                Box::new((&**inner).clone()),
            ),
        }
    }
}

/// One field of a record.
#[derive(Clone, Debug, PartialEq, Eq)]
pub struct FieldDescriptor {
    pub name: String,
    pub type_signature: TypeSignature,
    /// The markers on the field as they were written, of every namespace.
    pub raw_directives: Vec<Marker>,
}

/// A record: its name and its fields in declaration order.
#[derive(Clone, Debug, PartialEq, Eq)]
pub struct TypeDescriptor {
    pub name: String,
    pub fields: Vec<FieldDescriptor>,
}

} // verus!
