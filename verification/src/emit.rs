//! The builder that is generated for a record, as a model of its code: the
//! storage, the methods, and with them what construction and the factory do.

use vstd::prelude::*;
use vstd::string::StringExecFns;
use crate::classify::Classification;
use crate::descriptor::{FieldDescriptor, TypeDescriptor, TypeSignature};

verus! {

/// How a slot is stored, what the factory puts in it and how construction
/// reads it.
#[derive(Clone, Copy, Debug, PartialEq, Eq)]
pub enum SlotKind {
    /// Absent at first; holds a value once set. Construction fails while the
    /// slot is absent.
    Required,
    /// Absent or present, without a second wrapper around the declared
    /// optional type. Construction hands on either.
    Optional,
    /// An ordered sequence, empty at first. Construction hands it on.
    Repeated,
}

/// The storage for one field of the record.
#[derive(Clone, Debug, PartialEq, Eq)]
pub struct Slot {
    /// The field's name.
    pub name: String,
    pub kind: SlotKind,
    /// The type of the value, or of one element for a repeated slot.
    pub ty: TypeSignature,
}

/// What a method does to its slot. Every method hands back the builder, so
/// calls can be chained.
#[derive(Clone, Copy, Debug, PartialEq, Eq)]
pub enum Action {
    /// Takes one value and makes the slot present with it.
    Assign,
    /// Takes a whole sequence and puts it in place of the slot's.
    Replace,
    /// Takes one element and pushes it onto the slot's sequence.
    Append,
}

/// A method of the builder.
#[derive(Clone, Debug, PartialEq, Eq)]
pub struct Method {
    pub name: String,
    /// The index of the slot that the method writes.
    pub slot: usize,
    pub action: Action,
    /// The type of the value or of one element.
    pub param: TypeSignature,
}

/// The code generated for one record: the builder type with one slot per
/// field in declaration order and its methods, and the factory on the record
/// type that hands out a builder with every slot at its default.
#[derive(Clone, Debug, PartialEq, Eq)]
pub struct GeneratedCode {
    /// The name of the record type.
    pub target: String,
    /// The name of the builder type.
    pub builder: String,
    pub slots: Vec<Slot>,
    pub methods: Vec<Method>,
}

/// What is appended to a record's name to name its builder.
pub open spec fn builder_suffix() -> Seq<char> {
    "Builder"@
}

impl Classification {
    /// The slot for a field of this classification.
    pub open spec fn slot(&self, name: String) -> Slot {
        match *self {
            Classification::Required(ty) => Slot { name, kind: SlotKind::Required, ty },
            Classification::Optional(ty) => Slot { name, kind: SlotKind::Optional, ty },
            Classification::Repeated(ty, _) => Slot { name, kind: SlotKind::Repeated, ty },
        }
    }

    /// The method named after the field: it sets the value, or replaces the
    /// whole sequence of a repeated field.
    pub open spec fn setter(&self, name: String, slot: usize) -> Method {
        match *self {
            Classification::Required(ty) => Method { name, slot, action: Action::Assign, param: ty },
            Classification::Optional(ty) => Method { name, slot, action: Action::Assign, param: ty },
            Classification::Repeated(ty, _) => Method {
                name,
                slot,
                action: Action::Replace,
                param: ty,
            },
        }
    }

    /// For a repeated field, the method that appends one element, and whether
    /// it takes the field's own name.
    pub open spec fn appender(&self, name: String, slot: usize) -> Option<(bool, Method)> {
        match *self {
            Classification::Repeated(ty, accessor) => Some(
                (
                    accessor@ == name@,
                    Method { name: accessor, slot, action: Action::Append, param: ty },
                ),
            ),
            _ => None,
        }
    }

    /// The methods of a field, in the order in which they are emitted.
    ///
    /// A repeated field whose accessor takes the field's own name gets the
    /// appending method only: the setter of that name is left out.
    pub open spec fn methods(&self, name: String, slot: usize) -> Seq<Method> {
        match self.appender(name, slot) {
            None => seq![self.setter(name, slot)],
            Some((true, append)) => seq![append],
            Some((false, append)) => seq![self.setter(name, slot), append],
        }
    }
}

/// The methods of the first `n` fields, field after field.
pub open spec fn methods_upto(
    fields: Seq<FieldDescriptor>,
    classifications: Seq<Classification>,
    n: int,
) -> Seq<Method>
    decreases n,
{
    if n <= 0 {
        Seq::empty()
    } else {
        methods_upto(fields, classifications, n - 1) + classifications[n - 1].methods(
            fields[n - 1].name,
            (n - 1) as usize,
        )
    }
}

/// Whether `code` is the builder for the record `name` with these fields and
/// classifications.
pub open spec fn emitted(
    name: String,
    fields: Seq<FieldDescriptor>,
    classifications: Seq<Classification>,
    code: GeneratedCode,
) -> bool {
    &&& code.target == name
    &&& code.builder@ == name@ + builder_suffix()
    &&& code.slots@ == Seq::new(fields.len(), |i: int| classifications[i].slot(fields[i].name))
    &&& code.methods@ == methods_upto(fields, classifications, fields.len() as int)
}

/// The slot of a field.
fn slot_of(name: &String, classification: &Classification) -> (r: Slot)
    ensures
        r == classification.slot(*name),
{
    match classification {
        Classification::Required(ty) => Slot {
            name: name.clone(),
            kind: SlotKind::Required,
            ty: ty.clone(),
        },
        Classification::Optional(ty) => Slot {
            name: name.clone(),
            kind: SlotKind::Optional,
            ty: ty.clone(),
        },
        Classification::Repeated(ty, _) => Slot {
            name: name.clone(),
            kind: SlotKind::Repeated,
            ty: ty.clone(),
        },
    }
}

/// The method that is named after the field.
fn set_method(name: &String, slot: usize, classification: &Classification) -> (r: Method)
    ensures
        r == classification.setter(*name, slot),
{
    match classification {
        Classification::Required(ty) => Method {
            name: name.clone(),
            slot,
            action: Action::Assign,
            param: ty.clone(),
        },
        Classification::Optional(ty) => Method {
            name: name.clone(),
            slot,
            action: Action::Assign,
            param: ty.clone(),
        },
        Classification::Repeated(ty, _) => Method {
            name: name.clone(),
            slot,
            action: Action::Replace,
            param: ty.clone(),
        },
    }
}

/// The appending method of a repeated field, with the answer to whether it
/// takes the field's own name; `None` for a field that is not repeated.
pub fn extend_method(name: &String, slot: usize, classification: &Classification) -> (r: Option<
    (bool, Method),
>)
    ensures
        r == classification.appender(*name, slot),
{
    match classification {
        Classification::Repeated(ty, accessor) => {
            let method = Method {
                name: accessor.clone(),
                slot,
                action: Action::Append,
                param: ty.clone(),
            };
            Some((*accessor == *name, method))
        },
        _ => None,
    }
}

/// Generates the builder for a record whose fields have been classified.
///
/// The builder has one slot per field, in declaration order. A required or
/// optional field gets one method, named after the field, that sets it. A
/// repeated field gets a method under the accessor's name that appends one
/// element and, unless the accessor has the field's own name, a method under
/// the field's name that replaces the whole sequence.
pub fn emit(descriptor: &TypeDescriptor, classifications: &Vec<Classification>) -> (code:
    GeneratedCode)
    requires
        classifications@.len() == descriptor.fields@.len(),
    ensures
        emitted(descriptor.name, descriptor.fields@, classifications@, code),
{
    let n = descriptor.fields.len();
    let mut slots: Vec<Slot> = Vec::new();
    let mut methods: Vec<Method> = Vec::new();
    let mut i: usize = 0;
    while i < n
        invariant
            i <= n,
            n == descriptor.fields@.len(),
            n == classifications@.len(),
            slots@ == Seq::new(
                i as nat,
                |k: int| classifications@[k].slot(descriptor.fields@[k].name),
            ),
            methods@ == methods_upto(descriptor.fields@, classifications@, i as int),
        decreases n - i,
    {
        let name = &descriptor.fields[i].name;
        let classification = &classifications[i];
        slots.push(slot_of(name, classification));
        match extend_method(name, i, classification) {
            None => {
                methods.push(set_method(name, i, classification));
            },
            Some((true, append)) => {
                methods.push(append);
            },
            Some((false, append)) => {
                methods.push(set_method(name, i, classification));
                methods.push(append);
            },
        }
        i += 1;
    }
    let builder = descriptor.name.clone().concat("Builder");
    GeneratedCode { target: descriptor.name.clone(), builder, slots, methods }
}

} // verus!
