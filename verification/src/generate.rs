//! The whole generation for one type definition.

use vstd::prelude::*;
use crate::classify::{classification, classify, Classification};
use crate::descriptor::FieldDescriptor;
use crate::diagnostic::{
    type_mismatch_text, unsupported_shape_text, Diagnostic, DiagnosticKind, Location,
};
use crate::directive::{parse, parsed, AttributeDirective};
use crate::emit::{emit, emitted, GeneratedCode};
use crate::introspect::extract;
use crate::scan::first_from;
use crate::syntax::{Body, FieldDef, TypeDef};

verus! {

/// How generation ends for a definition.
pub enum Outcome {
    /// The definition is no record with named fields.
    Unsupported,
    /// The directive of a field is malformed.
    Malformed { field: int, marker: int, message: Seq<char> },
    /// The directive of a field stands on a type that is no sequence.
    Mismatch { field: int },
    /// Code is generated for these fields under these classifications.
    Accepted { fields: Seq<FieldDescriptor>, classifications: Seq<Classification> },
}

/// Whether the markers of the field at a position are malformed.
pub open spec fn malformed_at(fields: Seq<FieldDescriptor>) -> spec_fn(int) -> bool {
    |i: int| parsed(fields[i].raw_directives@) is Err
}

/// The directive of each field; meant for fields none of which is malformed.
pub open spec fn directives_of(fields: Seq<FieldDescriptor>) -> Seq<Option<AttributeDirective>> {
    Seq::new(fields.len(), |i: int| parsed(fields[i].raw_directives@)->Ok_0)
}

/// Whether the field at a position has a directive that its type does not
/// allow.
pub open spec fn mismatch_at(fields: Seq<FieldDescriptor>) -> spec_fn(int) -> bool {
    |i: int| classification(fields[i].type_signature, directives_of(fields)[i]) is Err
}

/// The classification of each field; meant for fields that all have one.
pub open spec fn classifications_of(fields: Seq<FieldDescriptor>) -> Seq<Classification> {
    Seq::new(
        fields.len(),
        |i: int| classification(fields[i].type_signature, directives_of(fields)[i])->Ok_0,
    )
}

/// How generation ends for a record with these fields.
///
/// The directives of all fields are parsed before any field is classified, so
/// a malformed directive is reported before a type mismatch, whichever field
/// comes first. Among failures of one kind the first field in declaration
/// order is reported.
pub open spec fn assess(fields: Seq<FieldDescriptor>) -> Outcome {
    match first_from(malformed_at(fields), 0, fields.len() as int) {
        Some(field) => {
            let (marker, message) = parsed(fields[field].raw_directives@)->Err_0;
            Outcome::Malformed { field, marker, message }
        },
        None => match first_from(mismatch_at(fields), 0, fields.len() as int) {
            Some(field) => Outcome::Mismatch { field },
            None => Outcome::Accepted { fields, classifications: classifications_of(fields) },
        },
    }
}

/// How generation ends for a definition.
pub open spec fn outcome(input: TypeDef) -> Outcome {
    match input.body {
        Body::Named(fields) => assess(fields@.map_values(|f: FieldDef| f.described())),
        _ => Outcome::Unsupported,
    }
}

/// Generates the builder for a type definition, or says why there is none.
///
/// The definition is described, the directive of every field is parsed, every
/// field is classified, and the builder is emitted. The first failure ends
/// the generation, and then there is no code at all.
pub fn derive(input: TypeDef) -> (r: Result<GeneratedCode, Diagnostic>)
    ensures
        match outcome(input) {
            Outcome::Unsupported => r matches Err(d) && d.kind == DiagnosticKind::UnsupportedShape
                && d.location == Location::Definition && d.message@ == unsupported_shape_text(),
            Outcome::Malformed { field, marker, message } => r matches Err(d) && d.kind
                == DiagnosticKind::MalformedDirective && d.location.is_marker(field, marker)
                && d.message@ == message,
            Outcome::Mismatch { field } => r matches Err(d) && d.kind
                == DiagnosticKind::TypeMismatch && d.location.is_field(field) && d.message@
                == type_mismatch_text(),
            Outcome::Accepted { fields, classifications } => r matches Ok(code) && emitted(
                input.name,
                fields,
                classifications,
                code,
            ),
        },
{
    let descriptor = match extract(input) {
        Ok(descriptor) => descriptor,
        Err(_) => {
            return Err(Diagnostic::unsupported_shape());
        },
    };
    let ghost fields = descriptor.fields@;
    let n = descriptor.fields.len();

    let mut directives: Vec<Option<AttributeDirective>> = Vec::new();
    let mut i: usize = 0;
    while i < n
        invariant
            i <= n,
            n == fields.len(),
            fields == descriptor.fields@,
            outcome(input) == assess(fields),
            first_from(malformed_at(fields), 0, n as int) == first_from(
                malformed_at(fields),
                i as int,
                n as int,
            ),
            directives@ == directives_of(fields).take(i as int),
        decreases n - i,
    {
        match parse(&descriptor.fields[i].raw_directives) {
            Ok(directive) => {
                directives.push(directive);
                assert(directives_of(fields).take(i + 1) == directives_of(fields).take(
                    i as int,
                ).push(directives_of(fields)[i as int]));
            },
            Err(e) => {
                return Err(Diagnostic::malformed_directive(e.message, i, e.marker));
            },
        }
        i += 1;
    }
    assert(directives@ == directives_of(fields));

    let mut classifications: Vec<Classification> = Vec::new();
    let mut i: usize = 0;
    while i < n
        invariant
            i <= n,
            n == fields.len(),
            fields == descriptor.fields@,
            outcome(input) == assess(fields),
            first_from(malformed_at(fields), 0, n as int) is None,
            directives@ == directives_of(fields),
            first_from(mismatch_at(fields), 0, n as int) == first_from(
                mismatch_at(fields),
                i as int,
                n as int,
            ),
            classifications@ == classifications_of(fields).take(i as int),
        decreases n - i,
    {
        match classify(&descriptor.fields[i], &directives[i]) {
            Ok(classification) => {
                classifications.push(classification);
                assert(classifications_of(fields).take(i + 1) == classifications_of(fields).take(
                    i as int,
                ).push(classifications_of(fields)[i as int]));
            },
            Err(_) => {
                return Err(Diagnostic::type_mismatch(i));
            },
        }
        i += 1;
    }
    assert(classifications@ == classifications_of(fields));
    Ok(emit(&descriptor, &classifications))
}

} // verus!
