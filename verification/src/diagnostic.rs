//! What the generators report instead of code.

use vstd::prelude::*;
use vstd::string::StringExecFns;

verus! {

/// The three ways in which generation can fail. Each one aborts the whole
/// generation for the type: no code is produced.
#[derive(Clone, Copy, Debug, PartialEq, Eq)]
pub enum DiagnosticKind {
    /// The definition is not a record with named fields.
    UnsupportedShape,
    /// A marker in the reserved namespace does not follow the grammar.
    MalformedDirective,
    /// A well-formed directive stands on a field whose type is no sequence.
    TypeMismatch,
}

/// The place in the definition that a diagnostic points at.
#[derive(Clone, Copy, Debug, PartialEq, Eq)]
pub enum Location {
    /// The definition as a whole.
    Definition,
    /// The field with this index, in declaration order.
    Field(usize),
    /// Of the field with the first index, the marker with the second.
    Marker(usize, usize),
}

impl Location {
    /// Whether this is the place of the field with index `field`.
    pub open spec fn is_field(&self, field: int) -> bool {
        match *self {
            Location::Field(f) => f == field,
            _ => false,
        }
    }

    /// Whether this is the place of the marker with index `marker` on the
    /// field with index `field`.
    pub open spec fn is_marker(&self, field: int, marker: int) -> bool {
        match *self {
            Location::Marker(f, m) => f == field && m == marker,
            _ => false,
        }
    }
}

/// A failure of generation, for the host to report.
#[derive(Clone, Debug, PartialEq, Eq)]
pub struct Diagnostic {
    pub kind: DiagnosticKind,
    pub message: String,
    pub location: Location,
}

/// The message of an `UnsupportedShape` diagnostic.
pub open spec fn unsupported_shape_text() -> Seq<char> {
    "expected a struct with named fields"@
}

/// The message of a `TypeMismatch` diagnostic.
pub open spec fn type_mismatch_text() -> Seq<char> {
    "`each` needs a field of type `Vec<...>`"@
}

impl Diagnostic {
    /// The diagnostic for a definition that is not a record with named fields.
    pub fn unsupported_shape() -> (d: Diagnostic)
        ensures
            d.kind == DiagnosticKind::UnsupportedShape,
            d.location == Location::Definition,
            d.message@ == unsupported_shape_text(),
    {
        Diagnostic {
            kind: DiagnosticKind::UnsupportedShape,
            message: String::from_str("expected a struct with named fields"),
            location: Location::Definition,
        }
    }

    /// The diagnostic for a marker that does not follow the grammar.
    pub fn malformed_directive(message: String, field: usize, marker: usize) -> (d: Diagnostic)
        ensures
            d.kind == DiagnosticKind::MalformedDirective,
            d.location == Location::Marker(field, marker),
            d.message == message,
    {
        Diagnostic {
            kind: DiagnosticKind::MalformedDirective,
            message,
            location: Location::Marker(field, marker),
        }
    }

    /// The diagnostic for a directive on a field whose type is no sequence.
    pub fn type_mismatch(field: usize) -> (d: Diagnostic)
        ensures
            d.kind == DiagnosticKind::TypeMismatch,
            d.location == Location::Field(field),
            d.message@ == type_mismatch_text(),
    {
        Diagnostic {
            kind: DiagnosticKind::TypeMismatch,
            message: String::from_str("`each` needs a field of type `Vec<...>`"),
            location: Location::Field(field),
        }
    }
}

} // verus!
