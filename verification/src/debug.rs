//! The companion generator: for each field of a record, how a printer of the
//! record renders it. A field may carry a format string of its own in a
//! marker `debug = "..."`.

use vstd::prelude::*;
use vstd::string::StringExecFns;
use crate::diagnostic::{unsupported_shape_text, Diagnostic, DiagnosticKind, Location};
use crate::scan::first_from;
use crate::syntax::{Body, FieldDef, Literal, Marker, MarkerBody, TypeDef};
use crate::text::is_word;

verus! {

/// How a field is rendered.
#[derive(Clone, Debug, PartialEq, Eq)]
pub enum Rendering {
    /// As the field's own type prints itself.
    Plain,
    /// Through the given format string.
    Formatted(String),
}

/// The rendering directive for one field.
#[derive(Clone, Debug, PartialEq, Eq)]
pub struct FieldRendering {
    pub field: String,
    pub rendering: Rendering,
}

/// The printer generated for one record: one directive per field, in
/// declaration order.
#[derive(Clone, Debug, PartialEq, Eq)]
pub struct DebugCode {
    /// The name of the record type.
    pub target: String,
    pub fields: Vec<FieldRendering>,
}

/// The namespace of the marker that carries a format string.
pub open spec fn format_namespace() -> Seq<char> {
    "debug"@
}

/// The message for a marker that is not of the form `debug = "..."`.
pub open spec fn expected_format_text() -> Seq<char> {
    "expected `debug = \"...\"`"@
}

impl Marker {
    /// The format string that the marker carries, or the message that says
    /// why it carries none.
    pub open spec fn format(&self) -> Result<String, Seq<char>> {
        match self.body {
            MarkerBody::Assigned(Literal::Str(format)) => if self.namespace@ == format_namespace() {
                Ok(format)
            } else {
                Err(expected_format_text())
            },
            MarkerBody::Unreadable(complaint) => Err(complaint@),
            _ => Err(expected_format_text()),
        }
    }
}

impl FieldDef {
    /// How the field is rendered: a field with exactly one marker goes by
    /// that marker, every other field is rendered plainly.
    pub open spec fn rendering(&self) -> Result<Rendering, Seq<char>> {
        if self.markers@.len() == 1 {
            match self.markers@[0].format() {
                Ok(format) => Ok(Rendering::Formatted(format)),
                Err(message) => Err(message),
            }
        } else {
            Ok(Rendering::Plain)
        }
    }

    /// The rendering directive of the field; meant for a field that has one.
    pub open spec fn rendered(&self) -> FieldRendering {
        FieldRendering { field: self.name, rendering: self.rendering()->Ok_0 }
    }
}

/// Whether the field at a position has a marker that carries no format.
pub open spec fn unformatted_at(fields: Seq<FieldDef>) -> spec_fn(int) -> bool {
    |i: int| fields[i].rendering() is Err
}

/// Reads the rendering of `field` from its only marker: the marker has to be
/// `debug = "..."` with a string literal. The error is the message about a
/// marker of any other form.
pub fn handle_field_attr(field: &FieldDef, marker: &Marker) -> (r: Result<FieldRendering, String>)
    ensures
        match marker.format() {
            Ok(format) => r == Ok::<FieldRendering, String>(
                FieldRendering { field: field.name, rendering: Rendering::Formatted(format) },
            ),
            Err(message) => r matches Err(m) && m@ == message,
        },
{
    match &marker.body {
        MarkerBody::Assigned(Literal::Str(format)) => {
            if is_word(&marker.namespace, "debug") {
                return Ok(
                    FieldRendering {
                        field: field.name.clone(),
                        rendering: Rendering::Formatted(format.clone()),
                    },
                );
            }
        },
        MarkerBody::Unreadable(complaint) => {
            return Err(complaint.clone());
        },
        _ => {},
    }
    Err(String::from_str("expected `debug = \"...\"`"))
}

/// Generates the printer for a type definition, or says why there is none.
///
/// Only a record with named fields is accepted. The first field, in
/// declaration order, whose only marker carries no format ends the
/// generation; the diagnostic points at that marker.
pub fn derive(input: TypeDef) -> (r: Result<DebugCode, Diagnostic>)
    ensures
        match input.body {
            Body::Named(fields) => match first_from(
                unformatted_at(fields@),
                0,
                fields@.len() as int,
            ) {
                Some(i) => r matches Err(d) && d.kind == DiagnosticKind::MalformedDirective
                    && d.location.is_marker(i, 0) && d.message@ == fields@[i].rendering()->Err_0,
                None => r matches Ok(code) && code.target == input.name && code.fields@
                    == fields@.map_values(|f: FieldDef| f.rendered()),
            },
            _ => r matches Err(d) && d.kind == DiagnosticKind::UnsupportedShape && d.location
                == Location::Definition && d.message@ == unsupported_shape_text(),
        },
{
    let TypeDef { name, body } = input;
    let fields = match body {
        Body::Named(fields) => fields,
        _ => {
            return Err(Diagnostic::unsupported_shape());
        },
    };
    let n = fields.len();
    let mut rendered: Vec<FieldRendering> = Vec::new();
    let mut i: usize = 0;
    while i < n
        invariant
            i <= n,
            n == fields@.len(),
            input.body == Body::Named(fields),
            first_from(unformatted_at(fields@), 0, n as int) == first_from(
                unformatted_at(fields@),
                i as int,
                n as int,
            ),
            rendered@ == fields@.take(i as int).map_values(|f: FieldDef| f.rendered()),
        decreases n - i,
    {
        let field = &fields[i];
        if field.markers.len() == 1 {
            match handle_field_attr(field, &field.markers[0]) {
                Ok(rendering) => {
                    rendered.push(rendering);
                },
                Err(message) => {
                    return Err(Diagnostic::malformed_directive(message, i, 0));
                },
            }
        } else {
            rendered.push(FieldRendering { field: field.name.clone(), rendering: Rendering::Plain });
        }
        assert(fields@.take(i + 1) == fields@.take(i as int).push(fields@[i as int]));
        i += 1;
    }
    assert(fields@.take(n as int) == fields@);
    Ok(DebugCode { target: name, fields: rendered })
}

} // verus!
