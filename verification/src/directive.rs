//! The grammar of the accumulation directive, `builder(each = "name")`.

use vstd::prelude::*;
use vstd::string::StringExecFns;
use crate::scan::first_from;
use crate::syntax::{Literal, Marker, MarkerBody, Nested};
use crate::text::is_word;

verus! {

/// A directive that was read from a marker: `each = "accessor_name"`.
#[derive(Clone, Debug, PartialEq, Eq)]
pub struct AttributeDirective {
    /// The key as written; it reads `each`.
    pub key: String,
    /// The name of the method that appends one element.
    pub accessor_name: String,
}

/// A marker in the reserved namespace does not follow the grammar.
#[derive(Clone, Debug, PartialEq, Eq)]
pub struct MalformedDirective {
    pub message: String,
    /// The index of the marker among the field's markers.
    pub marker: usize,
}

/// The namespace whose markers are directives.
pub open spec fn reserved_namespace() -> Seq<char> {
    "builder"@
}

/// The only key that a directive may have.
pub open spec fn accumulation_key() -> Seq<char> {
    "each"@
}

/// The message for a marker that is not of the form `builder(each = "...")`.
pub open spec fn expected_form_text() -> Seq<char> {
    "expected `builder(each = \"...\")`"@
}

/// Whether the marker at a position stands in the reserved namespace.
pub open spec fn in_reserved_namespace(markers: Seq<Marker>) -> spec_fn(int) -> bool {
    |i: int| markers[i].namespace@ == reserved_namespace()
}

/// The index of the marker that carries the field's directive: the first one
/// in the reserved namespace. Later ones are not looked at.
pub open spec fn directive_marker(markers: Seq<Marker>) -> Option<int> {
    first_from(in_reserved_namespace(markers), 0, markers.len() as int)
}

/// What the markers of a field say: no directive, a directive, or the index
/// of the offending marker with the message about it.
pub open spec fn parsed(markers: Seq<Marker>) -> Result<Option<AttributeDirective>, (int, Seq<char>)> {
    match directive_marker(markers) {
        None => Ok(None),
        Some(i) => match markers[i].body.directive() {
            Ok(d) => Ok(Some(d)),
            Err(message) => Err((i, message)),
        },
    }
}

impl MarkerBody {
    /// The directive that the body spells, or the message that says why it
    /// spells none.
    ///
    /// The body has to be a list of exactly one item, that item a pair whose key
    /// reads `each` and whose value is a string literal.
    pub open spec fn directive(&self) -> Result<AttributeDirective, Seq<char>> {
        match *self {
            MarkerBody::List(items) => {
                if items@.len() == 1 {
                    match items@[0] {
                        Nested::Pair(key, Literal::Str(value)) => {
                            if key@ == accumulation_key() {
                                Ok(AttributeDirective { key, accessor_name: value })
                            } else {
                                Err(expected_form_text())
                            }
                        },
                        _ => Err(expected_form_text()),
                    }
                } else {
                    Err(expected_form_text())
                }
            },
            MarkerBody::Unreadable(complaint) => Err(complaint@),
            _ => Err(expected_form_text()),
        }
    }
}

/// The first marker in the reserved namespace, by its index: `None` exactly
/// when the field has no such marker.
pub fn builder_of(markers: &Vec<Marker>) -> (r: Option<usize>)
    ensures
        directive_marker(markers@) == match r {
            Some(i) => Some(i as int),
            None => None,
        },
        r matches Some(i) ==> i < markers@.len(),
{
    let mut i: usize = 0;
    while i < markers.len()
        invariant
            i <= markers@.len(),
            directive_marker(markers@) == first_from(
                in_reserved_namespace(markers@),
                i as int,
                markers@.len() as int,
            ),
        decreases markers@.len() - i,
    {
        if is_word(&markers[i].namespace, "builder") {
            return Some(i);
        }
        i += 1;
    }
    None
}

/// Reads the body of a marker in the reserved namespace.
fn read_body(body: &MarkerBody) -> (r: Result<AttributeDirective, String>)
    ensures
        match body.directive() {
            Ok(d) => r == Ok::<AttributeDirective, String>(d),
            Err(message) => r matches Err(m) && m@ == message,
        },
{
    match body {
        MarkerBody::List(items) => {
            if items.len() == 1 {
                match &items[0] {
                    Nested::Pair(key, Literal::Str(value)) => {
                        if is_word(key, "each") {
                            return Ok(
                                AttributeDirective {
                                    key: key.clone(),
                                    accessor_name: value.clone(),
                                },
                            );
                        }
                    },
                    _ => {},
                }
            }
        },
        MarkerBody::Unreadable(complaint) => {
            return Err(complaint.clone());
        },
        _ => {},
    }
    Err(String::from_str("expected `builder(each = \"...\")`"))
}

/// Parses the directive of a field from its markers.
///
/// Markers of other namespaces are passed over. Without a marker in the
/// reserved namespace the field has no directive, which is no error. With
/// one, its body has to spell a directive; the error names the marker and
/// says what was expected, or repeats the host's complaint where the host
/// could not read the marker.
pub fn parse(raw_directives: &Vec<Marker>) -> (r: Result<
    Option<AttributeDirective>,
    MalformedDirective,
>)
    ensures
        match parsed(raw_directives@) {
            Ok(d) => r matches Ok(got) && got == d,
            Err((marker, message)) => r matches Err(e) && e.marker == marker && e.message@
                == message,
        },
{
    match builder_of(raw_directives) {
        None => Ok(None),
        Some(i) => match read_body(&raw_directives[i].body) {
            Ok(directive) => Ok(Some(directive)),
            Err(message) => Err(MalformedDirective { message, marker: i }),
        },
    }
}

} // verus!
