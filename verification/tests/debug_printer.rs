use builder::debug::{handle_field_attr, DebugCode, FieldRendering, Rendering};
use builder::diagnostic::{Diagnostic, DiagnosticKind, Location};
use builder::syntax::{Body, FieldDef, Literal, Marker, MarkerBody, Nested, Segment, TypeDef, TypeExpr};

const EXPECTED_FORMAT: &str = "expected `debug = \"...\"`";

fn simple(text: &str) -> TypeExpr {
    TypeExpr {
        text: text.to_string(),
        segments: vec![Segment { ident: text.to_string(), generics: vec![] }],
    }
}

fn printed(name: &str, markers: Vec<Marker>) -> FieldDef {
    FieldDef { name: name.to_string(), ty: simple("u8"), markers }
}

fn format_marker(format: &str) -> Marker {
    Marker {
        namespace: "debug".to_string(),
        body: MarkerBody::Assigned(Literal::Str(format.to_string())),
    }
}

fn other_marker(namespace: &str, body: MarkerBody) -> Marker {
    Marker { namespace: namespace.to_string(), body }
}

fn definition(fields: Vec<FieldDef>) -> TypeDef {
    TypeDef { name: "Field".to_string(), body: Body::Named(fields) }
}

fn rendering(field: &str, rendering: Rendering) -> FieldRendering {
    FieldRendering { field: field.to_string(), rendering }
}

#[test]
fn a_format_marker_is_read() {
    let f = printed("bitmask", vec![format_marker("0b{:08b}")]);
    assert_eq!(
        handle_field_attr(&f, &f.markers[0]),
        Ok(rendering("bitmask", Rendering::Formatted("0b{:08b}".to_string())))
    );
}

#[test]
fn a_marker_of_another_form_is_refused() {
    let f = printed("bitmask", vec![]);
    let wrong = [
        other_marker("debug", MarkerBody::Bare),
        other_marker("debug", MarkerBody::Assigned(Literal::Other("5".to_string()))),
        other_marker(
            "debug",
            MarkerBody::List(vec![Nested::Pair(
                "format".to_string(),
                Literal::Str("{}".to_string()),
            )]),
        ),
        other_marker("doc", MarkerBody::Assigned(Literal::Str(" A mask.".to_string()))),
    ];
    for marker in wrong.iter() {
        assert_eq!(handle_field_attr(&f, marker), Err(EXPECTED_FORMAT.to_string()));
    }
}

#[test]
fn the_complaint_about_an_unreadable_marker_is_repeated() {
    let f = printed("bitmask", vec![]);
    let marker = other_marker("debug", MarkerBody::Unreadable("expected literal".to_string()));
    assert_eq!(handle_field_attr(&f, &marker), Err("expected literal".to_string()));
}

#[test]
fn one_directive_per_field_in_declaration_order() {
    let def = definition(vec![
        printed("name", vec![]),
        printed("bitmask", vec![format_marker("0b{:08b}")]),
        printed("both", vec![format_marker("{}"), other_marker("doc", MarkerBody::Bare)]),
    ]);
    assert_eq!(
        builder::debug::derive(def),
        Ok(DebugCode {
            target: "Field".to_string(),
            fields: vec![
                rendering("name", Rendering::Plain),
                rendering("bitmask", Rendering::Formatted("0b{:08b}".to_string())),
                rendering("both", Rendering::Plain),
            ],
        })
    );
}

#[test]
fn the_first_field_with_a_wrong_marker_ends_the_generation() {
    let def = definition(vec![
        printed("name", vec![]),
        printed("first", vec![other_marker("debug", MarkerBody::Unreadable("first".to_string()))]),
        printed("second", vec![other_marker("debug", MarkerBody::Bare)]),
    ]);
    assert_eq!(
        builder::debug::derive(def),
        Err(Diagnostic {
            kind: DiagnosticKind::MalformedDirective,
            message: "first".to_string(),
            location: Location::Marker(1, 0),
        })
    );
}

#[test]
fn a_lone_marker_of_another_namespace_is_refused() {
    let def = definition(vec![printed("name", vec![other_marker("doc", MarkerBody::Bare)])]);
    let d = builder::debug::derive(def).unwrap_err();
    assert_eq!(d.kind, DiagnosticKind::MalformedDirective);
    assert_eq!(d.message, EXPECTED_FORMAT);
    assert_eq!(d.location, Location::Marker(0, 0));
}

#[test]
fn a_printer_needs_a_record_with_named_fields() {
    for body in [Body::Tuple, Body::Unit, Body::Enum, Body::Union] {
        let def = TypeDef { name: "Field".to_string(), body };
        assert_eq!(
            builder::debug::derive(def),
            Err(Diagnostic {
                kind: DiagnosticKind::UnsupportedShape,
                message: "expected a struct with named fields".to_string(),
                location: Location::Definition,
            })
        );
    }
}

#[test]
fn a_record_without_fields_prints_its_name_only() {
    assert_eq!(
        builder::debug::derive(definition(vec![])),
        Ok(DebugCode { target: "Field".to_string(), fields: vec![] })
    );
}
