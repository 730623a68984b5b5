use builder::classify::Classification;
use builder::descriptor::{FieldDescriptor, TypeDescriptor, TypeSignature};
use builder::emit::{emit, GeneratedCode};
use builder::runtime::{Argument, Builder, FieldEntry, FieldValue, MissingField, Record};
use builder::syntax::{
    Body, FieldDef, GenericArg, Literal, Marker, MarkerBody, Nested, Segment, TypeDef, TypeExpr,
};

fn ty(text: &str) -> TypeExpr {
    TypeExpr {
        text: text.to_string(),
        segments: vec![Segment { ident: text.to_string(), generics: vec![] }],
    }
}

fn generic(wrapper: &str, inner: &str) -> TypeExpr {
    TypeExpr {
        text: format!("{}<{}>", wrapper, inner),
        segments: vec![Segment {
            ident: wrapper.to_string(),
            generics: vec![GenericArg::Type(inner.to_string())],
        }],
    }
}

fn each_marker(accessor: &str) -> Marker {
    Marker {
        namespace: "builder".to_string(),
        body: MarkerBody::List(vec![Nested::Pair(
            "each".to_string(),
            Literal::Str(accessor.to_string()),
        )]),
    }
}

fn def_field(name: &str, ty: TypeExpr, markers: Vec<Marker>) -> FieldDef {
    FieldDef { name: name.to_string(), ty, markers }
}

fn generate(name: &str, fields: Vec<FieldDef>) -> GeneratedCode {
    builder::generate::derive(TypeDef { name: name.to_string(), body: Body::Named(fields) }).unwrap()
}

fn command_code() -> GeneratedCode {
    generate(
        "Command",
        vec![
            def_field("executable", ty("String"), vec![]),
            def_field("args", generic("Vec", "String"), vec![each_marker("arg")]),
            def_field("current_dir", generic("Option", "String"), vec![]),
        ],
    )
}

fn one(value: &str) -> Argument {
    Argument::One(value.to_string())
}

fn many(values: &[&str]) -> Argument {
    Argument::Many(values.iter().map(|v| v.to_string()).collect())
}

fn call_named(b: &mut Builder, name: &str, argument: Argument) -> bool {
    match b.method_named(name) {
        Some(method) => {
            let taken = b.takes(method, &argument);
            b.call(method, argument);
            taken
        }
        None => false,
    }
}

fn entry(name: &str, value: FieldValue) -> FieldEntry {
    FieldEntry { name: name.to_string(), value }
}

fn strings(values: &[&str]) -> Vec<String> {
    values.iter().map(|v| v.to_string()).collect()
}

fn missing(name: &str) -> MissingField {
    MissingField { field: name.to_string() }
}

#[test]
fn command_is_built_from_chained_calls() {
    let code = command_code();
    let mut b = code.builder();
    let executable = b.method_named("executable").unwrap();
    let arg = b.method_named("arg").unwrap();
    let built = b
        .call(executable, one("service"))
        .call(arg, one("--port"))
        .call(arg, one("8080"))
        .build();
    assert_eq!(
        built,
        Ok(Record {
            name: "Command".to_string(),
            fields: vec![
                entry("executable", FieldValue::One("service".to_string())),
                entry("args", FieldValue::Many(strings(&["--port", "8080"]))),
                entry("current_dir", FieldValue::Maybe(None)),
            ],
        })
    );
}

#[test]
fn required_fields_must_be_set_before_construction() {
    let code = generate(
        "Point",
        vec![def_field("x", ty("i32"), vec![]), def_field("y", ty("i32"), vec![])],
    );
    let mut b = code.builder();
    assert_eq!(b.build(), Err(missing("x")));
    assert!(call_named(&mut b, "x", one("1")));
    assert_eq!(b.build(), Err(missing("y")));
    assert!(call_named(&mut b, "y", one("2")));
    assert_eq!(
        b.build(),
        Ok(Record {
            name: "Point".to_string(),
            fields: vec![
                entry("x", FieldValue::One("1".to_string())),
                entry("y", FieldValue::One("2".to_string())),
            ],
        })
    );
}

#[test]
fn the_first_unset_field_in_declaration_order_is_named() {
    let code = generate(
        "Point",
        vec![def_field("x", ty("i32"), vec![]), def_field("y", ty("i32"), vec![])],
    );
    let mut b = code.builder();
    assert!(call_named(&mut b, "y", one("2")));
    assert_eq!(b.build(), Err(missing("x")));
}

#[test]
fn a_setter_called_again_replaces_the_value() {
    let code = generate("Id", vec![def_field("id", ty("u64"), vec![])]);
    let mut b = code.builder();
    assert!(call_named(&mut b, "id", one("1")));
    assert!(call_named(&mut b, "id", one("2")));
    assert_eq!(b.build().unwrap().fields, vec![entry("id", FieldValue::One("2".to_string()))]);
}

#[test]
fn construction_can_be_tried_again() {
    let code = command_code();
    let mut b = code.builder();
    assert_eq!(b.build(), Err(missing("executable")));
    assert_eq!(b.build(), Err(missing("executable")));
    assert!(call_named(&mut b, "executable", one("service")));
    let first = b.build().unwrap();
    assert_eq!(b.build(), Ok(first));
}

#[test]
fn missing_field_says_which_field_is_not_set() {
    assert_eq!(missing("executable").message(), "executable is not set");
    let code = command_code();
    assert_eq!(code.builder().build().unwrap_err().message(), "executable is not set");
}

#[test]
fn an_optional_field_may_stay_unset() {
    let code = generate("Job", vec![def_field("dir", generic("Option", "String"), vec![])]);
    let mut b = code.builder();
    assert_eq!(
        b.build(),
        Ok(Record {
            name: "Job".to_string(),
            fields: vec![entry("dir", FieldValue::Maybe(None))],
        })
    );
    assert!(call_named(&mut b, "dir", one("/tmp")));
    assert_eq!(
        b.build().unwrap().fields,
        vec![entry("dir", FieldValue::Maybe(Some("/tmp".to_string())))]
    );
}

#[test]
fn a_repeated_field_may_stay_empty() {
    let code = generate(
        "Job",
        vec![def_field("args", generic("Vec", "String"), vec![each_marker("arg")])],
    );
    assert_eq!(
        code.builder().build().unwrap().fields,
        vec![entry("args", FieldValue::Many(vec![]))]
    );
}

#[test]
fn an_accessor_with_the_fields_name_only_appends() {
    let code = generate(
        "Job",
        vec![def_field("env", generic("Vec", "String"), vec![each_marker("env")])],
    );
    assert_eq!(code.methods.len(), 1);
    let mut b = code.builder();
    assert_eq!(b.method_named("env"), Some(0));
    assert!(!b.takes(0, &many(&["A=1", "B=2"])));
    b.call(0, many(&["A=1", "B=2"]));
    assert_eq!(b.build().unwrap().fields, vec![entry("env", FieldValue::Many(vec![]))]);
    for value in ["A=1", "B=2", "C=3", "A=1"] {
        assert!(b.takes(0, &one(value)));
        b.call(0, one(value));
    }
    assert_eq!(
        b.build().unwrap().fields,
        vec![entry("env", FieldValue::Many(strings(&["A=1", "B=2", "C=3", "A=1"])))]
    );
}

#[test]
fn an_accessor_with_another_name_stands_beside_the_setter() {
    let code = command_code();
    let mut b = code.builder();
    assert_eq!(b.method_named("args"), Some(1));
    assert_eq!(b.method_named("arg"), Some(2));
    assert!(call_named(&mut b, "executable", one("service")));
    assert!(call_named(&mut b, "arg", one("a")));
    assert!(call_named(&mut b, "arg", one("b")));
    assert!(call_named(&mut b, "args", many(&["x", "y", "z"])));
    assert_eq!(b.build().unwrap().fields[1], entry("args", FieldValue::Many(strings(&["x", "y", "z"]))));
    assert!(call_named(&mut b, "arg", one("w")));
    assert_eq!(
        b.build().unwrap().fields[1],
        entry("args", FieldValue::Many(strings(&["x", "y", "z", "w"])))
    );
    assert!(call_named(&mut b, "args", many(&[])));
    assert_eq!(b.build().unwrap().fields[1], entry("args", FieldValue::Many(vec![])));
}

#[test]
fn a_call_that_the_builder_does_not_have_changes_nothing() {
    let code = command_code();
    let mut b = code.builder();
    assert!(call_named(&mut b, "executable", one("service")));
    let before = b.build();
    assert_eq!(b.method_named("nothing"), None);
    let refused = [
        (4, one("x")),
        (usize::MAX, one("x")),
        (0, many(&["x"])),
        (1, one("x")),
        (2, many(&["x"])),
        (3, many(&["x"])),
    ];
    for (method, argument) in refused {
        assert!(!b.takes(method, &argument));
        b.call(method, argument);
        assert_eq!(b.build(), before);
    }
}

#[test]
fn code_written_by_hand_is_run_as_far_as_it_makes_sense() {
    let descriptor = TypeDescriptor {
        name: "Odd".to_string(),
        fields: vec![FieldDescriptor {
            name: "items".to_string(),
            type_signature: TypeSignature::Plain("u8".to_string()),
            raw_directives: vec![],
        }],
    };
    let classifications =
        vec![Classification::Repeated(TypeSignature::Plain("u8".to_string()), "item".to_string())];
    let mut code = emit(&descriptor, &classifications);
    code.methods[0].slot = 7;
    let mut b = code.builder();
    assert!(!b.takes(0, &many(&["1"])));
    assert!(b.takes(1, &one("1")));
    b.call(0, many(&["1"])).call(1, one("1"));
    assert_eq!(b.build().unwrap().fields, vec![entry("items", FieldValue::Many(strings(&["1"])))]);
}

#[test]
fn every_method_takes_one_kind_of_argument() {
    let code = command_code();
    let b = code.builder();
    let takes: Vec<(bool, bool)> =
        (0..5).map(|m| (b.takes(m, &one("x")), b.takes(m, &many(&["x"])))).collect();
    assert_eq!(
        takes,
        vec![(true, false), (false, true), (true, false), (true, false), (false, false)]
    );
}

#[test]
fn two_builders_do_not_share_their_slots() {
    let code = command_code();
    let mut first = code.builder();
    let second = code.builder();
    assert!(call_named(&mut first, "executable", one("service")));
    assert!(first.build().is_ok());
    assert_eq!(second.build(), Err(missing("executable")));
}
