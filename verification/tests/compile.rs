use domain_schema::input_data::{
    from_deserializer, get_domains, DomainBuilder, DomainEntry, FieldValue, InputDeserializer,
    RecordInstance,
};
use domain_schema::decl::{AttrDecl, AttrForm, DeclShape, FieldDecl, RecordDecl};
use domain_schema::driver::{compile, DriverState};
use domain_schema::emit::{DomainCall, GeneratedArtifacts, ReadOp};
use domain_schema::error::CompileError;
use domain_schema::scalar::{Bound, DomainRange, NumericKind, Scalar};

fn domain(payload: &str) -> AttrDecl {
    AttrDecl { name: "domain".to_string(), form: AttrForm::List, payload: payload.to_string() }
}

fn field(name: &str, declared_type: &str, attrs: Vec<AttrDecl>) -> FieldDecl {
    FieldDecl {
        name: Some(name.to_string()),
        declared_type: declared_type.to_string(),
        attrs,
    }
}

fn record(name: &str, fields: Vec<FieldDecl>) -> RecordDecl {
    RecordDecl { name: name.to_string(), shape: DeclShape::NamedStruct, fields }
}

fn int_range(lower: i32, upper: i32, inclusive_upper: bool) -> DomainRange {
    DomainRange { lower: Bound::Int32(lower), upper: Bound::Int32(upper), inclusive_upper }
}

fn float_range(lower: &str, upper: &str, inclusive_upper: bool) -> DomainRange {
    DomainRange {
        lower: Bound::Float64(lower.to_string()),
        upper: Bound::Float64(upper.to_string()),
        inclusive_upper,
    }
}

fn learner() -> RecordDecl {
    record(
        "Learner",
        vec![
            field("lr", "f64", vec![domain("0.0..1.0")]),
            field("steps", "i32", vec![domain("1..128")]),
        ],
    )
}

#[test]
fn descriptor_registers_fields_in_order() {
    let artifacts = compile(learner()).unwrap();
    assert_eq!(artifacts.record_name, "Learner");
    assert_eq!(
        artifacts.domain_builder_chain,
        vec![
            DomainCall {
                field_name: "lr".to_string(),
                kind: NumericKind::Float64,
                range: float_range("0.0", "1.0", false),
                range_expr: "0.0..1.0".to_string(),
            },
            DomainCall {
                field_name: "steps".to_string(),
                kind: NumericKind::Int32,
                range: int_range(1, 128, false),
                range_expr: "1..128".to_string(),
            },
        ]
    );
    assert_eq!(
        artifacts.reconstruction_body,
        vec![
            ReadOp { field_name: "lr".to_string(), kind: NumericKind::Float64 },
            ReadOp { field_name: "steps".to_string(), kind: NumericKind::Int32 },
        ]
    );
    let builder = get_domains(&artifacts, DomainBuilder::new());
    assert_eq!(
        builder.entries,
        vec![
            DomainEntry {
                name: "lr".to_string(),
                kind: NumericKind::Float64,
                range: float_range("0.0", "1.0", false),
            },
            DomainEntry {
                name: "steps".to_string(),
                kind: NumericKind::Int32,
                range: int_range(1, 128, false),
            },
        ]
    );
    match &builder.entries[0].range.lower {
        Bound::Float64(digits) => assert_eq!(digits.parse::<f64>().unwrap(), 0.0),
        other => panic!("unexpected bound {:?}", other),
    }
    match &builder.entries[0].range.upper {
        Bound::Float64(digits) => assert_eq!(digits.parse::<f64>().unwrap(), 1.0),
        other => panic!("unexpected bound {:?}", other),
    }
}

#[test]
fn stream_rebuilds_record() {
    let artifacts = compile(learner()).unwrap();
    let mut stream =
        InputDeserializer::new(vec![Scalar::Float64(0.37f64.to_bits()), Scalar::Int32(64)]);
    let rebuilt = from_deserializer(&artifacts, &mut stream).unwrap();
    assert_eq!(
        rebuilt,
        RecordInstance {
            name: "Learner".to_string(),
            fields: vec![
                FieldValue { name: "lr".to_string(), value: Scalar::Float64(0.37f64.to_bits()) },
                FieldValue { name: "steps".to_string(), value: Scalar::Int32(64) },
            ],
        }
    );
    match rebuilt.fields[0].value {
        Scalar::Float64(bits) => assert_eq!(f64::from_bits(bits), 0.37),
        other => panic!("unexpected value {:?}", other),
    }
    assert_eq!(stream.remaining(), 0);
}

#[test]
fn two_domain_attributes_fail() {
    let decl = record(
        "Learner",
        vec![field("lr", "f64", vec![domain("0.0..1.0"), domain("0.0..2.0")])],
    );
    assert_eq!(compile(decl), Err(CompileError::MultipleDomainAttributes("lr".to_string())));
}

#[test]
fn string_field_fails() {
    let decl = record("Labelled", vec![field("label", "String", vec![domain("0..1")])]);
    assert_eq!(
        compile(decl),
        Err(CompileError::UnsupportedFieldType("label".to_string(), "String".to_string()))
    );
    let decl = record("Labelled", vec![field("label", "& str", vec![domain("0..1")])]);
    assert_eq!(
        compile(decl),
        Err(CompileError::UnsupportedFieldType("label".to_string(), "& str".to_string()))
    );
}

#[test]
fn chains_have_one_entry_per_field() {
    let decl = record(
        "Wide",
        vec![
            field("a", "i32", vec![domain("0..1")]),
            field("b", "f64", vec![domain("0.5..=1.5")]),
            field("c", "i32", vec![domain("-3..=3")]),
        ],
    );
    let count = decl.fields.len();
    let artifacts = compile(decl).unwrap();
    assert_eq!(artifacts.domain_builder_chain.len(), count);
    assert_eq!(artifacts.reconstruction_body.len(), count);
    assert_eq!(count, 3);
}

#[test]
fn chains_keep_declared_names_in_order() {
    let decl = record(
        "Wide",
        vec![
            field("zeta", "i32", vec![domain("0..1")]),
            field("alpha", "f64", vec![domain("0.5..=1.5")]),
            field("mid", "i32", vec![domain("-3..=3")]),
        ],
    );
    let declared: Vec<String> = decl.fields.iter().map(|f| f.name.clone().unwrap()).collect();
    let artifacts = compile(decl).unwrap();
    let described: Vec<String> =
        artifacts.domain_builder_chain.iter().map(|c| c.field_name.clone()).collect();
    let read: Vec<String> =
        artifacts.reconstruction_body.iter().map(|r| r.field_name.clone()).collect();
    assert_eq!(declared, vec!["zeta".to_string(), "alpha".to_string(), "mid".to_string()]);
    assert_eq!(described, declared);
    assert_eq!(read, declared);
    let kinds: Vec<NumericKind> = artifacts.reconstruction_body.iter().map(|r| r.kind).collect();
    assert_eq!(kinds, vec![NumericKind::Int32, NumericKind::Float64, NumericKind::Int32]);
}

#[test]
fn compiling_twice_gives_the_same_artifacts() {
    let first = compile(learner());
    let second = compile(learner());
    assert!(first.is_ok());
    assert_eq!(first, second);
    let broken = record("Broken", vec![field("x", "i32", vec![])]);
    assert_eq!(compile(broken.clone()), compile(broken));
}

#[test]
fn record_without_fields_compiles_to_empty_chains() {
    let artifacts = compile(record("Nothing", vec![])).unwrap();
    assert_eq!(
        artifacts,
        GeneratedArtifacts {
            record_name: "Nothing".to_string(),
            domain_builder_chain: vec![],
            reconstruction_body: vec![],
        }
    );
    let mut stream = InputDeserializer::new(vec![Scalar::Int32(7)]);
    let rebuilt = from_deserializer(&artifacts, &mut stream).unwrap();
    assert_eq!(rebuilt, RecordInstance { name: "Nothing".to_string(), fields: vec![] });
    assert_eq!(stream.remaining(), 1);
    assert!(get_domains(&artifacts, DomainBuilder::new()).entries.is_empty());
}

#[test]
fn only_a_struct_with_named_fields_is_a_record() {
    for shape in [DeclShape::TupleStruct, DeclShape::UnitStruct, DeclShape::Enum, DeclShape::Union]
    {
        let decl = RecordDecl {
            name: "Other".to_string(),
            shape,
            fields: vec![field("x", "i32", vec![domain("0..1")])],
        };
        assert_eq!(compile(decl), Err(CompileError::NotARecord));
    }
}

#[test]
fn field_without_a_name_fails() {
    let decl = record(
        "Holey",
        vec![
            field("x", "i32", vec![domain("0..1")]),
            FieldDecl { name: None, declared_type: "i32".to_string(), attrs: vec![domain("0..1")] },
        ],
    );
    assert_eq!(compile(decl), Err(CompileError::UnnamedFields));
}

#[test]
fn field_without_domain_fails() {
    let decl = record("Bare", vec![field("x", "i32", vec![])]);
    assert_eq!(compile(decl), Err(CompileError::MissingDomainAttribute("x".to_string())));
}

#[test]
fn attributes_of_another_name_or_form_state_no_domain() {
    let others = vec![
        AttrDecl { name: "doc".to_string(), form: AttrForm::NameValue, payload: "\"x\"".to_string() },
        AttrDecl { name: "serde".to_string(), form: AttrForm::List, payload: "0..1".to_string() },
        AttrDecl { name: "domain".to_string(), form: AttrForm::Path, payload: String::new() },
        AttrDecl { name: "domain".to_string(), form: AttrForm::NameValue, payload: "0..1".to_string() },
    ];
    let decl = record("Bare", vec![field("x", "i32", others.clone())]);
    assert_eq!(compile(decl), Err(CompileError::MissingDomainAttribute("x".to_string())));
    let mut with_domain = others;
    with_domain.insert(2, domain("4..=9"));
    let artifacts = compile(record("Dressed", vec![field("x", "i32", with_domain)])).unwrap();
    assert_eq!(artifacts.domain_builder_chain[0].range, int_range(4, 9, true));
    assert_eq!(artifacts.domain_builder_chain[0].range_expr, "4..=9");
}

#[test]
fn payload_that_is_no_expression_fails() {
    for payload in ["1 +", "", "1..2 3", ")"] {
        let decl = record("Bad", vec![field("x", "i32", vec![domain(payload)])]);
        assert_eq!(
            compile(decl),
            Err(CompileError::InvalidRangeExpression("x".to_string())),
            "payload {:?}",
            payload
        );
    }
}

#[test]
fn payload_that_is_another_expression_fails() {
    for payload in ["5", "x", "1 + 2", "\"0..1\"", "(0..1)"] {
        let decl = record("Bad", vec![field("x", "i32", vec![domain(payload)])]);
        assert_eq!(
            compile(decl),
            Err(CompileError::ExpectedRangeGotOther("x".to_string())),
            "payload {:?}",
            payload
        );
    }
}

#[test]
fn range_without_two_numeric_ends_fails() {
    for payload in ["..", "1..", "..5", "..=5", "a..b", "1..n", "1..(2)", "1..2+3", "true..false"] {
        let decl = record("Bad", vec![field("x", "i32", vec![domain(payload)])]);
        assert_eq!(
            compile(decl),
            Err(CompileError::InvalidRangeExpression("x".to_string())),
            "payload {:?}",
            payload
        );
    }
}

#[test]
fn domain_of_another_kind_than_the_field_fails() {
    let decl = record("Mixed", vec![field("x", "i32", vec![domain("0.0..1.0")])]);
    assert_eq!(compile(decl), Err(CompileError::InvalidRangeExpression("x".to_string())));
    let decl = record("Mixed", vec![field("x", "f64", vec![domain("0..1")])]);
    assert_eq!(compile(decl), Err(CompileError::InvalidRangeExpression("x".to_string())));
    let decl = record("Mixed", vec![field("x", "f64", vec![domain("0..1.0")])]);
    assert_eq!(compile(decl), Err(CompileError::InvalidRangeExpression("x".to_string())));
}

#[test]
fn only_the_two_exact_type_names_are_supported() {
    for declared in ["i64", "u32", "f32", "I32", "std :: primitive :: i32", "Option < i32 >", ""] {
        let decl = record("Typed", vec![field("x", declared, vec![domain("0..1")])]);
        assert_eq!(
            compile(decl),
            Err(CompileError::UnsupportedFieldType("x".to_string(), declared.to_string())),
            "type {:?}",
            declared
        );
    }
}

#[test]
fn validation_of_all_fields_comes_before_dispatch() {
    let decl = record(
        "Ordered",
        vec![
            field("first", "String", vec![domain("0..1")]),
            field("second", "i32", vec![]),
        ],
    );
    assert_eq!(compile(decl), Err(CompileError::MissingDomainAttribute("second".to_string())));
}

#[test]
fn extraction_of_all_fields_comes_before_validation() {
    let decl = record(
        "Ordered",
        vec![
            field("first", "i32", vec![]),
            FieldDecl { name: None, declared_type: "i32".to_string(), attrs: vec![] },
        ],
    );
    assert_eq!(compile(decl), Err(CompileError::UnnamedFields));
    let decl = RecordDecl {
        name: "Ordered".to_string(),
        shape: DeclShape::Enum,
        fields: vec![FieldDecl { name: None, declared_type: "i32".to_string(), attrs: vec![] }],
    };
    assert_eq!(compile(decl), Err(CompileError::NotARecord));
}

#[test]
fn first_failing_field_of_a_step_is_reported() {
    let decl = record(
        "Ordered",
        vec![
            field("fine", "i32", vec![domain("0..1")]),
            field("twice", "i32", vec![domain("0..1"), domain("0..1")]),
            field("bare", "i32", vec![]),
        ],
    );
    assert_eq!(compile(decl), Err(CompileError::MultipleDomainAttributes("twice".to_string())));
    let decl = record(
        "Ordered",
        vec![
            field("fine", "i32", vec![domain("0..1")]),
            field("long", "i64", vec![domain("0..1")]),
            field("text", "String", vec![domain("0..1")]),
        ],
    );
    assert_eq!(
        compile(decl),
        Err(CompileError::UnsupportedFieldType("long".to_string(), "i64".to_string()))
    );
}

#[test]
fn driver_walks_through_its_states() {
    let state = DriverState::Start { decl: learner() };
    assert!(!state.is_final());
    let state = state.advance();
    let names: Vec<String> = match &state {
        DriverState::Extracted { record_name, extracted } => {
            assert_eq!(record_name, "Learner");
            extracted.iter().map(|f| f.name.clone()).collect()
        },
        other => panic!("unexpected state {:?}", other),
    };
    assert_eq!(names, vec!["lr".to_string(), "steps".to_string()]);
    let state = state.advance();
    match &state {
        DriverState::Validated { record_name, validated } => {
            assert_eq!(record_name, "Learner");
            assert_eq!(validated[0].domain, float_range("0.0", "1.0", false));
            assert_eq!(validated[0].declared_type, "f64");
            assert_eq!(validated[1].domain, int_range(1, 128, false));
            assert_eq!(validated[1].domain_expr, "1..128");
        },
        other => panic!("unexpected state {:?}", other),
    }
    let state = state.advance();
    match &state {
        DriverState::Dispatched { schema } => {
            assert_eq!(schema.name, "Learner");
            assert_eq!(schema.fields[0].kind, NumericKind::Float64);
            assert_eq!(schema.fields[1].kind, NumericKind::Int32);
        },
        other => panic!("unexpected state {:?}", other),
    }
    assert!(!state.is_final());
    let state = state.advance();
    assert!(state.is_final());
    assert_eq!(state, DriverState::Emitted { artifacts: compile(learner()).unwrap() });
    assert_eq!(state.clone().advance(), state);
}

#[test]
fn driver_fails_at_the_first_failing_step() {
    let decl = record("Bad", vec![field("x", "i32", vec![domain("7")])]);
    let state = DriverState::Start { decl }.advance();
    assert!(matches!(state, DriverState::Extracted { .. }));
    let state = state.advance();
    assert_eq!(
        state,
        DriverState::Failed { error: CompileError::ExpectedRangeGotOther("x".to_string()) }
    );
    assert!(state.is_final());
    assert_eq!(state.clone().advance(), state);
}

#[test]
fn errors_report_the_field_and_the_rule() {
    assert_eq!(CompileError::NotARecord.message(), "only a struct can be compiled");
    assert_eq!(CompileError::UnnamedFields.message(), "the struct needs to have named fields");
    assert_eq!(
        CompileError::MissingDomainAttribute("lr".to_string()).message(),
        "field lr should contain the attribute #[domain(range)]"
    );
    assert_eq!(
        CompileError::MultipleDomainAttributes("lr".to_string()).message(),
        "field lr should contain only one domain attribute"
    );
    assert_eq!(
        CompileError::InvalidRangeExpression("lr".to_string()).message(),
        "field lr should have a range between two literals of its type as its domain"
    );
    assert_eq!(
        CompileError::ExpectedRangeGotOther("lr".to_string()).message(),
        "field lr should have a range as its domain"
    );
    assert_eq!(
        CompileError::UnsupportedFieldType("label".to_string(), "String".to_string()).message(),
        "field label has the type String, but only i32 and f64 are supported"
    );
    assert_eq!(CompileError::NotARecord.field(), None);
    assert_eq!(CompileError::UnnamedFields.field(), None);
    assert_eq!(
        CompileError::UnsupportedFieldType("label".to_string(), "String".to_string()).field(),
        Some("label".to_string())
    );
    assert_eq!(
        CompileError::MissingDomainAttribute("lr".to_string()).field(),
        Some("lr".to_string())
    );
}
