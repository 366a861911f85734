use domain_schema::input_data::{
    from_deserializer, get_domains, read_field, DomainBuilder, DomainEntry, FieldValue,
    InputDeserializer, ReadError, ReadFault, RecordInstance,
};
use domain_schema::emit::{DomainCall, GeneratedArtifacts, ReadOp};
use domain_schema::scalar::{Bound, DomainRange, NumericKind, Scalar};

fn ints(lower: i32, upper: i32) -> DomainRange {
    DomainRange { lower: Bound::Int32(lower), upper: Bound::Int32(upper), inclusive_upper: false }
}

fn floats(lower: &str, upper: &str) -> DomainRange {
    DomainRange {
        lower: Bound::Float64(lower.to_string()),
        upper: Bound::Float64(upper.to_string()),
        inclusive_upper: true,
    }
}

fn artifacts() -> GeneratedArtifacts {
    GeneratedArtifacts {
        record_name: "Point".to_string(),
        domain_builder_chain: vec![
            DomainCall {
                field_name: "x".to_string(),
                kind: NumericKind::Int32,
                range: ints(-8, 8),
                range_expr: "-8..8".to_string(),
            },
            DomainCall {
                field_name: "w".to_string(),
                kind: NumericKind::Float64,
                range: floats("0.0", "1.0"),
                range_expr: "0.0..=1.0".to_string(),
            },
            DomainCall {
                field_name: "y".to_string(),
                kind: NumericKind::Int32,
                range: ints(0, 4),
                range_expr: "0..4".to_string(),
            },
        ],
        reconstruction_body: vec![
            ReadOp { field_name: "x".to_string(), kind: NumericKind::Int32 },
            ReadOp { field_name: "w".to_string(), kind: NumericKind::Float64 },
            ReadOp { field_name: "y".to_string(), kind: NumericKind::Int32 },
        ],
    }
}

#[test]
fn builder_keeps_registrations_in_order() {
    let builder = DomainBuilder::new();
    assert!(builder.entries.is_empty());
    let builder = builder
        .add_float64_range(floats("0.0", "1.0"), "w".to_string())
        .add_int32_range(ints(1, 9), "n".to_string());
    assert_eq!(
        builder.entries,
        vec![
            DomainEntry {
                name: "w".to_string(),
                kind: NumericKind::Float64,
                range: floats("0.0", "1.0"),
            },
            DomainEntry { name: "n".to_string(), kind: NumericKind::Int32, range: ints(1, 9) },
        ]
    );
}

#[test]
fn domains_are_registered_behind_what_the_builder_held() {
    let builder = DomainBuilder::new().add_int32_range(ints(1, 9), "seed".to_string());
    let filled = get_domains(&artifacts(), builder);
    let names: Vec<&str> = filled.entries.iter().map(|e| e.name.as_str()).collect();
    assert_eq!(names, vec!["seed", "x", "w", "y"]);
    let kinds: Vec<NumericKind> = filled.entries.iter().map(|e| e.kind).collect();
    assert_eq!(
        kinds,
        vec![NumericKind::Int32, NumericKind::Int32, NumericKind::Float64, NumericKind::Int32]
    );
    assert_eq!(filled.entries[1].range, ints(-8, 8));
    assert_eq!(filled.entries[2].range, floats("0.0", "1.0"));
    assert_eq!(filled.entries[3].range, ints(0, 4));
}

#[test]
fn stream_yields_values_in_order() {
    let mut stream = InputDeserializer::new(vec![
        Scalar::Int32(3),
        Scalar::Float64(2.5f64.to_bits()),
        Scalar::Int32(-1),
    ]);
    assert_eq!(stream.remaining(), 3);
    assert_eq!(stream.next_int32(), Ok(3));
    assert_eq!(stream.remaining(), 2);
    assert_eq!(stream.next_float64(), Ok(2.5f64.to_bits()));
    assert_eq!(stream.next_int32(), Ok(-1));
    assert_eq!(stream.remaining(), 0);
    assert_eq!(stream.next_int32(), Err(ReadFault::Exhausted));
    assert_eq!(stream.next_float64(), Err(ReadFault::Exhausted));
    assert_eq!(stream.remaining(), 0);
}

#[test]
fn read_of_another_kind_consumes_nothing() {
    let mut stream =
        InputDeserializer::new(vec![Scalar::Int32(3), Scalar::Float64(2.5f64.to_bits())]);
    assert_eq!(stream.next_float64(), Err(ReadFault::KindMismatch));
    assert_eq!(stream.remaining(), 2);
    assert_eq!(stream.next_int32(), Ok(3));
    assert_eq!(stream.next_int32(), Err(ReadFault::KindMismatch));
    assert_eq!(stream.remaining(), 1);
    assert_eq!(stream.next_float64(), Ok(2.5f64.to_bits()));
}

#[test]
fn one_read_fills_one_field() {
    let mut stream = InputDeserializer::new(vec![Scalar::Int32(3)]);
    let read = ReadOp { field_name: "x".to_string(), kind: NumericKind::Int32 };
    let wrong = ReadOp { field_name: "w".to_string(), kind: NumericKind::Float64 };
    assert_eq!(read_field(&wrong, &mut stream), Err(ReadError::KindMismatch("w".to_string())));
    assert_eq!(
        read_field(&read, &mut stream),
        Ok(FieldValue { name: "x".to_string(), value: Scalar::Int32(3) })
    );
    assert_eq!(read_field(&read, &mut stream), Err(ReadError::Exhausted("x".to_string())));
    assert_eq!(read_field(&wrong, &mut stream), Err(ReadError::Exhausted("w".to_string())));
}

#[test]
fn record_fields_equal_stream_values_by_position() {
    let values = vec![Scalar::Int32(5), Scalar::Float64(0.25f64.to_bits()), Scalar::Int32(2)];
    let mut stream = InputDeserializer::new(values.clone());
    let rebuilt = from_deserializer(&artifacts(), &mut stream).unwrap();
    assert_eq!(rebuilt.name, "Point");
    let read: Vec<Scalar> = rebuilt.fields.iter().map(|f| f.value).collect();
    assert_eq!(read, values);
    let names: Vec<&str> = rebuilt.fields.iter().map(|f| f.name.as_str()).collect();
    assert_eq!(names, vec!["x", "w", "y"]);
    assert_eq!(stream.remaining(), 0);
}

#[test]
fn rebuilding_consumes_one_value_per_field() {
    let mut stream = InputDeserializer::new(vec![
        Scalar::Int32(5),
        Scalar::Float64(0.25f64.to_bits()),
        Scalar::Int32(2),
        Scalar::Int32(99),
        Scalar::Float64(7.0f64.to_bits()),
    ]);
    let rebuilt = from_deserializer(&artifacts(), &mut stream).unwrap();
    assert_eq!(
        rebuilt,
        RecordInstance {
            name: "Point".to_string(),
            fields: vec![
                FieldValue { name: "x".to_string(), value: Scalar::Int32(5) },
                FieldValue { name: "w".to_string(), value: Scalar::Float64(0.25f64.to_bits()) },
                FieldValue { name: "y".to_string(), value: Scalar::Int32(2) },
            ],
        }
    );
    assert_eq!(stream.remaining(), 2);
    assert_eq!(stream.next_int32(), Ok(99));
}

#[test]
fn short_stream_fails_at_the_first_field_without_a_value() {
    let mut stream =
        InputDeserializer::new(vec![Scalar::Int32(5), Scalar::Float64(0.25f64.to_bits())]);
    assert_eq!(
        from_deserializer(&artifacts(), &mut stream),
        Err(ReadError::Exhausted("y".to_string()))
    );
    assert_eq!(stream.remaining(), 0);
    let mut empty = InputDeserializer::new(vec![]);
    assert_eq!(
        from_deserializer(&artifacts(), &mut empty),
        Err(ReadError::Exhausted("x".to_string()))
    );
}

#[test]
fn value_of_another_kind_fails_at_its_field() {
    let mut stream =
        InputDeserializer::new(vec![Scalar::Int32(5), Scalar::Int32(6), Scalar::Int32(7)]);
    assert_eq!(
        from_deserializer(&artifacts(), &mut stream),
        Err(ReadError::KindMismatch("w".to_string()))
    );
    assert_eq!(stream.remaining(), 2);
    assert_eq!(stream.next_int32(), Ok(6));
    let mut stream = InputDeserializer::new(vec![Scalar::Float64(0)]);
    assert_eq!(
        from_deserializer(&artifacts(), &mut stream),
        Err(ReadError::KindMismatch("x".to_string()))
    );
    assert_eq!(stream.remaining(), 1);
}
