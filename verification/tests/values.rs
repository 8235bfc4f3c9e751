use serde_bigquery::{to_bytes, to_identifier, to_string, Error, Type, Value};

fn s(text: &str) -> String {
    text.to_string()
}

fn element(a: u32, b: &str) -> Value {
    Value::Struct(s("Element"), vec![(s("a"), Value::U32(a)), (s("b"), Value::Float(s(b)))])
}

fn object(members: Vec<(&str, Value)>) -> Value {
    Value::Mapping(members.into_iter().map(|(k, v)| (Value::Str(s(k)), v)).collect())
}

#[test]
fn ser_test_simple_vals() {
    assert_eq!(to_string(&Value::I32(42)).unwrap(), "42");
    assert_eq!(to_string(&Value::Bool(false)).unwrap(), "FALSE");
    assert_eq!(to_string(&Value::Bool(true)).unwrap(), "TRUE");
    assert_eq!(to_string(&Value::Float(s("1.25"))).unwrap(), "1.25");
}

#[test]
fn serializer_test_simple_vals() {
    assert_eq!(to_string(&Value::Bool(false)).unwrap(), "FALSE");
    assert_eq!(to_string(&Value::Bool(true)).unwrap(), "TRUE");
    assert_eq!(to_string(&Value::I32(42)).unwrap(), "42");
    assert_eq!(to_string(&Value::Float(s("1.25"))).unwrap(), "1.25");
}

#[test]
fn test_simple_nums() {
    assert_eq!(to_string(&Value::I32(1)).unwrap(), "1");
}

#[test]
fn ser_test_simple_strings() {
    assert_eq!(to_string(&Value::Str(s("foo"))).unwrap(), r#""foo""#);
}

#[test]
fn serializer_test_simple_strings() {
    assert_eq!(to_string(&Value::Str(s("foo"))).unwrap(), r#""foo""#);
}

#[test]
fn ser_test_simple_bytes() {
    assert_eq!(to_string(&Value::Bytes(b"foo".to_vec())).unwrap(), r#"b"\x66\x6f\x6f""#);
}

#[test]
fn serializer_test_simple_bytes() {
    assert_eq!(to_string(&Value::Bytes(b"foo".to_vec())).unwrap(), r#"b"\x66\x6f\x6f""#);
}

#[test]
fn ser_test_optional_none() {
    let x = Value::Absent;
    assert_eq!(to_string(&x).unwrap(), "NULL");
}

#[test]
fn serializer_test_optional_none() {
    let x = Value::Absent;
    assert_eq!(to_string(&x).unwrap(), "NULL");
}

#[test]
fn ser_test_vec_simple() {
    let v = Value::Sequence(vec![Value::I32(1), Value::I32(2), Value::I32(3)]);
    let expected = r#"[1,2,3]"#;
    assert_eq!(to_string(&v).unwrap(), expected);
}

#[test]
fn serializer_test_vec_simple() {
    let v = Value::Sequence(vec![Value::I32(1), Value::I32(2), Value::I32(3)]);
    let expected = r#"[1,2,3]"#;
    assert_eq!(to_string(&v).unwrap(), expected);
}

#[test]
fn ser_test_vec_complex() {
    let v = Value::Sequence(vec![element(1, "2.5"), element(3, "10.5")]);
    let expected = r#"[STRUCT(1 AS `a`,2.5 AS `b`),STRUCT(3 AS `a`,10.5 AS `b`)]"#;
    assert_eq!(to_string(&v).unwrap(), expected);
}

#[test]
fn serializer_test_vec_complex() {
    let v = Value::Sequence(vec![element(1, "2.5"), element(3, "10.5")]);
    let expected = r#"[STRUCT(1 AS `a`,2.5 AS `b`),STRUCT(3 AS `a`,10.5 AS `b`)]"#;
    assert_eq!(to_string(&v).unwrap(), expected);
}

#[test]
fn ser_test_vec_complex_single_field() {
    let v = Value::Sequence(vec![
        Value::Struct(s("Element"), vec![(s("a"), Value::U32(1))]),
        Value::Struct(s("Element"), vec![(s("a"), Value::U32(3))]),
    ]);
    let expected = r#"[STRUCT(1 AS `a`),STRUCT(3 AS `a`)]"#;
    assert_eq!(to_string(&v).unwrap(), expected);
}

#[test]
fn serializer_test_vec_complex_single_field() {
    let v = Value::Sequence(vec![
        Value::Struct(s("Element"), vec![(s("a"), Value::U32(1))]),
        Value::Struct(s("Element"), vec![(s("a"), Value::U32(3))]),
    ]);
    let expected = r#"[STRUCT(1 AS `a`),STRUCT(3 AS `a`)]"#;
    assert_eq!(to_string(&v).unwrap(), expected);
}

#[test]
fn ser_test_struct() {
    let test = Value::Struct(
        s("Test"),
        vec![
            (s("int"), Value::U32(1)),
            (s("seq"), Value::Sequence(vec![Value::Str(s("a")), Value::Str(s("b"))])),
        ],
    );
    let expected = r#"STRUCT(1 AS `int`,["a","b"] AS `seq`)"#;
    assert_eq!(to_string(&test).unwrap(), expected);
}

#[test]
fn serializer_test_struct() {
    let test = Value::Struct(
        s("Test"),
        vec![
            (s("int"), Value::U32(1)),
            (s("seq"), Value::Sequence(vec![Value::Str(s("a")), Value::Str(s("b"))])),
        ],
    );
    let expected = r#"STRUCT(1 AS `int`,["a","b"] AS `seq`)"#;
    assert_eq!(to_string(&test).unwrap(), expected);
}

#[test]
fn objects_are_structs() {
    assert_eq!(
        to_string(&object(vec![("a", Value::Bool(false))])).unwrap(),
        "STRUCT(FALSE AS `a`)"
    );
    assert_eq!(
        to_string(&Value::Sequence(vec![
            object(vec![("a", Value::Bool(false)), ("b", Value::U64(1))]),
            object(vec![("a", Value::Bool(true)), ("b", Value::U64(2))]),
        ]))
        .unwrap(),
        "[STRUCT(FALSE AS `a`,1 AS `b`),STRUCT(TRUE AS `a`,2 AS `b`)]"
    );
}

#[test]
fn fields_out_of_order_are_put_in_order() {
    assert_eq!(
        to_string(&Value::Sequence(vec![
            object(vec![("a", Value::Bool(false)), ("b", Value::U64(1))]),
            object(vec![("b", Value::U64(2)), ("a", Value::Bool(true))]),
        ]))
        .unwrap(),
        "[STRUCT(FALSE AS `a`,1 AS `b`),STRUCT(TRUE AS `a`,2 AS `b`)]"
    );
}

#[test]
fn missing_fields_become_null() {
    assert_eq!(
        to_string(&Value::Sequence(vec![
            object(vec![("a", Value::Bool(false)), ("b", Value::U64(1))]),
            object(vec![("a", Value::Bool(true))]),
        ]))
        .unwrap(),
        "[STRUCT(FALSE AS `a`,1 AS `b`),STRUCT(TRUE AS `a`,NULL AS `b`)]"
    );
    assert_eq!(
        to_string(&Value::Sequence(vec![
            object(vec![("a", Value::U8(1)), ("b", Value::U8(2)), ("c", Value::U8(3))]),
            object(vec![("c", Value::U8(6))]),
            object(vec![("b", Value::U8(8)), ("a", Value::U8(7))]),
        ]))
        .unwrap(),
        "[STRUCT(1 AS `a`,2 AS `b`,3 AS `c`),STRUCT(NULL AS `a`,NULL AS `b`,6 AS `c`),\
         STRUCT(7 AS `a`,8 AS `b`,NULL AS `c`)]"
    );
}

#[test]
fn nested_aggregates_are_set_aside_whole() {
    let first = object(vec![
        ("id", Value::U8(1)),
        ("tags", Value::Sequence(vec![Value::Str(s("x"))])),
    ]);
    let second = object(vec![
        ("tags", Value::Sequence(vec![Value::Str(s("y")), Value::Str(s("z"))])),
        ("id", Value::U8(2)),
    ]);
    assert_eq!(
        to_string(&Value::Sequence(vec![first, second])).unwrap(),
        "[STRUCT(1 AS `id`,[\"x\"] AS `tags`),STRUCT(2 AS `id`,[\"y\",\"z\"] AS `tags`)]"
    );
}

#[test]
fn empty_structs_fail() {
    assert!(matches!(to_string(&Value::Tuple(vec![])), Err(Error::EmptyStruct)));
    assert!(matches!(to_string(&Value::TupleStruct(s("T"), vec![])), Err(Error::EmptyStruct)));
    assert!(matches!(to_string(&Value::Struct(s("S"), vec![])), Err(Error::EmptyStruct)));
    assert!(matches!(to_string(&Value::Mapping(vec![])), Err(Error::EmptyStruct)));
    assert!(matches!(
        to_bytes(&Value::Sequence(vec![Value::Mapping(vec![])])),
        Err(Error::EmptyStruct)
    ));
}

#[test]
fn arrays_of_mixed_types_fail() {
    let v = Value::Sequence(vec![Value::I32(1), Value::Str(s("boom"))]);
    match to_string(&v) {
        Err(Error::UnexpectedType { expected, found }) => {
            assert_eq!(expected, Type::Number);
            assert_eq!(found, Type::String);
        }
        other => panic!("{:?}", other),
    }
    let v = Value::Sequence(vec![
        Value::Struct(s("Foo"), vec![(s("x"), Value::U32(42))]),
        Value::Struct(s("Bar"), vec![(s("x"), Value::Str(s("boom")))]),
    ]);
    assert!(matches!(to_string(&v), Err(Error::UnexpectedType { .. })));
    let v = Value::Sequence(vec![Value::I32(1), Value::Sequence(vec![])]);
    match to_string(&v) {
        Err(Error::UnexpectedType { expected, found }) => {
            assert_eq!(expected, Type::Number);
            assert_eq!(found, Type::any_array());
        }
        other => panic!("{:?}", other),
    }
    let v = Value::Sequence(vec![Value::I32(1), object(vec![("a", Value::I32(1))])]);
    match to_string(&v) {
        Err(Error::UnexpectedType { expected, found }) => {
            assert_eq!(expected, Type::Number);
            assert_eq!(found, Type::Struct(vec![]));
        }
        other => panic!("{:?}", other),
    }
}

#[test]
fn nulls_mix_with_every_type() {
    let v = Value::Sequence(vec![Value::Absent, Value::I32(1), Value::Unit, Value::I64(-2)]);
    assert_eq!(to_string(&v).unwrap(), "[NULL,1,NULL,-2]");
    let v = Value::Sequence(vec![
        Value::Sequence(vec![]),
        Value::Sequence(vec![Value::Bool(true)]),
        Value::Absent,
    ]);
    assert_eq!(to_string(&v).unwrap(), "[[],[TRUE],NULL]");
}

#[test]
fn wrapped_values_are_their_content() {
    assert_eq!(to_string(&Value::Present(Box::new(Value::U8(7)))).unwrap(), "7");
    assert_eq!(
        to_string(&Value::NewtypeStruct(s("Meters"), Box::new(Value::Float(s("1.5"))))).unwrap(),
        "1.5"
    );
    assert_eq!(to_string(&Value::Unit).unwrap(), "NULL");
    assert_eq!(to_string(&Value::UnitStruct(s("Marker"))).unwrap(), "NULL");
    assert_eq!(
        to_string(&Value::UnitVariant(s("Color"), 0, s("Red"))).unwrap(),
        "\"Red\""
    );
    assert_eq!(to_string(&Value::Char('c')).unwrap(), "\"c\"");
    let v = Value::Sequence(vec![Value::Present(Box::new(Value::U8(7))), Value::Absent]);
    assert_eq!(to_string(&v).unwrap(), "[7,NULL]");
    let v = Value::Sequence(vec![Value::U8(7), Value::Present(Box::new(Value::Str(s("x"))))]);
    assert!(matches!(to_string(&v), Err(Error::UnexpectedType { .. })));
}

#[test]
fn variants_with_data_are_unsupported() {
    let inner = Box::new(Value::U8(1));
    assert!(matches!(
        to_string(&Value::NewtypeVariant(s("E"), 0, s("V"), inner)),
        Err(Error::UnsupportedType)
    ));
    assert!(matches!(
        to_string(&Value::TupleVariant(s("E"), 0, s("V"), vec![Value::U8(1)])),
        Err(Error::UnsupportedType)
    ));
    assert!(matches!(
        to_string(&Value::StructVariant(s("E"), 0, s("V"), vec![(s("a"), Value::U8(1))])),
        Err(Error::UnsupportedType)
    ));
    let v = Value::Sequence(vec![Value::TupleVariant(s("E"), 0, s("V"), vec![])]);
    assert!(matches!(to_string(&v), Err(Error::UnsupportedType)));
}

#[test]
fn tuples_are_structs_without_names() {
    let v = Value::Tuple(vec![Value::U8(1), Value::Str(s("x"))]);
    assert_eq!(to_string(&v).unwrap(), "STRUCT(1,\"x\")");
    let v = Value::TupleStruct(s("Pair"), vec![Value::U8(1), Value::Bool(true)]);
    assert_eq!(to_string(&v).unwrap(), "STRUCT(1,TRUE)");
    let v = Value::Sequence(vec![
        Value::Tuple(vec![Value::U8(1), Value::Str(s("x"))]),
        Value::Tuple(vec![Value::U8(2), Value::Str(s("y"))]),
    ]);
    assert_eq!(to_string(&v).unwrap(), "[STRUCT(1,\"x\"),STRUCT(2,\"y\")]");
    let v = Value::Sequence(vec![
        Value::Tuple(vec![Value::U8(1)]),
        Value::Tuple(vec![Value::U8(2), Value::U8(3)]),
    ]);
    assert!(matches!(to_string(&v), Err(Error::UnexpectedStructField(_))));
}

#[test]
fn unexpected_and_duplicate_members_fail() {
    let v = Value::Sequence(vec![
        object(vec![("a", Value::U8(1))]),
        object(vec![("a", Value::U8(2)), ("c", Value::U8(3))]),
    ]);
    match to_string(&v) {
        Err(Error::UnexpectedStructField(field)) => {
            assert_eq!(field.field_name, Some(s("c")));
            assert_eq!(field.field_type, Type::Any);
        }
        other => panic!("{:?}", other),
    }
    let v = Value::Sequence(vec![
        object(vec![("a", Value::U8(1)), ("b", Value::U8(1))]),
        object(vec![("b", Value::U8(2)), ("b", Value::U8(3))]),
    ]);
    match to_string(&v) {
        Err(Error::DuplicateStructField(name)) => assert_eq!(name, "b"),
        other => panic!("{:?}", other),
    }
}

#[test]
fn map_keys_must_be_names() {
    let v = Value::Mapping(vec![(Value::U8(1), Value::U8(2))]);
    assert!(matches!(to_string(&v), Err(Error::InvalidIdentifierType(Type::Number))));
    let v = Value::Mapping(vec![(Value::Char('k'), Value::U8(2))]);
    assert_eq!(to_string(&v).unwrap(), "STRUCT(2 AS `k`)");
    let v = Value::Mapping(vec![(Value::Absent, Value::U8(2))]);
    assert_eq!(to_string(&v).unwrap(), "STRUCT(2)");
    let v = Value::Mapping(vec![(Value::Bytes(b"key".to_vec()), Value::U8(2))]);
    assert_eq!(to_string(&v).unwrap(), "STRUCT(2 AS `key`)");
}

#[test]
fn values_are_taken_as_names() {
    assert_eq!(to_identifier(&Value::Str(s("a"))).unwrap(), "a");
    assert_eq!(to_identifier(&Value::Char('a')).unwrap(), "a");
    assert_eq!(to_identifier(&Value::Absent).unwrap(), "");
    assert_eq!(to_identifier(&Value::Unit).unwrap(), "");
    assert_eq!(to_identifier(&Value::UnitStruct(s("Marker"))).unwrap(), "Marker");
    assert_eq!(to_identifier(&Value::UnitVariant(s("E"), 1, s("V"))).unwrap(), "V");
    assert_eq!(to_identifier(&Value::Present(Box::new(Value::Str(s("p"))))).unwrap(), "p");
    assert_eq!(
        to_identifier(&Value::NewtypeStruct(s("N"), Box::new(Value::Str(s("n"))))).unwrap(),
        "n"
    );
    assert_eq!(
        to_identifier(&Value::NewtypeVariant(s("E"), 0, s("V"), Box::new(Value::Str(s("v")))))
            .unwrap(),
        "v"
    );
    assert_eq!(to_identifier(&Value::Bytes("h\u{e9}".as_bytes().to_vec())).unwrap(), "h\u{e9}");
    assert!(matches!(
        to_identifier(&Value::Bytes(vec![0xc3])),
        Err(Error::InvalidIdentifierType(Type::Bytes))
    ));
    assert!(matches!(
        to_identifier(&Value::Bool(true)),
        Err(Error::InvalidIdentifierType(Type::Bool))
    ));
    assert!(matches!(
        to_identifier(&Value::Float(s("1.5"))),
        Err(Error::InvalidIdentifierType(Type::Number))
    ));
    assert!(matches!(
        to_identifier(&Value::Sequence(vec![])),
        Err(Error::InvalidIdentifierType(Type::Array(_)))
    ));
    assert!(matches!(
        to_identifier(&Value::Mapping(vec![])),
        Err(Error::InvalidIdentifierType(Type::Struct(_)))
    ));
    assert!(matches!(
        to_identifier(&Value::Tuple(vec![Value::U8(1)])),
        Err(Error::InvalidIdentifierType(Type::Struct(_)))
    ));
}

#[test]
fn strings_are_kept_as_they_are() {
    assert_eq!(to_string(&Value::Str(s("h\u{e9}\u{4e16}"))).unwrap(), "\"h\u{e9}\u{4e16}\"");
    assert_eq!(to_bytes(&Value::Str(s("a\"b"))).unwrap(), b"\"a\"b\"".to_vec());
    assert_eq!(to_string(&Value::Str(s(""))).unwrap(), "\"\"");
}
