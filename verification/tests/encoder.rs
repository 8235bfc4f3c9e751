use serde_bigquery::error::Error;
use serde_bigquery::ser::serializer::{SeqSerializer, Serializer};
use serde_bigquery::ser::struct_serializer::{
    FieldsBuffer, FieldsBufferDecision, StructSerializer,
};
use serde_bigquery::ser::typed_serializer::TypedSerializer;
use serde_bigquery::types::{Field, Type};

fn text(serializer: Serializer) -> String {
    String::from_utf8(serializer.into_inner()).unwrap()
}

fn named(field_type: Type, name: &str) -> Field {
    Field::with_type_and_name(field_type, Some(name.to_string()))
}

/// Encodes a struct of named integers as an element of `seq`.
fn push_struct(
    seq: &mut SeqSerializer,
    serializer: &mut Serializer,
    members: &[(&str, Result<i64, bool>)],
) -> Result<(), Error> {
    let typed = seq.begin_element(serializer);
    let outcome = match typed.serialize_map(serializer, Some(members.len())) {
        Ok(mut st) => {
            let mut failed = None;
            for (key, value) in members {
                match st.begin_field(serializer, Some(key)) {
                    Ok(FieldsBufferDecision::Expected) => {
                        let t = match value {
                            Ok(n) => serializer.serialize_i64(*n),
                            Err(b) => serializer.serialize_bool(*b),
                        };
                        if let Err(e) = st.end_field(serializer, Some(key), t) {
                            failed = Some(e);
                            break;
                        }
                    }
                    Ok(FieldsBufferDecision::Buffered) => {
                        let mut own = Serializer::new(Vec::new());
                        let t = match value {
                            Ok(n) => own.serialize_i64(*n),
                            Err(b) => own.serialize_bool(*b),
                        };
                        if let Err(e) = st.buffer_field(key, t, own.into_inner()) {
                            failed = Some(e);
                            break;
                        }
                    }
                    Err(e) => {
                        failed = Some(e);
                        break;
                    }
                }
            }
            match failed {
                Some(e) => Err(e),
                None => st.end(serializer),
            }
        }
        Err(e) => Err(e),
    };
    seq.end_element(outcome)
}

#[test]
fn scalars_are_written_as_literals() {
    let mut s = Serializer::new(Vec::new());
    assert_eq!(s.serialize_bool(false).unwrap(), Type::Bool);
    assert_eq!(s.take(), b"FALSE".to_vec());
    assert_eq!(s.serialize_bool(true).unwrap(), Type::Bool);
    assert_eq!(s.take(), b"TRUE".to_vec());
    assert_eq!(s.serialize_i32(42).unwrap(), Type::Number);
    assert_eq!(s.take(), b"42".to_vec());
    assert_eq!(s.serialize_float("1.25").unwrap(), Type::Number);
    assert_eq!(s.take(), b"1.25".to_vec());
    assert_eq!(s.serialize_none().unwrap(), Type::Any);
    assert_eq!(s.take(), b"NULL".to_vec());
    assert_eq!(s.serialize_unit().unwrap(), Type::Any);
    assert_eq!(s.serialize_unit_struct("Marker").unwrap(), Type::Any);
    assert_eq!(s.take(), b"NULLNULL".to_vec());
}

#[test]
fn integers_are_written_in_decimal() {
    let mut s = Serializer::new(Vec::new());
    s.serialize_i64(0).unwrap();
    assert_eq!(s.take(), b"0".to_vec());
    s.serialize_i64(-7).unwrap();
    assert_eq!(s.take(), b"-7".to_vec());
    s.serialize_i64(i64::MIN).unwrap();
    assert_eq!(s.take(), b"-9223372036854775808".to_vec());
    s.serialize_i64(i64::MAX).unwrap();
    assert_eq!(s.take(), b"9223372036854775807".to_vec());
    s.serialize_u64(u64::MAX).unwrap();
    assert_eq!(s.take(), b"18446744073709551615".to_vec());
    s.serialize_u64(1000).unwrap();
    assert_eq!(s.take(), b"1000".to_vec());
    s.serialize_i8(-128).unwrap();
    s.serialize_i16(-32768).unwrap();
    s.serialize_u8(255).unwrap();
    s.serialize_u16(65535).unwrap();
    s.serialize_u32(4294967295).unwrap();
    assert_eq!(s.take(), b"-128-32768255655354294967295".to_vec());
}

#[test]
fn strings_are_quoted_and_not_escaped() {
    let mut s = Serializer::new(Vec::new());
    assert_eq!(s.serialize_str("foo").unwrap(), Type::String);
    assert_eq!(s.take(), b"\"foo\"".to_vec());
    s.serialize_str("a\"b").unwrap();
    assert_eq!(s.take(), b"\"a\"b\"".to_vec());
    assert_eq!(s.serialize_char('x').unwrap(), Type::String);
    assert_eq!(s.take(), b"\"x\"".to_vec());
    s.serialize_char('\u{e9}').unwrap();
    assert_eq!(s.take(), "\"\u{e9}\"".as_bytes().to_vec());
    assert_eq!(s.serialize_unit_variant("Color", 1, "Green").unwrap(), Type::String);
    assert_eq!(s.take(), b"\"Green\"".to_vec());
}

#[test]
fn bytes_are_written_in_hexadecimal() {
    let mut s = Serializer::new(Vec::new());
    assert_eq!(s.serialize_bytes(b"foo").unwrap(), Type::Bytes);
    assert_eq!(text(s), r#"b"\x66\x6f\x6f""#);
    let mut s = Serializer::new(Vec::new());
    s.serialize_bytes(&[0x00, 0x0a, 0xff, 0x9c]).unwrap();
    assert_eq!(text(s), r#"b"\x00\x0a\xff\x9c""#);
    let mut s = Serializer::new(Vec::new());
    s.serialize_bytes(&[]).unwrap();
    assert_eq!(text(s), r#"b"""#);
}

#[test]
fn a_serializer_writes_behind_what_its_buffer_holds() {
    let mut s = Serializer::new(b"SELECT ".to_vec());
    s.serialize_u8(1).unwrap();
    s.write(b" + ");
    s.write_str("2");
    s.write_byte(b';');
    assert_eq!(text(s), "SELECT 1 + 2;");
}

#[test]
fn variants_that_carry_data_are_unsupported() {
    let mut s = Serializer::new(Vec::new());
    assert!(matches!(s.serialize_newtype_variant("E", 0, "V"), Err(Error::UnsupportedType)));
    assert!(matches!(s.serialize_tuple_variant("E", 0, "V", 2), Err(Error::UnsupportedType)));
    assert!(matches!(s.serialize_struct_variant("E", 0, "V", 2), Err(Error::UnsupportedType)));
    assert_eq!(s.into_inner(), Vec::<u8>::new());
}

#[test]
fn wrappers_pass_the_outcome_of_their_content_on() {
    let mut s = Serializer::new(Vec::new());
    let inner = s.serialize_i32(5);
    assert_eq!(s.serialize_some(inner).unwrap(), Type::Number);
    let inner = s.serialize_str("x");
    assert_eq!(s.serialize_newtype_struct("Wrapper", inner).unwrap(), Type::String);
    assert!(matches!(s.serialize_some(Err(Error::EmptyStruct)), Err(Error::EmptyStruct)));
    assert_eq!(text(s), "5\"x\"");
}

#[test]
fn an_array_of_integers_stands_between_brackets() {
    let mut serializer = Serializer::new(Vec::new());
    let mut seq = serializer.serialize_seq(Some(3)).unwrap();
    for v in [1, 2, 3] {
        let typed = seq.begin_element(&mut serializer);
        let t = typed.serialize_i32(&mut serializer, v);
        seq.end_element(t).unwrap();
    }
    let t = seq.end(&mut serializer).unwrap();
    assert_eq!(t, Type::Array(Box::new(Type::Number)));
    assert_eq!(text(serializer), r#"[1,2,3]"#);
}

#[test]
fn an_empty_array_is_an_array_of_anything() {
    let mut serializer = Serializer::new(Vec::new());
    let seq = serializer.serialize_seq(None).unwrap();
    assert_eq!(seq.end(&mut serializer).unwrap(), Type::any_array());
    assert_eq!(text(serializer), "[]");
}

#[test]
fn null_elements_take_the_type_of_the_others() {
    let mut serializer = Serializer::new(Vec::new());
    let mut seq = serializer.serialize_seq(None).unwrap();
    let typed = seq.begin_element(&mut serializer);
    let t = typed.serialize_none(&mut serializer);
    seq.end_element(t).unwrap();
    let typed = seq.begin_element(&mut serializer);
    let t = typed.serialize_bool(&mut serializer, true);
    seq.end_element(t).unwrap();
    let typed = seq.begin_element(&mut serializer);
    let t = typed.serialize_unit(&mut serializer);
    seq.end_element(t).unwrap();
    assert_eq!(seq.end(&mut serializer).unwrap(), Type::Array(Box::new(Type::Bool)));
    assert_eq!(text(serializer), "[NULL,TRUE,NULL]");
}

#[test]
fn a_struct_is_written_with_the_names_of_its_fields() {
    let mut serializer = Serializer::new(Vec::new());
    let mut st = serializer.serialize_struct("Test", 2).unwrap();
    assert!(matches!(
        st.begin_field(&mut serializer, Some("int")),
        Ok(FieldsBufferDecision::Expected)
    ));
    let t = serializer.serialize_u32(1);
    st.end_field(&mut serializer, Some("int"), t).unwrap();
    assert!(matches!(
        st.begin_field(&mut serializer, Some("seq")),
        Ok(FieldsBufferDecision::Expected)
    ));
    let mut seq = serializer.serialize_seq(Some(2)).unwrap();
    for v in ["a", "b"] {
        let typed = seq.begin_element(&mut serializer);
        let t = typed.serialize_str(&mut serializer, v);
        seq.end_element(t).unwrap();
    }
    let t = seq.end(&mut serializer);
    st.end_field(&mut serializer, Some("seq"), t).unwrap();
    let t = st.end(&mut serializer).unwrap();
    assert_eq!(
        t,
        Type::Struct(vec![
            named(Type::Number, "int"),
            named(Type::Array(Box::new(Type::String)), "seq"),
        ])
    );
    assert_eq!(text(serializer), r#"STRUCT(1 AS `int`,["a","b"] AS `seq`)"#);
}

#[test]
fn a_tuple_is_a_struct_without_names() {
    let mut serializer = Serializer::new(Vec::new());
    let mut st = serializer.serialize_tuple(2).unwrap();
    st.begin_field(&mut serializer, None).unwrap();
    let t = serializer.serialize_i8(1);
    st.end_field(&mut serializer, None, t).unwrap();
    st.begin_field(&mut serializer, None).unwrap();
    let t = serializer.serialize_str("x");
    st.end_field(&mut serializer, None, t).unwrap();
    let t = st.end(&mut serializer).unwrap();
    assert_eq!(
        t,
        Type::Struct(vec![
            Field::with_type_and_name(Type::Number, None),
            Field::with_type_and_name(Type::String, None),
        ])
    );
    assert_eq!(text(serializer), r#"STRUCT(1,"x")"#);
}

#[test]
fn a_member_with_the_empty_name_gets_no_suffix() {
    let mut serializer = Serializer::new(Vec::new());
    let mut st = serializer.serialize_map(None).unwrap();
    st.begin_field(&mut serializer, Some("")).unwrap();
    let t = serializer.serialize_i8(1);
    st.end_field(&mut serializer, Some(""), t).unwrap();
    assert_eq!(st.end(&mut serializer).unwrap(), Type::Struct(vec![named(Type::Number, "")]));
    assert_eq!(text(serializer), "STRUCT(1)");
}

#[test]
fn test_empty_struct() {
    let mut serializer = Serializer::new(Vec::new());
    let s = serializer.serialize_map(None).unwrap();
    assert!(s.end(&mut serializer).is_err());
}

#[test]
fn an_empty_struct_is_refused_and_never_closed() {
    let mut serializer = Serializer::new(Vec::new());
    let s = serializer.serialize_map(Some(0)).unwrap();
    assert!(matches!(s.serialize_struct_end(&mut serializer), Err(Error::EmptyStruct)));
    assert_eq!(text(serializer), "STRUCT(");

    let mut serializer = Serializer::new(Vec::new());
    assert!(matches!(serializer.serialize_tuple(0), Err(Error::EmptyStruct)));
    assert!(matches!(serializer.serialize_tuple_struct("T", 0), Err(Error::EmptyStruct)));
    assert!(matches!(serializer.serialize_struct("S", 0), Err(Error::EmptyStruct)));
    assert_eq!(text(serializer), "");
}

#[test]
fn test_array_type_checking() {
    let mut serializer = Serializer::new(Vec::new());
    let mut seq_serializer = serializer.serialize_seq(None).unwrap();
    let typed = seq_serializer.begin_element(&mut serializer);
    let t = typed.serialize_i32(&mut serializer, 1);
    seq_serializer.end_element(t).unwrap();
    let typed = seq_serializer.begin_element(&mut serializer);
    let t = typed.serialize_str(&mut serializer, "boom");
    assert!(seq_serializer.end_element(t).is_err());
}

#[test]
fn a_scalar_of_another_type_is_unexpected() {
    let typed = TypedSerializer::new(Type::Number);
    let mut serializer = Serializer::new(Vec::new());
    match typed.serialize_str(&mut serializer, "boom") {
        Err(Error::UnexpectedType { expected, found }) => {
            assert_eq!(expected, Type::Number);
            assert_eq!(found, Type::String);
        }
        other => panic!("{:?}", other),
    }
    assert!(typed.serialize_none(&mut serializer).is_ok());
    assert!(typed.serialize_u64(&mut serializer, 3).is_ok());
    assert!(matches!(
        typed.serialize_seq(&mut serializer, None),
        Err(Error::UnexpectedType { .. })
    ));
    assert!(matches!(
        typed.serialize_map(&mut serializer, None),
        Err(Error::UnexpectedType { .. })
    ));
    assert!(matches!(
        typed.serialize_newtype_variant(&mut serializer, "E", 0, "V"),
        Err(Error::UnsupportedType)
    ));
}

#[test]
fn test_array_deeper_type_checking() {
    let mut serializer = Serializer::new(Vec::new());
    let mut seq_serializer = serializer.serialize_seq(None).unwrap();
    // { x: 42 }
    let typed = seq_serializer.begin_element(&mut serializer);
    let mut st = typed.serialize_struct(&mut serializer, "Foo", 1).unwrap();
    st.begin_field(&mut serializer, Some("x")).unwrap();
    let t = serializer.serialize_u32(42);
    st.end_field(&mut serializer, Some("x"), t).unwrap();
    let t = st.end(&mut serializer);
    seq_serializer.end_element(t).unwrap();
    // { x: "boom" }
    let typed = seq_serializer.begin_element(&mut serializer);
    let mut st = typed.serialize_struct(&mut serializer, "Bar", 1).unwrap();
    st.begin_field(&mut serializer, Some("x")).unwrap();
    let t = serializer.serialize_str("boom");
    st.end_field(&mut serializer, Some("x"), t).unwrap();
    let t = st.end(&mut serializer);
    assert!(matches!(seq_serializer.end_element(t), Err(Error::UnexpectedType { .. })));
}

#[test]
fn structs_of_one_field_make_an_array() {
    let mut serializer = Serializer::new(Vec::new());
    let mut seq = serializer.serialize_seq(Some(2)).unwrap();
    push_struct(&mut seq, &mut serializer, &[("a", Ok(1))]).unwrap();
    push_struct(&mut seq, &mut serializer, &[("a", Ok(3))]).unwrap();
    seq.end(&mut serializer).unwrap();
    assert_eq!(text(serializer), r#"[STRUCT(1 AS `a`),STRUCT(3 AS `a`)]"#);
}

#[test]
fn structs_in_an_array_share_their_shape() {
    let mut serializer = Serializer::new(Vec::new());
    let mut st = serializer.serialize_map(None).unwrap();
    st.begin_field(&mut serializer, Some("a")).unwrap();
    let t = serializer.serialize_bool(false);
    st.end_field(&mut serializer, Some("a"), t).unwrap();
    st.end(&mut serializer).unwrap();
    assert_eq!(text(serializer), "STRUCT(FALSE AS `a`)");

    let mut serializer = Serializer::new(Vec::new());
    let mut seq = serializer.serialize_seq(None).unwrap();
    push_struct(&mut seq, &mut serializer, &[("a", Err(false)), ("b", Ok(1))]).unwrap();
    push_struct(&mut seq, &mut serializer, &[("a", Err(true)), ("b", Ok(2))]).unwrap();
    seq.end(&mut serializer).unwrap();
    assert_eq!(
        text(serializer),
        "[STRUCT(FALSE AS `a`,1 AS `b`),STRUCT(TRUE AS `a`,2 AS `b`)]"
    );
}

#[test]
fn members_out_of_order_are_set_aside_and_written_in_order() {
    let mut serializer = Serializer::new(Vec::new());
    let mut seq = serializer.serialize_seq(None).unwrap();
    push_struct(&mut seq, &mut serializer, &[("a", Err(false)), ("b", Ok(1))]).unwrap();
    push_struct(&mut seq, &mut serializer, &[("b", Ok(2)), ("a", Err(true))]).unwrap();
    seq.end(&mut serializer).unwrap();
    assert_eq!(
        text(serializer),
        "[STRUCT(FALSE AS `a`,1 AS `b`),STRUCT(TRUE AS `a`,2 AS `b`)]"
    );
}

#[test]
fn members_that_are_missing_are_written_as_null() {
    let mut serializer = Serializer::new(Vec::new());
    let mut seq = serializer.serialize_seq(None).unwrap();
    push_struct(&mut seq, &mut serializer, &[("a", Err(false)), ("b", Ok(1))]).unwrap();
    push_struct(&mut seq, &mut serializer, &[("a", Err(true))]).unwrap();
    let t = seq.end(&mut serializer).unwrap();
    assert_eq!(
        t,
        Type::Array(Box::new(Type::Struct(vec![
            named(Type::Bool, "a"),
            named(Type::Number, "b"),
        ])))
    );
    assert_eq!(
        text(serializer),
        "[STRUCT(FALSE AS `a`,1 AS `b`),STRUCT(TRUE AS `a`,NULL AS `b`)]"
    );
}

#[test]
fn a_member_beyond_the_expected_shape_is_refused() {
    let mut serializer = Serializer::new(Vec::new());
    let mut seq = serializer.serialize_seq(None).unwrap();
    push_struct(&mut seq, &mut serializer, &[("a", Ok(1))]).unwrap();
    match push_struct(&mut seq, &mut serializer, &[("a", Ok(2)), ("c", Ok(3))]) {
        Err(Error::UnexpectedStructField(field)) => {
            assert_eq!(field, Field::with_name(Some("c".to_string())));
        }
        other => panic!("{:?}", other),
    }
}

#[test]
fn a_member_set_aside_twice_is_a_duplicate() {
    let mut serializer = Serializer::new(Vec::new());
    let mut seq = serializer.serialize_seq(None).unwrap();
    push_struct(&mut seq, &mut serializer, &[("a", Ok(1)), ("b", Ok(1))]).unwrap();
    match push_struct(&mut seq, &mut serializer, &[("b", Ok(2)), ("b", Ok(3))]) {
        Err(Error::DuplicateStructField(name)) => assert_eq!(name, "b"),
        other => panic!("{:?}", other),
    }
}

#[test]
fn the_fields_buffer_decides_by_name_and_position() {
    let expected = vec![named(Type::Bool, "a"), Field::with_name(None), named(Type::Any, "c")];
    let mut buffer = FieldsBuffer::with_expected_fields(&expected);
    assert!(matches!(buffer.decide(Some("c")), Ok(FieldsBufferDecision::Buffered)));
    assert!(buffer.buffer("c", Type::Number, b"7".to_vec()).is_ok());
    assert!(matches!(buffer.decide(None), Ok(FieldsBufferDecision::Expected)));
    assert!(matches!(buffer.decide(Some("anything")), Ok(FieldsBufferDecision::Expected)));
    let drained = buffer.drain().unwrap();
    assert_eq!(drained.len(), 1);
    assert_eq!(drained[0].field, named(Type::Number, "c"));
    assert_eq!(drained[0].rendered, b"7".to_vec());

    let mut buffer = FieldsBuffer::with_expected_fields(&[]);
    assert!(matches!(buffer.decide(Some("a")), Err(Error::UnexpectedStructField(_))));
    assert!(buffer.drain().unwrap().is_empty());
}

#[test]
fn a_member_of_another_type_than_its_field_fails_the_close() {
    let expected = vec![named(Type::Number, "a"), named(Type::Number, "b")];
    let mut buffer = FieldsBuffer::with_expected_fields(&expected);
    assert!(matches!(buffer.decide(Some("b")), Ok(FieldsBufferDecision::Buffered)));
    buffer.buffer("b", Type::String, b"\"x\"".to_vec()).unwrap();
    match buffer.drain() {
        Err(Error::UnexpectedType { expected, found }) => {
            assert_eq!(expected, Type::Number);
            assert_eq!(found, Type::String);
        }
        other => panic!("{:?}", other),
    }
}

#[test]
fn a_member_that_no_due_field_takes_fails_the_close() {
    let expected = vec![named(Type::Number, "a"), named(Type::Number, "b")];
    let mut buffer = FieldsBuffer::with_expected_fields(&expected);
    assert!(matches!(buffer.decide(Some("c")), Ok(FieldsBufferDecision::Buffered)));
    buffer.buffer("c", Type::Number, b"3".to_vec()).unwrap();
    assert!(matches!(buffer.decide(Some("a")), Ok(FieldsBufferDecision::Expected)));
    assert!(matches!(buffer.decide(Some("b")), Ok(FieldsBufferDecision::Expected)));
    match buffer.drain() {
        Err(Error::UnexpectedStructField(field)) => assert_eq!(field, named(Type::Number, "c")),
        other => panic!("{:?}", other),
    }
}

#[test]
fn a_name_is_set_aside_once_whatever_the_type() {
    let expected = vec![named(Type::Number, "a"), named(Type::Number, "b")];
    let mut buffer = FieldsBuffer::with_expected_fields(&expected);
    buffer.buffer("b", Type::Number, b"1".to_vec()).unwrap();
    match buffer.buffer("b", Type::String, b"\"x\"".to_vec()) {
        Err(Error::DuplicateStructField(name)) => assert_eq!(name, "b"),
        other => panic!("{:?}", other),
    }
    let drained = buffer.drain().unwrap();
    assert_eq!(drained.len(), 2);
    assert_eq!(drained[0].rendered, b"NULL".to_vec());
    assert_eq!(drained[0].field, named(Type::Number, "a"));
    assert_eq!(drained[1].rendered, b"1".to_vec());
}

#[test]
fn a_due_field_takes_the_member_of_its_name_and_keeps_the_members_type() {
    let expected = vec![named(Type::Number, "a"), named(Type::Any, "b"), named(Type::Bool, "c")];
    let mut buffer = FieldsBuffer::with_expected_fields(&expected);
    buffer.buffer("c", Type::Any, b"NULL".to_vec()).unwrap();
    buffer.buffer("b", Type::String, b"\"x\"".to_vec()).unwrap();
    let drained = buffer.drain().unwrap();
    assert_eq!(drained.len(), 3);
    assert_eq!(drained[0].field, named(Type::Number, "a"));
    assert_eq!(drained[0].rendered, b"NULL".to_vec());
    assert_eq!(drained[1].field, named(Type::String, "b"));
    assert_eq!(drained[1].rendered, b"\"x\"".to_vec());
    assert_eq!(drained[2].field, named(Type::Any, "c"));
    assert_eq!(drained[2].rendered, b"NULL".to_vec());
}

#[test]
fn a_struct_with_a_member_left_over_is_not_closed() {
    let mut serializer = Serializer::new(Vec::new());
    let mut seq = serializer.serialize_seq(None).unwrap();
    push_struct(&mut seq, &mut serializer, &[("a", Ok(1)), ("b", Ok(2))]).unwrap();
    match push_struct(&mut seq, &mut serializer, &[("c", Ok(3)), ("a", Ok(4)), ("b", Ok(5))]) {
        Err(Error::UnexpectedStructField(field)) => assert_eq!(field, named(Type::Number, "c")),
        other => panic!("{:?}", other),
    }
    assert_eq!(text(serializer), "[STRUCT(1 AS `a`,2 AS `b`),STRUCT(4 AS `a`,5 AS `b`");
}

#[test]
fn a_member_out_of_order_is_held_to_the_type_of_its_field() {
    let mut serializer = Serializer::new(Vec::new());
    let mut seq = serializer.serialize_seq(None).unwrap();
    push_struct(&mut seq, &mut serializer, &[("a", Err(false)), ("b", Ok(1))]).unwrap();
    match push_struct(&mut seq, &mut serializer, &[("b", Err(true)), ("a", Err(true))]) {
        Err(Error::UnexpectedType { expected, found }) => {
            assert_eq!(expected, Type::Number);
            assert_eq!(found, Type::Bool);
        }
        other => panic!("{:?}", other),
    }
}

#[test]
fn map_keys_wait_for_their_values() {
    let mut serializer = Serializer::new(Vec::new());
    let mut st: StructSerializer = serializer.serialize_map(Some(1)).unwrap();
    assert!(!st.has_pending_key());
    st.serialize_key(Ok("k".to_string())).unwrap();
    assert!(st.has_pending_key());
    let key = st.take_key();
    assert!(!st.has_pending_key());
    st.begin_field(&mut serializer, Some(&key)).unwrap();
    let t = serializer.serialize_i32(9);
    st.end_field(&mut serializer, Some(&key), t).unwrap();
    st.end(&mut serializer).unwrap();
    assert_eq!(text(serializer), "STRUCT(9 AS `k`)");

    let mut st = StructSerializer::new();
    assert!(matches!(
        st.serialize_key(Err(Error::InvalidIdentifierType(Type::Bool))),
        Err(Error::InvalidIdentifierType(Type::Bool))
    ));
    assert!(!st.has_pending_key());
    assert!(!st.has_expected_fields());
}
