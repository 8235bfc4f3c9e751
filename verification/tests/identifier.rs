use serde_bigquery::error::Error;
use serde_bigquery::ser::identifier::{format_as_identifier, IdentifierSerializer};
use serde_bigquery::ser::unsupported::UnsupportedSerializer;
use serde_bigquery::types::{CheckType, Field, Type};

#[test]
fn identifiers_stand_between_backticks() {
    assert_eq!(format_as_identifier("a"), "`a`");
    assert_eq!(format_as_identifier("two words"), "`two words`");
    assert_eq!(format_as_identifier(""), "``");
    assert_eq!(format_as_identifier("a`b"), "`a`b`");
}

#[test]
fn text_is_taken_as_a_name() {
    let mut s = IdentifierSerializer::new();
    assert_eq!(s.serialize_str("key").unwrap(), Type::String);
    assert_eq!(s.into_output(), "key");
    let mut s = IdentifierSerializer::new();
    assert_eq!(s.serialize_char('k').unwrap(), Type::String);
    assert_eq!(s.into_output(), "k");
    let mut s = IdentifierSerializer::new();
    assert_eq!(s.serialize_bytes("cl\u{e9}".as_bytes()).unwrap(), Type::String);
    assert_eq!(s.into_output(), "cl\u{e9}");
    let mut s = IdentifierSerializer::new();
    assert_eq!(s.serialize_unit_struct("Marker").unwrap(), Type::String);
    assert_eq!(s.into_output(), "Marker");
    let mut s = IdentifierSerializer::new();
    assert_eq!(s.serialize_unit_variant("Color", 2, "Blue").unwrap(), Type::String);
    assert_eq!(s.into_output(), "Blue");
}

#[test]
fn absent_and_unit_give_the_empty_name() {
    let mut s = IdentifierSerializer::new();
    assert_eq!(s.serialize_none().unwrap(), Type::String);
    assert_eq!(s.serialize_unit().unwrap(), Type::String);
    assert_eq!(s.into_output(), "");
}

#[test]
fn other_values_are_no_names() {
    let mut s = IdentifierSerializer::new();
    assert!(matches!(s.serialize_bool(true), Err(Error::InvalidIdentifierType(Type::Bool))));
    assert!(matches!(s.serialize_i8(1), Err(Error::InvalidIdentifierType(Type::Number))));
    assert!(matches!(s.serialize_i16(1), Err(Error::InvalidIdentifierType(Type::Number))));
    assert!(matches!(s.serialize_i32(1), Err(Error::InvalidIdentifierType(Type::Number))));
    assert!(matches!(s.serialize_i64(1), Err(Error::InvalidIdentifierType(Type::Number))));
    assert!(matches!(s.serialize_u8(1), Err(Error::InvalidIdentifierType(Type::Number))));
    assert!(matches!(s.serialize_u16(1), Err(Error::InvalidIdentifierType(Type::Number))));
    assert!(matches!(s.serialize_u32(1), Err(Error::InvalidIdentifierType(Type::Number))));
    assert!(matches!(s.serialize_u64(1), Err(Error::InvalidIdentifierType(Type::Number))));
    assert!(matches!(s.serialize_float("1.5"), Err(Error::InvalidIdentifierType(Type::Number))));
    assert!(matches!(
        s.serialize_bytes(&[0xff, 0xfe]),
        Err(Error::InvalidIdentifierType(Type::Bytes))
    ));
    match s.serialize_seq(None) {
        Err(Error::InvalidIdentifierType(t)) => assert_eq!(t, Type::any_array()),
        other => panic!("{:?}", other),
    }
    match s.serialize_map(None) {
        Err(Error::InvalidIdentifierType(t)) => assert_eq!(t, Type::Struct(vec![])),
        other => panic!("{:?}", other),
    }
    assert!(matches!(s.serialize_tuple(2), Err(Error::InvalidIdentifierType(Type::Struct(_)))));
    assert!(matches!(
        s.serialize_tuple_struct("T", 2),
        Err(Error::InvalidIdentifierType(Type::Struct(_)))
    ));
    assert!(matches!(
        s.serialize_tuple_variant("E", 0, "V", 2),
        Err(Error::InvalidIdentifierType(Type::Struct(_)))
    ));
    assert!(matches!(
        s.serialize_struct("S", 2),
        Err(Error::InvalidIdentifierType(Type::Struct(_)))
    ));
    assert!(matches!(
        s.serialize_struct_variant("E", 0, "V", 2),
        Err(Error::InvalidIdentifierType(Type::Struct(_)))
    ));
    assert_eq!(s.into_output(), "");
}

#[test]
fn the_unsupported_serializer_refuses_everything() {
    assert!(matches!(UnsupportedSerializer.serialize_bool(true), Err(Error::UnsupportedType)));
    assert!(matches!(UnsupportedSerializer.serialize_i64(1), Err(Error::UnsupportedType)));
    assert!(matches!(UnsupportedSerializer.serialize_str("x"), Err(Error::UnsupportedType)));
    assert!(matches!(UnsupportedSerializer.serialize_none(), Err(Error::UnsupportedType)));
    assert!(matches!(UnsupportedSerializer.serialize_seq(None), Err(Error::UnsupportedType)));
    assert!(matches!(UnsupportedSerializer.serialize_map(None), Err(Error::UnsupportedType)));
    let mut s = UnsupportedSerializer;
    assert!(matches!(s.serialize_element(), Err(Error::UnsupportedType)));
    assert!(matches!(s.serialize_field(Some("k")), Err(Error::UnsupportedType)));
    assert!(matches!(s.serialize_key(), Err(Error::UnsupportedType)));
    assert!(matches!(s.serialize_value(), Err(Error::UnsupportedType)));
    assert!(matches!(s.end(), Err(Error::UnsupportedType)));
}

#[test]
fn check_type_turns_a_mismatch_into_a_failure() {
    let ok: Result<Type, Error> = Ok(Type::Number);
    assert_eq!(ok.check_type(&Type::Number).unwrap(), Type::Number);
    let ok: Result<Type, Error> = Ok(Type::Number);
    assert_eq!(ok.check_type(&Type::Any).unwrap(), Type::Number);
    let ok: Result<Type, Error> = Ok(Type::Any);
    assert_eq!(ok.check_type(&Type::Bool).unwrap(), Type::Any);
    let ok: Result<Type, Error> = Ok(Type::String);
    match ok.check_type(&Type::Bool) {
        Err(Error::UnexpectedType { expected, found }) => {
            assert_eq!(expected, Type::Bool);
            assert_eq!(found, Type::String);
        }
        other => panic!("{:?}", other),
    }
    let failed: Result<Type, Error> = Err(Error::EmptyStruct);
    assert!(matches!(failed.check_type(&Type::Bool), Err(Error::EmptyStruct)));
}

#[test]
fn errors_have_messages() {
    assert_eq!(Error::Message("boom".to_string()).to_string(), "boom");
    assert_eq!(Error::UnsupportedType.to_string(), "unsupported type");
    assert_eq!(Error::EmptyStruct.to_string(), "empty struct");
    assert_eq!(
        Error::InvalidIdentifierType(Type::Bool).to_string(),
        "invalid identifier type: BOOL"
    );
    assert_eq!(
        Error::UnexpectedType { expected: Type::Number, found: Type::String }.to_string(),
        "unexpected type: STRING expected: DOUBLE"
    );
    assert_eq!(
        Error::UnexpectedStructField(Field::with_name(Some("c".to_string()))).to_string(),
        "unexpected struct field: `c` ?"
    );
    assert_eq!(
        Error::DuplicateStructField("b".to_string()).to_string(),
        "duplicate struct field: b"
    );
    let io = Error::io(std::io::Error::new(std::io::ErrorKind::Other, "disk full"));
    assert!(matches!(io, Error::IOError(_)));
    assert!(io.to_string().starts_with("I/O error: "));
    assert_eq!(io.to_string(), "I/O error: disk full");
    let fmt = Error::fmt(std::fmt::Error);
    assert!(matches!(fmt, Error::FormattingError(_)));
    assert!(fmt.to_string().starts_with("Formatting error: "));
}

#[test]
fn outside_errors_convert_into_errors() {
    let io: Error = std::io::Error::new(std::io::ErrorKind::Other, "closed").into();
    assert!(matches!(io, Error::IOError(_)));
    let fmt: Error = std::fmt::Error.into();
    assert!(matches!(fmt, Error::FormattingError(_)));
}
