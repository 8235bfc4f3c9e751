//! The encoder of an array's element: the literal encoder, held to the
//! type that the elements before have in common.

use crate::error::{result_view, Error, ErrorView};
use crate::ser::literal::{
    array_open, bool_text, bytes_text, integer_text, null_text, string_text, struct_open,
};
use crate::ser::serializer::{SeqSerializer, SeqSerializerView, Serializer};
use crate::ser::struct_serializer::{FieldsBufferView, StructSerializer, StructSerializerView};
use crate::ser::unsupported::UnsupportedSerializer;
use crate::types::{
    checked, fields_view, lemma_struct_view, CheckType, Field, FieldView, Type, TypeView,
};
use vstd::prelude::*;
use vstd::utf8::encode_utf8;

verus! {

/// Encodes one value with a [`Serializer`] and holds it to an expected type.
/// A scalar is written and then checked. An aggregate is begun only where
/// the expected type allows for one, and is then held to the expected
/// element type or to the expected fields and their order.
///
/// The view of a typed serializer is the type it expects.
#[derive(Debug)]
pub struct TypedSerializer {
    expected_type: Type,
}

impl View for TypedSerializer {
    type V = TypeView;

    closed spec fn view(&self) -> TypeView {
        self.expected_type@
    }
}

/// What beginning a struct gives where the type `expected` is expected and
/// the plain encoder gives `plain`: the same where anything is expected, the
/// same held to the expected fields where a struct is, and else the failure
/// `UnexpectedType`.
pub open spec fn expected_struct(expected: TypeView, plain: StructSerializerView) -> Result<
    StructSerializerView,
    ErrorView,
> {
    match expected {
        TypeView::Any => Ok(plain),
        TypeView::Struct(fields) => Ok(
            StructSerializerView {
                fields: plain.fields,
                pending_key: plain.pending_key,
                buffer: Some(FieldsBufferView { expected: fields, buffered: Seq::empty() }),
            },
        ),
        _ => Err(
            ErrorView::UnexpectedType { expected, found: TypeView::Struct(Seq::empty()) },
        ),
    }
}

/// Whether a struct may begin where the type `expected` is expected.
pub open spec fn allows_struct(expected: TypeView) -> bool {
    expected is Any || expected is Struct
}

/// Whether an array may begin where the type `expected` is expected.
pub open spec fn allows_array(expected: TypeView) -> bool {
    expected is Any || expected is Array
}

/// The state of a struct that has just been opened.
pub open spec fn opened_struct() -> StructSerializerView {
    StructSerializerView { fields: Seq::empty(), pending_key: None, buffer: None }
}

impl TypedSerializer {
    /// An encoder that expects `expected_type`.
    pub fn new(expected_type: Type) -> (r: TypedSerializer)
        ensures
            r@ == expected_type@,
    {
        TypedSerializer { expected_type }
    }

    /// Encodes a boolean: the literal is written, then its type is checked.
    pub fn serialize_bool(&self, serializer: &mut Serializer, v: bool) -> (r: Result<Type, Error>)
        ensures
            final(serializer)@ == old(serializer)@ + bool_text(v),
            result_view(r) == checked(Ok(TypeView::Bool), self@),
    {
        serializer.serialize_bool(v).check_type(&self.expected_type)
    }

    /// Encodes an integer: the literal is written, then its type is checked.
    pub fn serialize_i8(&self, serializer: &mut Serializer, v: i8) -> (r: Result<Type, Error>)
        ensures
            final(serializer)@ == old(serializer)@ + integer_text(v as int),
            result_view(r) == checked(Ok(TypeView::Number), self@),
    {
        serializer.serialize_i8(v).check_type(&self.expected_type)
    }

    /// Encodes an integer: the literal is written, then its type is checked.
    pub fn serialize_i16(&self, serializer: &mut Serializer, v: i16) -> (r: Result<Type, Error>)
        ensures
            final(serializer)@ == old(serializer)@ + integer_text(v as int),
            result_view(r) == checked(Ok(TypeView::Number), self@),
    {
        serializer.serialize_i16(v).check_type(&self.expected_type)
    }

    /// Encodes an integer: the literal is written, then its type is checked.
    pub fn serialize_i32(&self, serializer: &mut Serializer, v: i32) -> (r: Result<Type, Error>)
        ensures
            final(serializer)@ == old(serializer)@ + integer_text(v as int),
            result_view(r) == checked(Ok(TypeView::Number), self@),
    {
        serializer.serialize_i32(v).check_type(&self.expected_type)
    }

    /// Encodes an integer: the literal is written, then its type is checked.
    pub fn serialize_i64(&self, serializer: &mut Serializer, v: i64) -> (r: Result<Type, Error>)
        ensures
            final(serializer)@ == old(serializer)@ + integer_text(v as int),
            result_view(r) == checked(Ok(TypeView::Number), self@),
    {
        serializer.serialize_i64(v).check_type(&self.expected_type)
    }

    /// Encodes an integer: the literal is written, then its type is checked.
    pub fn serialize_u8(&self, serializer: &mut Serializer, v: u8) -> (r: Result<Type, Error>)
        ensures
            final(serializer)@ == old(serializer)@ + integer_text(v as int),
            result_view(r) == checked(Ok(TypeView::Number), self@),
    {
        serializer.serialize_u8(v).check_type(&self.expected_type)
    }

    /// Encodes an integer: the literal is written, then its type is checked.
    pub fn serialize_u16(&self, serializer: &mut Serializer, v: u16) -> (r: Result<Type, Error>)
        ensures
            final(serializer)@ == old(serializer)@ + integer_text(v as int),
            result_view(r) == checked(Ok(TypeView::Number), self@),
    {
        serializer.serialize_u16(v).check_type(&self.expected_type)
    }

    /// Encodes an integer: the literal is written, then its type is checked.
    pub fn serialize_u32(&self, serializer: &mut Serializer, v: u32) -> (r: Result<Type, Error>)
        ensures
            final(serializer)@ == old(serializer)@ + integer_text(v as int),
            result_view(r) == checked(Ok(TypeView::Number), self@),
    {
        serializer.serialize_u32(v).check_type(&self.expected_type)
    }

    /// Encodes an integer: the literal is written, then its type is checked.
    pub fn serialize_u64(&self, serializer: &mut Serializer, v: u64) -> (r: Result<Type, Error>)
        ensures
            final(serializer)@ == old(serializer)@ + integer_text(v as int),
            result_view(r) == checked(Ok(TypeView::Number), self@),
    {
        serializer.serialize_u64(v).check_type(&self.expected_type)
    }

    /// Encodes a floating-point number, given as its decimal text: the
    /// literal is written, then its type is checked.
    pub fn serialize_float(
        &self,
        serializer: &mut Serializer,
        text: &str,
    ) -> (r: Result<Type, Error>)
        ensures
            final(serializer)@ == old(serializer)@ + encode_utf8(text@),
            result_view(r) == checked(Ok(TypeView::Number), self@),
    {
        serializer.serialize_float(text).check_type(&self.expected_type)
    }

    /// Encodes a character: the literal is written, then its type is checked.
    pub fn serialize_char(&self, serializer: &mut Serializer, v: char) -> (r: Result<Type, Error>)
        ensures
            final(serializer)@ == old(serializer)@ + string_text(seq![v]),
            result_view(r) == checked(Ok(TypeView::String), self@),
    {
        serializer.serialize_char(v).check_type(&self.expected_type)
    }

    /// Encodes a string: the literal is written, then its type is checked.
    pub fn serialize_str(&self, serializer: &mut Serializer, v: &str) -> (r: Result<Type, Error>)
        ensures
            final(serializer)@ == old(serializer)@ + string_text(v@),
            result_view(r) == checked(Ok(TypeView::String), self@),
    {
        serializer.serialize_str(v).check_type(&self.expected_type)
    }

    /// Encodes a byte sequence: the literal is written, then its type is checked.
    pub fn serialize_bytes(&self, serializer: &mut Serializer, v: &[u8]) -> (r: Result<Type, Error>)
        ensures
            final(serializer)@ == old(serializer)@ + bytes_text(v@),
            result_view(r) == checked(Ok(TypeView::Bytes), self@),
    {
        serializer.serialize_bytes(v).check_type(&self.expected_type)
    }

    /// Encodes an absent optional value: the literal is written, then its type is checked.
    pub fn serialize_none(&self, serializer: &mut Serializer) -> (r: Result<Type, Error>)
        ensures
            final(serializer)@ == old(serializer)@ + null_text(),
            result_view(r) == checked(Ok(TypeView::Any), self@),
    {
        serializer.serialize_none().check_type(&self.expected_type)
    }

    /// Encodes the unit value: the literal is written, then its type is checked.
    pub fn serialize_unit(&self, serializer: &mut Serializer) -> (r: Result<Type, Error>)
        ensures
            final(serializer)@ == old(serializer)@ + null_text(),
            result_view(r) == checked(Ok(TypeView::Any), self@),
    {
        serializer.serialize_unit().check_type(&self.expected_type)
    }

    /// Encodes a unit struct: the literal is written, then its type is checked.
    pub fn serialize_unit_struct(
        &self,
        serializer: &mut Serializer,
        name: &str,
    ) -> (r: Result<Type, Error>)
        ensures
            final(serializer)@ == old(serializer)@ + null_text(),
            result_view(r) == checked(Ok(TypeView::Any), self@),
    {
        serializer.serialize_unit_struct(name).check_type(&self.expected_type)
    }

    /// Encodes a unit variant: the literal is written, then its type is checked.
    pub fn serialize_unit_variant(
        &self,
        serializer: &mut Serializer,
        name: &str,
        variant_index: u32,
        variant: &str,
    ) -> (r: Result<Type, Error>)
        ensures
            final(serializer)@ == old(serializer)@ + string_text(variant@),
            result_view(r) == checked(Ok(TypeView::String), self@),
    {
        serializer.serialize_unit_variant(name, variant_index, variant).check_type(
            &self.expected_type,
        )
    }

    /// A present optional value: the outcome `inner` of its content, checked.
    pub fn serialize_some(&self, serializer: &mut Serializer, inner: Result<Type, Error>) -> (r:
        Result<Type, Error>)
        ensures
            final(serializer)@ == old(serializer)@,
            result_view(r) == checked(result_view(inner), self@),
    {
        serializer.serialize_some(inner).check_type(&self.expected_type)
    }

    /// A newtype struct: the outcome `inner` of its content, checked.
    pub fn serialize_newtype_struct(
        &self,
        serializer: &mut Serializer,
        name: &str,
        inner: Result<Type, Error>,
    ) -> (r: Result<Type, Error>)
        ensures
            final(serializer)@ == old(serializer)@,
            result_view(r) == checked(result_view(inner), self@),
    {
        serializer.serialize_newtype_struct(name, inner).check_type(&self.expected_type)
    }

    /// A newtype variant has no literal form.
    pub fn serialize_newtype_variant(
        &self,
        serializer: &mut Serializer,
        name: &str,
        variant_index: u32,
        variant: &str,
    ) -> (r: Result<Type, Error>)
        ensures
            final(serializer)@ == old(serializer)@,
            result_view(r) == Err::<TypeView, ErrorView>(ErrorView::UnsupportedType),
    {
        serializer.serialize_newtype_variant(name, variant_index, variant).check_type(
            &self.expected_type,
        )
    }

    /// Begins an array, where anything or an array is expected; the elements
    /// are then held to the expected element type. Else nothing is written
    /// and the call fails with `UnexpectedType`.
    pub fn serialize_seq(&self, serializer: &mut Serializer, len: Option<usize>) -> (r: Result<
        SeqSerializer,
        Error,
    >)
        ensures
            match self@ {
                TypeView::Any => {
                    &&& final(serializer)@ == old(serializer)@ + array_open()
                    &&& r is Ok
                    &&& r->Ok_0@ == (SeqSerializerView {
                        has_elements: false,
                        element_type: TypeView::Any,
                    })
                },
                TypeView::Array(element_type) => {
                    &&& final(serializer)@ == old(serializer)@ + array_open()
                    &&& r is Ok
                    &&& r->Ok_0@ == (SeqSerializerView {
                        has_elements: false,
                        element_type: *element_type,
                    })
                },
                _ => {
                    &&& final(serializer)@ == old(serializer)@
                    &&& r is Err
                    &&& r->Err_0@ == (ErrorView::UnexpectedType {
                        expected: self@,
                        found: TypeView::Array(Box::new(TypeView::Any)),
                    })
                },
            },
    {
        match &self.expected_type {
            Type::Any => serializer.serialize_seq(len),
            Type::Array(element_type) => {
                let element_type = element_type.duplicate();
                match serializer.serialize_seq(len) {
                    Ok(seq) => Ok(seq.with_element_type(element_type)),
                    Err(e) => Err(e),
                }
            },
            _ => Err(
                Error::UnexpectedType {
                    expected: self.expected_type.duplicate(),
                    found: Type::any_array(),
                },
            ),
        }
    }

    /// Begins a struct for a tuple, where anything or a struct is expected;
    /// the struct is then held to the expected fields. Else nothing is
    /// written and the call fails with `UnexpectedType`. A tuple without
    /// members is refused.
    pub fn serialize_tuple(&self, serializer: &mut Serializer, len: usize) -> (r: Result<
        StructSerializer,
        Error,
    >)
        ensures
            allows_struct(self@) && len > 0 ==> {
                &&& final(serializer)@ == old(serializer)@ + struct_open()
                &&& r is Ok
                &&& Ok::<StructSerializerView, ErrorView>(r->Ok_0@) == expected_struct(
                    self@,
                    opened_struct(),
                )
            },
            allows_struct(self@) && len == 0 ==> {
                &&& final(serializer)@ == old(serializer)@
                &&& r is Err
                &&& r->Err_0@ == ErrorView::EmptyStruct
            },
            !allows_struct(self@) ==> {
                &&& final(serializer)@ == old(serializer)@
                &&& r is Err
                &&& Err::<StructSerializerView, ErrorView>(r->Err_0@) == expected_struct(
                    self@,
                    opened_struct(),
                )
            },
    {
        match &self.expected_type {
            Type::Any => serializer.serialize_tuple(len),
            Type::Struct(fields) => {
                proof {
                    lemma_struct_view(*fields);
                }
                match serializer.serialize_tuple(len) {
                    Ok(ss) => Ok(ss.with_expected_fields(fields.as_slice())),
                    Err(e) => Err(e),
                }
            },
            _ => {
                let no_fields: Vec<Field> = Vec::new();
                proof {
                    lemma_struct_view(no_fields);
                    assert(fields_view(no_fields@) =~= Seq::<FieldView>::empty());
                }
                let found = Type::Struct(no_fields);
                Err(Error::UnexpectedType { expected: self.expected_type.duplicate(), found })
            },
        }
    }

    /// Begins a struct for a tuple struct: as for a tuple.
    pub fn serialize_tuple_struct(
        &self,
        serializer: &mut Serializer,
        name: &str,
        len: usize,
    ) -> (r: Result<
        StructSerializer,
        Error,
    >)
        ensures
            allows_struct(self@) && len > 0 ==> {
                &&& final(serializer)@ == old(serializer)@ + struct_open()
                &&& r is Ok
                &&& Ok::<StructSerializerView, ErrorView>(r->Ok_0@) == expected_struct(
                    self@,
                    opened_struct(),
                )
            },
            allows_struct(self@) && len == 0 ==> {
                &&& final(serializer)@ == old(serializer)@
                &&& r is Err
                &&& r->Err_0@ == ErrorView::EmptyStruct
            },
            !allows_struct(self@) ==> {
                &&& final(serializer)@ == old(serializer)@
                &&& r is Err
                &&& Err::<StructSerializerView, ErrorView>(r->Err_0@) == expected_struct(
                    self@,
                    opened_struct(),
                )
            },
    {
        match &self.expected_type {
            Type::Any => serializer.serialize_tuple_struct(name, len),
            Type::Struct(fields) => {
                proof {
                    lemma_struct_view(*fields);
                }
                match serializer.serialize_tuple_struct(name, len) {
                    Ok(ss) => Ok(ss.with_expected_fields(fields.as_slice())),
                    Err(e) => Err(e),
                }
            },
            _ => {
                let no_fields: Vec<Field> = Vec::new();
                proof {
                    lemma_struct_view(no_fields);
                    assert(fields_view(no_fields@) =~= Seq::<FieldView>::empty());
                }
                let found = Type::Struct(no_fields);
                Err(Error::UnexpectedType { expected: self.expected_type.duplicate(), found })
            },
        }
    }

    /// A tuple variant has no literal form.
    pub fn serialize_tuple_variant(
        &self,
        serializer: &mut Serializer,
        name: &str,
        variant_index: u32,
        variant: &str,
        len: usize,
    ) -> (r: Result<UnsupportedSerializer, Error>)
        ensures
            final(serializer)@ == old(serializer)@,
            r is Err,
            r->Err_0@ == ErrorView::UnsupportedType,
    {
        serializer.serialize_tuple_variant(name, variant_index, variant, len)
    }

    /// Begins a struct for a map, where anything or a struct is expected; the
    /// struct is then held to the expected fields. Else nothing is written
    /// and the call fails with `UnexpectedType`.
    pub fn serialize_map(&self, serializer: &mut Serializer, len: Option<usize>) -> (r: Result<
        StructSerializer,
        Error,
    >)
        ensures
            allows_struct(self@) ==> {
                &&& final(serializer)@ == old(serializer)@ + struct_open()
                &&& r is Ok
                &&& Ok::<StructSerializerView, ErrorView>(r->Ok_0@) == expected_struct(
                    self@,
                    opened_struct(),
                )
            },
            !allows_struct(self@) ==> {
                &&& final(serializer)@ == old(serializer)@
                &&& r is Err
                &&& Err::<StructSerializerView, ErrorView>(r->Err_0@) == expected_struct(
                    self@,
                    opened_struct(),
                )
            },
    {
        match &self.expected_type {
            Type::Any => serializer.serialize_map(len),
            Type::Struct(fields) => {
                proof {
                    lemma_struct_view(*fields);
                }
                match serializer.serialize_map(len) {
                    Ok(ss) => Ok(ss.with_expected_fields(fields.as_slice())),
                    Err(e) => Err(e),
                }
            },
            _ => {
                let no_fields: Vec<Field> = Vec::new();
                proof {
                    lemma_struct_view(no_fields);
                    assert(fields_view(no_fields@) =~= Seq::<FieldView>::empty());
                }
                let found = Type::Struct(no_fields);
                Err(Error::UnexpectedType { expected: self.expected_type.duplicate(), found })
            },
        }
    }

    /// Begins a struct for a struct: as for a tuple.
    pub fn serialize_struct(
        &self,
        serializer: &mut Serializer,
        name: &str,
        len: usize,
    ) -> (r: Result<
        StructSerializer,
        Error,
    >)
        ensures
            allows_struct(self@) && len > 0 ==> {
                &&& final(serializer)@ == old(serializer)@ + struct_open()
                &&& r is Ok
                &&& Ok::<StructSerializerView, ErrorView>(r->Ok_0@) == expected_struct(
                    self@,
                    opened_struct(),
                )
            },
            allows_struct(self@) && len == 0 ==> {
                &&& final(serializer)@ == old(serializer)@
                &&& r is Err
                &&& r->Err_0@ == ErrorView::EmptyStruct
            },
            !allows_struct(self@) ==> {
                &&& final(serializer)@ == old(serializer)@
                &&& r is Err
                &&& Err::<StructSerializerView, ErrorView>(r->Err_0@) == expected_struct(
                    self@,
                    opened_struct(),
                )
            },
    {
        match &self.expected_type {
            Type::Any => serializer.serialize_struct(name, len),
            Type::Struct(fields) => {
                proof {
                    lemma_struct_view(*fields);
                }
                match serializer.serialize_struct(name, len) {
                    Ok(ss) => Ok(ss.with_expected_fields(fields.as_slice())),
                    Err(e) => Err(e),
                }
            },
            _ => {
                let no_fields: Vec<Field> = Vec::new();
                proof {
                    lemma_struct_view(no_fields);
                    assert(fields_view(no_fields@) =~= Seq::<FieldView>::empty());
                }
                let found = Type::Struct(no_fields);
                Err(Error::UnexpectedType { expected: self.expected_type.duplicate(), found })
            },
        }
    }

    /// A struct variant has no literal form.
    pub fn serialize_struct_variant(
        &self,
        serializer: &mut Serializer,
        name: &str,
        variant_index: u32,
        variant: &str,
        len: usize,
    ) -> (r: Result<UnsupportedSerializer, Error>)
        ensures
            final(serializer)@ == old(serializer)@,
            r is Err,
            r->Err_0@ == ErrorView::UnsupportedType,
    {
        serializer.serialize_struct_variant(name, variant_index, variant, len)
    }
}

} // verus!
