//! Names: how a name is written in a literal, and the encoder that takes a
//! value as a name.

use crate::error::{result_view, Error, ErrorView};
use crate::ser::literal::char_to_string;
use crate::ser::unsupported::UnsupportedSerializer;
use crate::types::{fields_view, lemma_struct_view, Field, FieldView, Type, TypeView};
use crate::value::{name_of, Value};
use vstd::prelude::*;
use vstd::utf8::{decode_utf8, encode_utf8, encode_utf8_decode_utf8, valid_utf8};

verus! {

/// A name between backticks, as an identifier is written.
pub open spec fn identifier_text(name: Seq<char>) -> Seq<char> {
    seq!['`'] + name + seq!['`']
}

/// The name between backticks, as an identifier is written. A backtick
/// inside the name is not escaped, and the empty name gives two backticks.
pub fn format_as_identifier(s: &str) -> (r: String)
    ensures
        r@ == identifier_text(s@),
{
    proof {
        reveal_strlit("`");
        assert("`"@ =~= seq!['`']);
    }
    let mut result = String::from_str("`");
    result.append(s);
    result.append("`");
    result
}

/// The text as a string slice where the bytes are UTF-8, else nothing: what
/// `core::str::from_utf8` decides. The slice then holds the characters that
/// the bytes encode.
#[verifier::external_body]
fn str_from_utf8(v: &[u8]) -> (r: Option<&str>)
    ensures
        r is Some <==> valid_utf8(v@),
        r is Some ==> encode_utf8(r->Some_0@) == v@,
{
    std::str::from_utf8(v).ok()
}

/// Takes a value as a name: the text of a string, a character, a unit struct
/// or a unit variant, and of a byte sequence that is UTF-8. Every other
/// value is refused with `InvalidIdentifierType` and the type it would have
/// had as a value.
///
/// The view of an identifier serializer is the name collected so far.
#[derive(Debug)]
pub struct IdentifierSerializer {
    output: String,
}

impl View for IdentifierSerializer {
    type V = Seq<char>;

    closed spec fn view(&self) -> Seq<char> {
        self.output@
    }
}

/// The failure for a struct-like value that is offered as a name.
pub open spec fn struct_as_name() -> ErrorView {
    ErrorView::InvalidIdentifierType(TypeView::Struct(Seq::empty()))
}

impl IdentifierSerializer {
    /// An encoder that has collected nothing yet.
    pub fn new() -> (r: IdentifierSerializer)
        ensures
            r@ == Seq::<char>::empty(),
    {
        IdentifierSerializer { output: String::new() }
    }

    /// Gives up the name that was collected.
    pub fn into_output(self) -> (r: String)
        ensures
            r@ == self@,
    {
        self.output
    }

    /// A boolean is no name.
    pub fn serialize_bool(&mut self, _v: bool) -> (r: Result<Type, Error>)
        ensures
            final(self)@ == old(self)@,
            result_view(r) == Err::<TypeView, ErrorView>(
                ErrorView::InvalidIdentifierType(TypeView::Bool),
            ),
    {
        Err(Error::InvalidIdentifierType(Type::Bool))
    }

    /// An integer is no name.
    pub fn serialize_i8(&mut self, _v: i8) -> (r: Result<Type, Error>)
        ensures
            final(self)@ == old(self)@,
            result_view(r) == Err::<TypeView, ErrorView>(
                ErrorView::InvalidIdentifierType(TypeView::Number),
            ),
    {
        Err(Error::InvalidIdentifierType(Type::Number))
    }

    /// An integer is no name.
    pub fn serialize_i16(&mut self, _v: i16) -> (r: Result<Type, Error>)
        ensures
            final(self)@ == old(self)@,
            result_view(r) == Err::<TypeView, ErrorView>(
                ErrorView::InvalidIdentifierType(TypeView::Number),
            ),
    {
        Err(Error::InvalidIdentifierType(Type::Number))
    }

    /// An integer is no name.
    pub fn serialize_i32(&mut self, _v: i32) -> (r: Result<Type, Error>)
        ensures
            final(self)@ == old(self)@,
            result_view(r) == Err::<TypeView, ErrorView>(
                ErrorView::InvalidIdentifierType(TypeView::Number),
            ),
    {
        Err(Error::InvalidIdentifierType(Type::Number))
    }

    /// An integer is no name.
    pub fn serialize_i64(&mut self, _v: i64) -> (r: Result<Type, Error>)
        ensures
            final(self)@ == old(self)@,
            result_view(r) == Err::<TypeView, ErrorView>(
                ErrorView::InvalidIdentifierType(TypeView::Number),
            ),
    {
        Err(Error::InvalidIdentifierType(Type::Number))
    }

    /// An integer is no name.
    pub fn serialize_u8(&mut self, _v: u8) -> (r: Result<Type, Error>)
        ensures
            final(self)@ == old(self)@,
            result_view(r) == Err::<TypeView, ErrorView>(
                ErrorView::InvalidIdentifierType(TypeView::Number),
            ),
    {
        Err(Error::InvalidIdentifierType(Type::Number))
    }

    /// An integer is no name.
    pub fn serialize_u16(&mut self, _v: u16) -> (r: Result<Type, Error>)
        ensures
            final(self)@ == old(self)@,
            result_view(r) == Err::<TypeView, ErrorView>(
                ErrorView::InvalidIdentifierType(TypeView::Number),
            ),
    {
        Err(Error::InvalidIdentifierType(Type::Number))
    }

    /// An integer is no name.
    pub fn serialize_u32(&mut self, _v: u32) -> (r: Result<Type, Error>)
        ensures
            final(self)@ == old(self)@,
            result_view(r) == Err::<TypeView, ErrorView>(
                ErrorView::InvalidIdentifierType(TypeView::Number),
            ),
    {
        Err(Error::InvalidIdentifierType(Type::Number))
    }

    /// An integer is no name.
    pub fn serialize_u64(&mut self, _v: u64) -> (r: Result<Type, Error>)
        ensures
            final(self)@ == old(self)@,
            result_view(r) == Err::<TypeView, ErrorView>(
                ErrorView::InvalidIdentifierType(TypeView::Number),
            ),
    {
        Err(Error::InvalidIdentifierType(Type::Number))
    }

    /// A floating-point number is no name.
    pub fn serialize_float(&mut self, _text: &str) -> (r: Result<Type, Error>)
        ensures
            final(self)@ == old(self)@,
            result_view(r) == Err::<TypeView, ErrorView>(
                ErrorView::InvalidIdentifierType(TypeView::Number),
            ),
    {
        Err(Error::InvalidIdentifierType(Type::Number))
    }

    /// A character is the name of that one character.
    pub fn serialize_char(&mut self, v: char) -> (r: Result<Type, Error>)
        ensures
            final(self)@ == old(self)@ + seq![v],
            result_view(r) == Ok::<TypeView, ErrorView>(TypeView::String),
    {
        let s = char_to_string(v);
        self.serialize_str(s.as_str())
    }

    /// A string is a name as it stands.
    pub fn serialize_str(&mut self, v: &str) -> (r: Result<Type, Error>)
        ensures
            final(self)@ == old(self)@ + v@,
            result_view(r) == Ok::<TypeView, ErrorView>(TypeView::String),
    {
        self.output.append(v);
        Ok(Type::String)
    }

    /// A byte sequence is a name where it is UTF-8: the name is the text it
    /// encodes. Else it is refused.
    pub fn serialize_bytes(&mut self, v: &[u8]) -> (r: Result<Type, Error>)
        ensures
            valid_utf8(v@) ==> {
                &&& final(self)@ == old(self)@ + decode_utf8(v@)
                &&& result_view(r) == Ok::<TypeView, ErrorView>(TypeView::String)
            },
            !valid_utf8(v@) ==> {
                &&& final(self)@ == old(self)@
                &&& result_view(r) == Err::<TypeView, ErrorView>(
                    ErrorView::InvalidIdentifierType(TypeView::Bytes),
                )
            },
    {
        match str_from_utf8(v) {
            Some(s) => {
                proof {
                    encode_utf8_decode_utf8(s@);
                }
                self.serialize_str(s)
            },
            None => Err(Error::InvalidIdentifierType(Type::Bytes)),
        }
    }

    /// An absent optional value gives the name nothing and is accepted.
    pub fn serialize_none(&mut self) -> (r: Result<Type, Error>)
        ensures
            final(self)@ == old(self)@,
            result_view(r) == Ok::<TypeView, ErrorView>(TypeView::String),
    {
        Ok(Type::String)
    }

    /// A present optional value is its content: `inner` is the outcome of
    /// taking the content as a name with this encoder.
    pub fn serialize_some(&mut self, inner: Result<Type, Error>) -> (r: Result<Type, Error>)
        ensures
            final(self)@ == old(self)@,
            r == inner,
    {
        inner
    }

    /// The unit value gives the name nothing and is accepted.
    pub fn serialize_unit(&mut self) -> (r: Result<Type, Error>)
        ensures
            final(self)@ == old(self)@,
            result_view(r) == Ok::<TypeView, ErrorView>(TypeView::String),
    {
        Ok(Type::String)
    }

    /// A unit struct is named as the struct is.
    pub fn serialize_unit_struct(&mut self, name: &str) -> (r: Result<Type, Error>)
        ensures
            final(self)@ == old(self)@ + name@,
            result_view(r) == Ok::<TypeView, ErrorView>(TypeView::String),
    {
        self.serialize_str(name)
    }

    /// A unit variant is named as the variant is.
    pub fn serialize_unit_variant(&mut self, _name: &str, _variant_index: u32, variant: &str) -> (r:
        Result<Type, Error>)
        ensures
            final(self)@ == old(self)@ + variant@,
            result_view(r) == Ok::<TypeView, ErrorView>(TypeView::String),
    {
        self.serialize_str(variant)
    }

    /// A newtype struct is its content: `inner` is the outcome of taking the
    /// content as a name with this encoder.
    pub fn serialize_newtype_struct(&mut self, _name: &str, inner: Result<Type, Error>) -> (r:
        Result<Type, Error>)
        ensures
            final(self)@ == old(self)@,
            r == inner,
    {
        inner
    }

    /// A newtype variant is its content: `inner` is the outcome of taking the
    /// content as a name with this encoder.
    pub fn serialize_newtype_variant(
        &mut self,
        _name: &str,
        _variant_index: u32,
        _variant: &str,
        inner: Result<Type, Error>,
    ) -> (r: Result<Type, Error>)
        ensures
            final(self)@ == old(self)@,
            r == inner,
    {
        inner
    }

    /// A sequence is no name.
    pub fn serialize_seq(&mut self, _len: Option<usize>) -> (r: Result<
        UnsupportedSerializer,
        Error,
    >)
        ensures
            final(self)@ == old(self)@,
            r is Err,
            r->Err_0@ == ErrorView::InvalidIdentifierType(
                TypeView::Array(Box::new(TypeView::Any)),
            ),
    {
        Err(Error::InvalidIdentifierType(Type::any_array()))
    }

    /// A tuple is no name.
    pub fn serialize_tuple(&mut self, len: usize) -> (r: Result<UnsupportedSerializer, Error>)
        ensures
            final(self)@ == old(self)@,
            r is Err,
            r->Err_0@ == struct_as_name(),
    {
        self.serialize_map(Some(len))
    }

    /// A tuple struct is no name.
    pub fn serialize_tuple_struct(
        &mut self,
        _name: &str,
        len: usize,
    ) -> (r: Result<UnsupportedSerializer, Error>)
        ensures
            final(self)@ == old(self)@,
            r is Err,
            r->Err_0@ == struct_as_name(),
    {
        self.serialize_map(Some(len))
    }

    /// A tuple variant is no name.
    pub fn serialize_tuple_variant(
        &mut self,
        _name: &str,
        _variant_index: u32,
        _variant: &str,
        len: usize,
    ) -> (r: Result<UnsupportedSerializer, Error>)
        ensures
            final(self)@ == old(self)@,
            r is Err,
            r->Err_0@ == struct_as_name(),
    {
        self.serialize_map(Some(len))
    }

    /// A map is no name.
    pub fn serialize_map(&mut self, _len: Option<usize>) -> (r: Result<
        UnsupportedSerializer,
        Error,
    >)
        ensures
            final(self)@ == old(self)@,
            r is Err,
            r->Err_0@ == struct_as_name(),
    {
        let no_fields: Vec<Field> = Vec::new();
        proof {
            lemma_struct_view(no_fields);
            assert(fields_view(no_fields@) =~= Seq::<FieldView>::empty());
        }
        Err(Error::InvalidIdentifierType(Type::Struct(no_fields)))
    }

    /// A struct is no name.
    pub fn serialize_struct(
        &mut self,
        _name: &str,
        len: usize,
    ) -> (r: Result<UnsupportedSerializer, Error>)
        ensures
            final(self)@ == old(self)@,
            r is Err,
            r->Err_0@ == struct_as_name(),
    {
        self.serialize_map(Some(len))
    }

    /// A struct variant is no name.
    pub fn serialize_struct_variant(
        &mut self,
        _name: &str,
        _variant_index: u32,
        _variant: &str,
        len: usize,
    ) -> (r: Result<UnsupportedSerializer, Error>)
        ensures
            final(self)@ == old(self)@,
            r is Err,
            r->Err_0@ == struct_as_name(),
    {
        self.serialize_map(Some(len))
    }
}

/// Takes `value` as a name with `serializer`.
fn identify(serializer: &mut IdentifierSerializer, value: &Value) -> (r: Result<Type, Error>)
    ensures
        match name_of(*value) {
            Ok(name) => r is Ok && final(serializer)@ == old(serializer)@ + name,
            Err(e) => r is Err && r->Err_0@ == e,
        },
    decreases value,
{
    match value {
        Value::Bool(v) => serializer.serialize_bool(*v),
        Value::I8(v) => serializer.serialize_i8(*v),
        Value::I16(v) => serializer.serialize_i16(*v),
        Value::I32(v) => serializer.serialize_i32(*v),
        Value::I64(v) => serializer.serialize_i64(*v),
        Value::U8(v) => serializer.serialize_u8(*v),
        Value::U16(v) => serializer.serialize_u16(*v),
        Value::U32(v) => serializer.serialize_u32(*v),
        Value::U64(v) => serializer.serialize_u64(*v),
        Value::Float(text) => serializer.serialize_float(text.as_str()),
        Value::Char(v) => serializer.serialize_char(*v),
        Value::Str(v) => serializer.serialize_str(v.as_str()),
        Value::Bytes(v) => serializer.serialize_bytes(v.as_slice()),
        Value::Absent => {
            let r = serializer.serialize_none();
            assert(serializer@ =~= old(serializer)@ + Seq::<char>::empty());
            r
        },
        Value::Present(inner) => {
            let outcome = identify(serializer, &**inner);
            serializer.serialize_some(outcome)
        },
        Value::Unit => {
            let r = serializer.serialize_unit();
            assert(serializer@ =~= old(serializer)@ + Seq::<char>::empty());
            r
        },
        Value::UnitStruct(name) => serializer.serialize_unit_struct(name.as_str()),
        Value::UnitVariant(name, index, variant) => serializer.serialize_unit_variant(
            name.as_str(),
            *index,
            variant.as_str(),
        ),
        Value::NewtypeStruct(name, inner) => {
            let outcome = identify(serializer, &**inner);
            serializer.serialize_newtype_struct(name.as_str(), outcome)
        },
        Value::NewtypeVariant(name, index, variant, inner) => {
            let outcome = identify(serializer, &**inner);
            serializer.serialize_newtype_variant(name.as_str(), *index, variant.as_str(), outcome)
        },
        Value::Sequence(items) => match serializer.serialize_seq(Some(items.len())) {
            Ok(unsupported) => unsupported.end(),
            Err(e) => Err(e),
        },
        Value::Tuple(items) => match serializer.serialize_tuple(items.len()) {
            Ok(unsupported) => unsupported.end(),
            Err(e) => Err(e),
        },
        Value::TupleStruct(name, items) => match serializer.serialize_tuple_struct(
            name.as_str(),
            items.len(),
        ) {
            Ok(unsupported) => unsupported.end(),
            Err(e) => Err(e),
        },
        Value::TupleVariant(name, index, variant, items) => {
            match serializer.serialize_tuple_variant(
                name.as_str(),
                *index,
                variant.as_str(),
                items.len(),
            ) {
                Ok(unsupported) => unsupported.end(),
                Err(e) => Err(e),
            }
        },
        Value::Mapping(entries) => match serializer.serialize_map(Some(entries.len())) {
            Ok(unsupported) => unsupported.end(),
            Err(e) => Err(e),
        },
        Value::Struct(name, fields) => match serializer.serialize_struct(
            name.as_str(),
            fields.len(),
        ) {
            Ok(unsupported) => unsupported.end(),
            Err(e) => Err(e),
        },
        Value::StructVariant(name, index, variant, fields) => {
            match serializer.serialize_struct_variant(
                name.as_str(),
                *index,
                variant.as_str(),
                fields.len(),
            ) {
                Ok(unsupported) => unsupported.end(),
                Err(e) => Err(e),
            }
        },
    }
}

/// The name that `value` gives where it stands as the key of a map, or the
/// failure `InvalidIdentifierType` where it gives none.
pub fn to_identifier(value: &Value) -> (r: Result<String, Error>)
    ensures
        match name_of(*value) {
            Ok(name) => r is Ok && r->Ok_0@ == name,
            Err(e) => r is Err && r->Err_0@ == e,
        },
{
    let mut serializer = IdentifierSerializer::new();
    match identify(&mut serializer, value) {
        Ok(_) => {
            assert(serializer@ =~= name_of(*value)->Ok_0);
            Ok(serializer.into_output())
        },
        Err(e) => Err(e),
    }
}

} // verus!
