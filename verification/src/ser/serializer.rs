//! The literal encoder: one call for each kind of scalar, and one to begin
//! each kind of aggregate.

use crate::error::{result_view, Error, ErrorView};
use crate::ser::literal::{
    array_close, array_open, bool_text, bytes_text, char_to_string, integer_text, null_text,
    push_digits, push_escaped_bytes, separator, string_text, struct_open,
};
use crate::ser::struct_serializer::{StructSerializer, StructSerializerView};
use crate::ser::typed_serializer::TypedSerializer;
use crate::ser::unsupported::UnsupportedSerializer;
use crate::types::{Type, TypeView};
use vstd::prelude::*;
use vstd::utf8::encode_utf8;

verus! {

/// Writes the literal of a value, piece by piece, to the end of a buffer, and
/// tells for each piece the type it inferred.
///
/// The view of a serializer is the text written so far.
#[derive(Debug)]
pub struct Serializer {
    writer: Vec<u8>,
}

impl View for Serializer {
    type V = Seq<u8>;

    closed spec fn view(&self) -> Seq<u8> {
        self.writer@
    }
}

impl Serializer {
    /// A serializer that writes behind what `writer` holds.
    pub fn new(writer: Vec<u8>) -> (r: Serializer)
        ensures
            r@ == writer@,
    {
        Serializer { writer }
    }

    /// Gives up the buffer with everything written to it.
    pub fn into_inner(self) -> (r: Vec<u8>)
        ensures
            r@ == self@,
    {
        self.writer
    }

    /// Hands out what has been written so far and starts again from an empty
    /// buffer, so that a caller may pass the text on while the encoding goes
    /// on.
    pub fn take(&mut self) -> (r: Vec<u8>)
        ensures
            r@ == old(self)@,
            final(self)@ == Seq::<u8>::empty(),
    {
        let mut taken: Vec<u8> = Vec::new();
        taken.append(&mut self.writer);
        assert(taken@ =~= old(self)@);
        taken
    }

    /// Appends `buf`.
    pub fn write(&mut self, buf: &[u8])
        ensures
            final(self)@ == old(self)@ + buf@,
    {
        self.writer.extend_from_slice(buf);
        assert(self.writer@ =~= old(self).writer@ + buf@);
    }

    /// Appends the text `s`, in UTF-8.
    pub fn write_str(&mut self, s: &str)
        ensures
            final(self)@ == old(self)@ + encode_utf8(s@),
    {
        self.write(s.as_bytes());
    }

    /// Appends the one byte `b`.
    pub fn write_byte(&mut self, b: u8)
        ensures
            final(self)@ == old(self)@ + seq![b],
    {
        self.writer.push(b);
        assert(self.writer@ =~= old(self).writer@ + seq![b]);
    }

    /// Writes `TRUE` or `FALSE`.
    pub fn serialize_bool(&mut self, v: bool) -> (r: Result<Type, Error>)
        ensures
            final(self)@ == old(self)@ + bool_text(v),
            result_view(r) == Ok::<TypeView, ErrorView>(TypeView::Bool),
    {
        if v {
            self.write_str("TRUE");
        } else {
            self.write_str("FALSE");
        }
        Ok(Type::Bool)
    }

    /// Writes an integer in decimal.
    pub fn serialize_i8(&mut self, v: i8) -> (r: Result<Type, Error>)
        ensures
            final(self)@ == old(self)@ + integer_text(v as int),
            result_view(r) == Ok::<TypeView, ErrorView>(TypeView::Number),
    {
        self.serialize_i64(v as i64)
    }

    /// Writes an integer in decimal.
    pub fn serialize_i16(&mut self, v: i16) -> (r: Result<Type, Error>)
        ensures
            final(self)@ == old(self)@ + integer_text(v as int),
            result_view(r) == Ok::<TypeView, ErrorView>(TypeView::Number),
    {
        self.serialize_i64(v as i64)
    }

    /// Writes an integer in decimal.
    pub fn serialize_i32(&mut self, v: i32) -> (r: Result<Type, Error>)
        ensures
            final(self)@ == old(self)@ + integer_text(v as int),
            result_view(r) == Ok::<TypeView, ErrorView>(TypeView::Number),
    {
        self.serialize_i64(v as i64)
    }

    /// Writes an integer in decimal: a minus sign where it is negative, then
    /// its digits without leading zeros.
    pub fn serialize_i64(&mut self, v: i64) -> (r: Result<Type, Error>)
        ensures
            final(self)@ == old(self)@ + integer_text(v as int),
            result_view(r) == Ok::<TypeView, ErrorView>(TypeView::Number),
    {
        if v < 0 {
            let magnitude: u64 = (-(v as i128)) as u64;
            self.writer.push(45u8);
            push_digits(&mut self.writer, magnitude);
            assert(self.writer@ =~= old(self).writer@ + integer_text(v as int));
        } else {
            push_digits(&mut self.writer, v as u64);
        }
        Ok(Type::Number)
    }

    /// Writes an integer in decimal.
    pub fn serialize_u8(&mut self, v: u8) -> (r: Result<Type, Error>)
        ensures
            final(self)@ == old(self)@ + integer_text(v as int),
            result_view(r) == Ok::<TypeView, ErrorView>(TypeView::Number),
    {
        self.serialize_u64(v as u64)
    }

    /// Writes an integer in decimal.
    pub fn serialize_u16(&mut self, v: u16) -> (r: Result<Type, Error>)
        ensures
            final(self)@ == old(self)@ + integer_text(v as int),
            result_view(r) == Ok::<TypeView, ErrorView>(TypeView::Number),
    {
        self.serialize_u64(v as u64)
    }

    /// Writes an integer in decimal.
    pub fn serialize_u32(&mut self, v: u32) -> (r: Result<Type, Error>)
        ensures
            final(self)@ == old(self)@ + integer_text(v as int),
            result_view(r) == Ok::<TypeView, ErrorView>(TypeView::Number),
    {
        self.serialize_u64(v as u64)
    }

    /// Writes an integer in decimal, without leading zeros.
    pub fn serialize_u64(&mut self, v: u64) -> (r: Result<Type, Error>)
        ensures
            final(self)@ == old(self)@ + integer_text(v as int),
            result_view(r) == Ok::<TypeView, ErrorView>(TypeView::Number),
    {
        push_digits(&mut self.writer, v);
        Ok(Type::Number)
    }

    /// Writes a floating-point number. The caller renders the number, as
    /// the shortest decimal text that reads back as the same number, and
    /// hands over that text; it is written as it stands.
    pub fn serialize_float(&mut self, text: &str) -> (r: Result<Type, Error>)
        ensures
            final(self)@ == old(self)@ + encode_utf8(text@),
            result_view(r) == Ok::<TypeView, ErrorView>(TypeView::Number),
    {
        self.write_str(text);
        Ok(Type::Number)
    }

    /// Writes a character as a string of that one character.
    pub fn serialize_char(&mut self, v: char) -> (r: Result<Type, Error>)
        ensures
            final(self)@ == old(self)@ + string_text(seq![v]),
            result_view(r) == Ok::<TypeView, ErrorView>(TypeView::String),
    {
        let s = char_to_string(v);
        self.serialize_str(s.as_str())
    }

    /// Writes a string between double quotes. Nothing in it is escaped.
    pub fn serialize_str(&mut self, v: &str) -> (r: Result<Type, Error>)
        ensures
            final(self)@ == old(self)@ + string_text(v@),
            result_view(r) == Ok::<TypeView, ErrorView>(TypeView::String),
    {
        self.write_byte(34u8);
        self.write_str(v);
        self.write_byte(34u8);
        assert(self@ =~= old(self)@ + string_text(v@));
        Ok(Type::String)
    }

    /// Writes a byte sequence as a bytes literal, each byte as `\x` and two
    /// hexadecimal digits in lower case.
    pub fn serialize_bytes(&mut self, v: &[u8]) -> (r: Result<Type, Error>)
        ensures
            final(self)@ == old(self)@ + bytes_text(v@),
            result_view(r) == Ok::<TypeView, ErrorView>(TypeView::Bytes),
    {
        self.write_byte(98u8);
        self.write_byte(34u8);
        push_escaped_bytes(&mut self.writer, v);
        self.write_byte(34u8);
        assert(self@ =~= old(self)@ + bytes_text(v@));
        Ok(Type::Bytes)
    }

    /// Writes `NULL` for an absent optional value. Its type is `Any`.
    pub fn serialize_none(&mut self) -> (r: Result<Type, Error>)
        ensures
            final(self)@ == old(self)@ + null_text(),
            result_view(r) == Ok::<TypeView, ErrorView>(TypeView::Any),
    {
        self.write_str("NULL");
        Ok(Type::Any)
    }

    /// A present optional value is its content: `inner` is the outcome of
    /// encoding the content with this serializer, and is the outcome of the
    /// optional value too.
    pub fn serialize_some(&mut self, inner: Result<Type, Error>) -> (r: Result<Type, Error>)
        ensures
            final(self)@ == old(self)@,
            r == inner,
    {
        inner
    }

    /// Writes `NULL` for the unit value.
    pub fn serialize_unit(&mut self) -> (r: Result<Type, Error>)
        ensures
            final(self)@ == old(self)@ + null_text(),
            result_view(r) == Ok::<TypeView, ErrorView>(TypeView::Any),
    {
        self.serialize_none()
    }

    /// Writes `NULL` for a unit struct, whatever its name.
    pub fn serialize_unit_struct(&mut self, _name: &str) -> (r: Result<Type, Error>)
        ensures
            final(self)@ == old(self)@ + null_text(),
            result_view(r) == Ok::<TypeView, ErrorView>(TypeView::Any),
    {
        self.serialize_unit()
    }

    /// Writes a unit variant as the string of the variant's name.
    pub fn serialize_unit_variant(
        &mut self,
        _name: &str,
        _variant_index: u32,
        variant: &str,
    ) -> (r: Result<Type, Error>)
        ensures
            final(self)@ == old(self)@ + string_text(variant@),
            result_view(r) == Ok::<TypeView, ErrorView>(TypeView::String),
    {
        self.serialize_str(variant)
    }

    /// A newtype struct is its content: `inner` is the outcome of encoding
    /// the content with this serializer, and is the outcome of the struct
    /// too.
    pub fn serialize_newtype_struct(&mut self, _name: &str, inner: Result<Type, Error>) -> (r:
        Result<Type, Error>)
        ensures
            final(self)@ == old(self)@,
            r == inner,
    {
        inner
    }

    /// A newtype variant has no literal form.
    pub fn serialize_newtype_variant(
        &mut self,
        _name: &str,
        _variant_index: u32,
        _variant: &str,
    ) -> (r: Result<Type, Error>)
        ensures
            final(self)@ == old(self)@,
            result_view(r) == Err::<TypeView, ErrorView>(ErrorView::UnsupportedType),
    {
        Err(Error::UnsupportedType)
    }
    /// Begins an array: writes `[`.
    pub fn serialize_seq(&mut self, _len: Option<usize>) -> (r: Result<SeqSerializer, Error>)
        ensures
            final(self)@ == old(self)@ + array_open(),
            r is Ok,
            r->Ok_0@ == (SeqSerializerView { has_elements: false, element_type: TypeView::Any }),
    {
        self.write_byte(91u8);
        Ok(SeqSerializer::new())
    }

    /// Begins a struct for a tuple of `len` members: writes `STRUCT(`. A tuple
    /// without members is refused, and nothing is written for it.
    pub fn serialize_tuple(&mut self, len: usize) -> (r: Result<StructSerializer, Error>)
        ensures
            len > 0 ==> {
                &&& final(self)@ == old(self)@ + struct_open()
                &&& r is Ok
                &&& r->Ok_0@ == (StructSerializerView {
                    fields: Seq::empty(),
                    pending_key: None,
                    buffer: None,
                })
            },
            len == 0 ==> {
                &&& final(self)@ == old(self)@
                &&& r is Err
                &&& r->Err_0@ == ErrorView::EmptyStruct
            },
    {
        if len > 0 {
            self.write_str("STRUCT(");
            Ok(StructSerializer::new())
        } else {
            Err(Error::EmptyStruct)
        }
    }

    /// Begins a struct for a tuple struct: as for a tuple.
    pub fn serialize_tuple_struct(&mut self, _name: &str, len: usize) -> (r: Result<
        StructSerializer,
        Error,
    >)
        ensures
            len > 0 ==> {
                &&& final(self)@ == old(self)@ + struct_open()
                &&& r is Ok
                &&& r->Ok_0@ == (StructSerializerView {
                    fields: Seq::empty(),
                    pending_key: None,
                    buffer: None,
                })
            },
            len == 0 ==> {
                &&& final(self)@ == old(self)@
                &&& r is Err
                &&& r->Err_0@ == ErrorView::EmptyStruct
            },
    {
        self.serialize_tuple(len)
    }

    /// A tuple variant has no literal form.
    pub fn serialize_tuple_variant(
        &mut self,
        _name: &str,
        _variant_index: u32,
        _variant: &str,
        _len: usize,
    ) -> (r: Result<UnsupportedSerializer, Error>)
        ensures
            final(self)@ == old(self)@,
            r is Err,
            r->Err_0@ == ErrorView::UnsupportedType,
    {
        Err(Error::UnsupportedType)
    }

    /// Begins a struct for a map: writes `STRUCT(`. That the map has an entry
    /// is seen when it is closed.
    pub fn serialize_map(&mut self, _len: Option<usize>) -> (r: Result<StructSerializer, Error>)
        ensures
            final(self)@ == old(self)@ + struct_open(),
            r is Ok,
            r->Ok_0@ == (StructSerializerView {
                fields: Seq::empty(),
                pending_key: None,
                buffer: None,
            }),
    {
        self.write_str("STRUCT(");
        Ok(StructSerializer::new())
    }

    /// Begins a struct for a struct: as for a tuple.
    pub fn serialize_struct(&mut self, _name: &str, len: usize) -> (r: Result<
        StructSerializer,
        Error,
    >)
        ensures
            len > 0 ==> {
                &&& final(self)@ == old(self)@ + struct_open()
                &&& r is Ok
                &&& r->Ok_0@ == (StructSerializerView {
                    fields: Seq::empty(),
                    pending_key: None,
                    buffer: None,
                })
            },
            len == 0 ==> {
                &&& final(self)@ == old(self)@
                &&& r is Err
                &&& r->Err_0@ == ErrorView::EmptyStruct
            },
    {
        self.serialize_tuple(len)
    }

    /// A struct variant has no literal form.
    pub fn serialize_struct_variant(
        &mut self,
        _name: &str,
        _variant_index: u32,
        _variant: &str,
        _len: usize,
    ) -> (r: Result<UnsupportedSerializer, Error>)
        ensures
            final(self)@ == old(self)@,
            r is Err,
            r->Err_0@ == ErrorView::UnsupportedType,
    {
        Err(Error::UnsupportedType)
    }
}

/// The encoder of one array literal, between the `[` that opened it and the
/// `]` that closes it. It keeps whether an element has been written, and
/// the type that the elements so far have in common.
#[derive(Debug)]
pub struct SeqSerializer {
    has_elements: bool,
    element_type: Type,
}

/// The mathematical value of a [`SeqSerializer`].
pub struct SeqSerializerView {
    pub has_elements: bool,
    pub element_type: TypeView,
}

impl View for SeqSerializer {
    type V = SeqSerializerView;

    closed spec fn view(&self) -> SeqSerializerView {
        SeqSerializerView { has_elements: self.has_elements, element_type: self.element_type@ }
    }
}

impl SeqSerializer {
    /// The encoder of an array that has just been opened: no element yet, and
    /// any element type possible.
    pub fn new() -> (r: SeqSerializer)
        ensures
            r@ == (SeqSerializerView { has_elements: false, element_type: TypeView::Any }),
    {
        SeqSerializer { has_elements: false, element_type: Type::Any }
    }

    /// The same encoder, its elements held to `element_type` from the first.
    pub fn with_element_type(self, element_type: Type) -> (r: SeqSerializer)
        ensures
            r@ == (SeqSerializerView {
                has_elements: self@.has_elements,
                element_type: element_type@,
            }),
    {
        SeqSerializer { has_elements: self.has_elements, element_type }
    }

    /// Begins an element: writes the separator, and hands out the encoder
    /// that holds the element to the type of the elements before it.
    pub fn begin_element(&mut self, serializer: &mut Serializer) -> (r: TypedSerializer)
        ensures
            final(serializer)@ == old(serializer)@ + separator(!old(self)@.has_elements),
            final(self)@ == (SeqSerializerView {
                has_elements: true,
                element_type: old(self)@.element_type,
            }),
            r@ == old(self)@.element_type,
    {
        if self.has_elements {
            serializer.write_byte(44u8);
        } else {
            self.has_elements = true;
            assert(serializer@ =~= old(serializer)@ + separator(true));
        }
        TypedSerializer::new(self.element_type.duplicate())
    }

    /// Ends an element: `element` is the outcome of encoding it. A failure is
    /// passed on. Else the element's type is merged into the type of the
    /// elements so far; where the two do not merge, the array is not of one
    /// type, and the call fails with `UnexpectedType`.
    pub fn end_element(&mut self, element: Result<Type, Error>) -> (r: Result<(), Error>)
        ensures
            final(self)@.has_elements == old(self)@.has_elements,
            match element {
                Ok(found) => match old(self)@.element_type.merge(found@) {
                    Some(merged) => r is Ok && final(self)@.element_type == merged,
                    None => {
                        &&& r is Err
                        &&& r->Err_0@ == (ErrorView::UnexpectedType {
                            expected: old(self)@.element_type,
                            found: found@,
                        })
                        &&& final(self)@.element_type == old(self)@.element_type
                    },
                },
                Err(e) => {
                    &&& r == Err::<(), Error>(e)
                    &&& final(self)@.element_type == old(self)@.element_type
                },
            },
    {
        match element {
            Ok(found) => match self.element_type.merge(&found) {
                Some(merged) => {
                    self.element_type = merged;
                    Ok(())
                },
                None => Err(
                    Error::UnexpectedType { expected: self.element_type.duplicate(), found },
                ),
            },
            Err(e) => Err(e),
        }
    }

    /// Closes the array: writes `]` and returns the array's type.
    pub fn end(self, serializer: &mut Serializer) -> (r: Result<Type, Error>)
        ensures
            final(serializer)@ == old(serializer)@ + array_close(),
            result_view(r) == Ok::<TypeView, ErrorView>(
                TypeView::Array(Box::new(self@.element_type)),
            ),
    {
        serializer.write_byte(93u8);
        Ok(Type::Array(Box::new(self.element_type)))
    }
}

} // verus!
