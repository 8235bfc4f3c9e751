//! The encoder for what has no literal form: it refuses every call.

use crate::error::{result_view, Error, ErrorView};
use crate::types::{Type, TypeView};
use vstd::prelude::*;

verus! {

/// Stands where an encoder is called for and the value has no literal form,
/// such as a variant that carries data. Every call fails with
/// `UnsupportedType`.
#[derive(Debug)]
pub struct UnsupportedSerializer;

impl UnsupportedSerializer {
    /// Refuses a boolean.
    pub fn serialize_bool(self, _v: bool) -> (r: Result<Type, Error>)
        ensures
            result_view(r) == Err::<TypeView, ErrorView>(ErrorView::UnsupportedType),
    {
        Err(Error::UnsupportedType)
    }

    /// Refuses an integer.
    pub fn serialize_i8(self, _v: i8) -> (r: Result<Type, Error>)
        ensures
            result_view(r) == Err::<TypeView, ErrorView>(ErrorView::UnsupportedType),
    {
        Err(Error::UnsupportedType)
    }

    /// Refuses an integer.
    pub fn serialize_i16(self, _v: i16) -> (r: Result<Type, Error>)
        ensures
            result_view(r) == Err::<TypeView, ErrorView>(ErrorView::UnsupportedType),
    {
        Err(Error::UnsupportedType)
    }

    /// Refuses an integer.
    pub fn serialize_i32(self, _v: i32) -> (r: Result<Type, Error>)
        ensures
            result_view(r) == Err::<TypeView, ErrorView>(ErrorView::UnsupportedType),
    {
        Err(Error::UnsupportedType)
    }

    /// Refuses an integer.
    pub fn serialize_i64(self, _v: i64) -> (r: Result<Type, Error>)
        ensures
            result_view(r) == Err::<TypeView, ErrorView>(ErrorView::UnsupportedType),
    {
        Err(Error::UnsupportedType)
    }

    /// Refuses an integer.
    pub fn serialize_u8(self, _v: u8) -> (r: Result<Type, Error>)
        ensures
            result_view(r) == Err::<TypeView, ErrorView>(ErrorView::UnsupportedType),
    {
        Err(Error::UnsupportedType)
    }

    /// Refuses an integer.
    pub fn serialize_u16(self, _v: u16) -> (r: Result<Type, Error>)
        ensures
            result_view(r) == Err::<TypeView, ErrorView>(ErrorView::UnsupportedType),
    {
        Err(Error::UnsupportedType)
    }

    /// Refuses an integer.
    pub fn serialize_u32(self, _v: u32) -> (r: Result<Type, Error>)
        ensures
            result_view(r) == Err::<TypeView, ErrorView>(ErrorView::UnsupportedType),
    {
        Err(Error::UnsupportedType)
    }

    /// Refuses an integer.
    pub fn serialize_u64(self, _v: u64) -> (r: Result<Type, Error>)
        ensures
            result_view(r) == Err::<TypeView, ErrorView>(ErrorView::UnsupportedType),
    {
        Err(Error::UnsupportedType)
    }

    /// Refuses a floating-point number, given as its decimal text.
    pub fn serialize_float(self, _text: &str) -> (r: Result<Type, Error>)
        ensures
            result_view(r) == Err::<TypeView, ErrorView>(ErrorView::UnsupportedType),
    {
        Err(Error::UnsupportedType)
    }

    /// Refuses a character.
    pub fn serialize_char(self, _v: char) -> (r: Result<Type, Error>)
        ensures
            result_view(r) == Err::<TypeView, ErrorView>(ErrorView::UnsupportedType),
    {
        Err(Error::UnsupportedType)
    }

    /// Refuses a string.
    pub fn serialize_str(self, _v: &str) -> (r: Result<Type, Error>)
        ensures
            result_view(r) == Err::<TypeView, ErrorView>(ErrorView::UnsupportedType),
    {
        Err(Error::UnsupportedType)
    }

    /// Refuses a byte sequence.
    pub fn serialize_bytes(self, _v: &[u8]) -> (r: Result<Type, Error>)
        ensures
            result_view(r) == Err::<TypeView, ErrorView>(ErrorView::UnsupportedType),
    {
        Err(Error::UnsupportedType)
    }

    /// Refuses an absent optional value.
    pub fn serialize_none(self) -> (r: Result<Type, Error>)
        ensures
            result_view(r) == Err::<TypeView, ErrorView>(ErrorView::UnsupportedType),
    {
        Err(Error::UnsupportedType)
    }

    /// Refuses a present optional value.
    pub fn serialize_some(self) -> (r: Result<Type, Error>)
        ensures
            result_view(r) == Err::<TypeView, ErrorView>(ErrorView::UnsupportedType),
    {
        Err(Error::UnsupportedType)
    }

    /// Refuses the unit value.
    pub fn serialize_unit(self) -> (r: Result<Type, Error>)
        ensures
            result_view(r) == Err::<TypeView, ErrorView>(ErrorView::UnsupportedType),
    {
        Err(Error::UnsupportedType)
    }

    /// Refuses a unit struct.
    pub fn serialize_unit_struct(self, _name: &str) -> (r: Result<Type, Error>)
        ensures
            result_view(r) == Err::<TypeView, ErrorView>(ErrorView::UnsupportedType),
    {
        Err(Error::UnsupportedType)
    }

    /// Refuses a unit variant.
    pub fn serialize_unit_variant(
        self,
        _name: &str,
        _variant_index: u32,
        _variant: &str,
    ) -> (r: Result<Type, Error>)
        ensures
            result_view(r) == Err::<TypeView, ErrorView>(ErrorView::UnsupportedType),
    {
        Err(Error::UnsupportedType)
    }

    /// Refuses a newtype struct.
    pub fn serialize_newtype_struct(self, _name: &str) -> (r: Result<Type, Error>)
        ensures
            result_view(r) == Err::<TypeView, ErrorView>(ErrorView::UnsupportedType),
    {
        Err(Error::UnsupportedType)
    }

    /// Refuses a newtype variant.
    pub fn serialize_newtype_variant(
        self,
        _name: &str,
        _variant_index: u32,
        _variant: &str,
    ) -> (r: Result<Type, Error>)
        ensures
            result_view(r) == Err::<TypeView, ErrorView>(ErrorView::UnsupportedType),
    {
        Err(Error::UnsupportedType)
    }

    /// Refuses to begin a sequence.
    pub fn serialize_seq(self, _len: Option<usize>) -> (r: Result<UnsupportedSerializer, Error>)
        ensures
            r is Err,
            r->Err_0@ == ErrorView::UnsupportedType,
    {
        Err(Error::UnsupportedType)
    }

    /// Refuses to begin a tuple.
    pub fn serialize_tuple(self, _len: usize) -> (r: Result<UnsupportedSerializer, Error>)
        ensures
            r is Err,
            r->Err_0@ == ErrorView::UnsupportedType,
    {
        Err(Error::UnsupportedType)
    }

    /// Refuses to begin a tuple struct.
    pub fn serialize_tuple_struct(
        self,
        _name: &str,
        _len: usize,
    ) -> (r: Result<UnsupportedSerializer, Error>)
        ensures
            r is Err,
            r->Err_0@ == ErrorView::UnsupportedType,
    {
        Err(Error::UnsupportedType)
    }

    /// Refuses to begin a tuple variant.
    pub fn serialize_tuple_variant(
        self,
        _name: &str,
        _variant_index: u32,
        _variant: &str,
        _len: usize,
    ) -> (r: Result<UnsupportedSerializer, Error>)
        ensures
            r is Err,
            r->Err_0@ == ErrorView::UnsupportedType,
    {
        Err(Error::UnsupportedType)
    }

    /// Refuses to begin a map.
    pub fn serialize_map(self, _len: Option<usize>) -> (r: Result<UnsupportedSerializer, Error>)
        ensures
            r is Err,
            r->Err_0@ == ErrorView::UnsupportedType,
    {
        Err(Error::UnsupportedType)
    }

    /// Refuses to begin a struct.
    pub fn serialize_struct(
        self,
        _name: &str,
        _len: usize,
    ) -> (r: Result<UnsupportedSerializer, Error>)
        ensures
            r is Err,
            r->Err_0@ == ErrorView::UnsupportedType,
    {
        Err(Error::UnsupportedType)
    }

    /// Refuses to begin a struct variant.
    pub fn serialize_struct_variant(
        self,
        _name: &str,
        _variant_index: u32,
        _variant: &str,
        _len: usize,
    ) -> (r: Result<UnsupportedSerializer, Error>)
        ensures
            r is Err,
            r->Err_0@ == ErrorView::UnsupportedType,
    {
        Err(Error::UnsupportedType)
    }

    /// Refuses an element of a sequence or tuple.
    pub fn serialize_element(&mut self) -> (r: Result<(), Error>)
        ensures
            r is Err,
            r->Err_0@ == ErrorView::UnsupportedType,
    {
        Err(Error::UnsupportedType)
    }

    /// Refuses a member of a struct.
    pub fn serialize_field(&mut self, _key: Option<&str>) -> (r: Result<(), Error>)
        ensures
            r is Err,
            r->Err_0@ == ErrorView::UnsupportedType,
    {
        Err(Error::UnsupportedType)
    }

    /// Refuses a key of a map.
    pub fn serialize_key(&mut self) -> (r: Result<(), Error>)
        ensures
            r is Err,
            r->Err_0@ == ErrorView::UnsupportedType,
    {
        Err(Error::UnsupportedType)
    }

    /// Refuses a value of a map.
    pub fn serialize_value(&mut self) -> (r: Result<(), Error>)
        ensures
            r is Err,
            r->Err_0@ == ErrorView::UnsupportedType,
    {
        Err(Error::UnsupportedType)
    }

    /// Refuses to close an aggregate.
    pub fn end(self) -> (r: Result<Type, Error>)
        ensures
            result_view(r) == Err::<TypeView, ErrorView>(ErrorView::UnsupportedType),
    {
        Err(Error::UnsupportedType)
    }
}

} // verus!
