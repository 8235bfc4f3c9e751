//! Encoding a value that is held in memory: the calls that the encoder is
//! driven by, made for a [`Value`] in the order in which the value presents
//! itself.

use crate::error::{result_view, Error, ErrorView};
use crate::ser::identifier::to_identifier;
use crate::ser::serializer::{SeqSerializer, Serializer};
use crate::ser::struct_serializer::{key_view, FieldsBufferDecision, StructSerializer};
use crate::ser::typed_serializer::TypedSerializer;
use crate::types::Type;
use crate::value::{
    array_tail, element_step, elements, encoded, encoded_as, lemma_elements_stay_failed,
    lemma_map_stays_failed, lemma_struct_stays_failed, lemma_tuple_stays_failed, map_members,
    member_step, name_of, struct_members, struct_tail, tuple_members, Value,
};
use crate::ser::text::encoded_text_is_utf8;
use vstd::pervasive::unreached;
use vstd::prelude::*;
use vstd::utf8::{encode_utf8, valid_utf8};

verus! {

/// Encodes `value` with `serializer`, nothing being expected of its type.
pub fn encode(serializer: &mut Serializer, value: &Value) -> (r: Result<Type, Error>)
    ensures
        final(serializer)@ == old(serializer)@ + encoded(*value).text,
        result_view(r) == encoded(*value).outcome,
    decreases value, 0nat,
{
    match value {
        Value::Bool(v) => serializer.serialize_bool(*v),
        Value::I8(v) => serializer.serialize_i8(*v),
        Value::I16(v) => serializer.serialize_i16(*v),
        Value::I32(v) => serializer.serialize_i32(*v),
        Value::I64(v) => serializer.serialize_i64(*v),
        Value::U8(v) => serializer.serialize_u8(*v),
        Value::U16(v) => serializer.serialize_u16(*v),
        Value::U32(v) => serializer.serialize_u32(*v),
        Value::U64(v) => serializer.serialize_u64(*v),
        Value::Float(text) => serializer.serialize_float(text.as_str()),
        Value::Char(v) => serializer.serialize_char(*v),
        Value::Str(v) => serializer.serialize_str(v.as_str()),
        Value::Bytes(v) => serializer.serialize_bytes(v.as_slice()),
        Value::Absent => serializer.serialize_none(),
        Value::Present(inner) => {
            let outcome = encode(serializer, &**inner);
            serializer.serialize_some(outcome)
        },
        Value::Unit => serializer.serialize_unit(),
        Value::UnitStruct(name) => serializer.serialize_unit_struct(name.as_str()),
        Value::UnitVariant(name, index, variant) => serializer.serialize_unit_variant(
            name.as_str(),
            *index,
            variant.as_str(),
        ),
        Value::NewtypeStruct(name, inner) => {
            let outcome = encode(serializer, &**inner);
            serializer.serialize_newtype_struct(name.as_str(), outcome)
        },
        Value::NewtypeVariant(name, index, variant, _) => {
            let r = serializer.serialize_newtype_variant(name.as_str(), *index, variant.as_str());
            assert(serializer@ =~= old(serializer)@ + encoded(*value).text);
            r
        },
        Value::Sequence(items) => match serializer.serialize_seq(Some(items.len())) {
            Ok(seq) => {
                let r = encode_elements(serializer, seq, items);
                assert(serializer@ =~= old(serializer)@ + encoded(*value).text);
                r
            },
            Err(e) => Err(e),
        },
        Value::Tuple(items) => match serializer.serialize_tuple(items.len()) {
            Ok(st) => {
                let r = encode_tuple(serializer, st, items);
                assert(serializer@ =~= old(serializer)@ + encoded(*value).text);
                r
            },
            Err(e) => {
                assert(serializer@ =~= old(serializer)@ + encoded(*value).text);
                Err(e)
            },
        },
        Value::TupleStruct(name, items) => match serializer.serialize_tuple_struct(
            name.as_str(),
            items.len(),
        ) {
            Ok(st) => {
                let r = encode_tuple(serializer, st, items);
                assert(serializer@ =~= old(serializer)@ + encoded(*value).text);
                r
            },
            Err(e) => {
                assert(serializer@ =~= old(serializer)@ + encoded(*value).text);
                Err(e)
            },
        },
        Value::TupleVariant(name, index, variant, items) => {
            match serializer.serialize_tuple_variant(
                name.as_str(),
                *index,
                variant.as_str(),
                items.len(),
            ) {
                Ok(unsupported) => unsupported.end(),
                Err(e) => {
                    assert(serializer@ =~= old(serializer)@ + encoded(*value).text);
                    Err(e)
                },
            }
        },
        Value::Mapping(entries) => match serializer.serialize_map(Some(entries.len())) {
            Ok(st) => {
                let r = encode_map(serializer, st, entries);
                assert(serializer@ =~= old(serializer)@ + encoded(*value).text);
                r
            },
            Err(e) => Err(e),
        },
        Value::Struct(name, fields) => match serializer.serialize_struct(
            name.as_str(),
            fields.len(),
        ) {
            Ok(st) => {
                let r = encode_struct(serializer, st, fields);
                assert(serializer@ =~= old(serializer)@ + encoded(*value).text);
                r
            },
            Err(e) => {
                assert(serializer@ =~= old(serializer)@ + encoded(*value).text);
                Err(e)
            },
        },
        Value::StructVariant(name, index, variant, fields) => {
            match serializer.serialize_struct_variant(
                name.as_str(),
                *index,
                variant.as_str(),
                fields.len(),
            ) {
                Ok(unsupported) => unsupported.end(),
                Err(e) => {
                    assert(serializer@ =~= old(serializer)@ + encoded(*value).text);
                    Err(e)
                },
            }
        },
    }
}

/// Encodes `value` with `serializer`, held to the type that `typed` expects.
pub fn encode_typed(typed: &TypedSerializer, serializer: &mut Serializer, value: &Value) -> (r:
    Result<Type, Error>)
    ensures
        final(serializer)@ == old(serializer)@ + encoded_as(*value, typed@).text,
        result_view(r) == encoded_as(*value, typed@).outcome,
    decreases value, 1nat,
{
    match value {
        Value::Bool(v) => typed.serialize_bool(serializer, *v),
        Value::I8(v) => typed.serialize_i8(serializer, *v),
        Value::I16(v) => typed.serialize_i16(serializer, *v),
        Value::I32(v) => typed.serialize_i32(serializer, *v),
        Value::I64(v) => typed.serialize_i64(serializer, *v),
        Value::U8(v) => typed.serialize_u8(serializer, *v),
        Value::U16(v) => typed.serialize_u16(serializer, *v),
        Value::U32(v) => typed.serialize_u32(serializer, *v),
        Value::U64(v) => typed.serialize_u64(serializer, *v),
        Value::Float(text) => typed.serialize_float(serializer, text.as_str()),
        Value::Char(v) => typed.serialize_char(serializer, *v),
        Value::Str(v) => typed.serialize_str(serializer, v.as_str()),
        Value::Bytes(v) => typed.serialize_bytes(serializer, v.as_slice()),
        Value::Absent => typed.serialize_none(serializer),
        Value::Present(inner) => {
            let outcome = encode(serializer, &**inner);
            typed.serialize_some(serializer, outcome)
        },
        Value::Unit => typed.serialize_unit(serializer),
        Value::UnitStruct(name) => typed.serialize_unit_struct(serializer, name.as_str()),
        Value::UnitVariant(name, index, variant) => typed.serialize_unit_variant(
            serializer,
            name.as_str(),
            *index,
            variant.as_str(),
        ),
        Value::NewtypeStruct(name, inner) => {
            let outcome = encode(serializer, &**inner);
            typed.serialize_newtype_struct(serializer, name.as_str(), outcome)
        },
        Value::NewtypeVariant(name, index, variant, _) => {
            let r = typed.serialize_newtype_variant(
                serializer,
                name.as_str(),
                *index,
                variant.as_str(),
            );
            assert(serializer@ =~= old(serializer)@ + encoded_as(*value, typed@).text);
            r
        },
        Value::Sequence(items) => match typed.serialize_seq(serializer, Some(items.len())) {
            Ok(seq) => {
                let r = encode_elements(serializer, seq, items);
                assert(serializer@ =~= old(serializer)@ + encoded_as(*value, typed@).text);
                r
            },
            Err(e) => {
                assert(serializer@ =~= old(serializer)@ + encoded_as(*value, typed@).text);
                Err(e)
            },
        },
        Value::Tuple(items) => match typed.serialize_tuple(serializer, items.len()) {
            Ok(st) => {
                let r = encode_tuple(serializer, st, items);
                assert(serializer@ =~= old(serializer)@ + encoded_as(*value, typed@).text);
                r
            },
            Err(e) => {
                assert(serializer@ =~= old(serializer)@ + encoded_as(*value, typed@).text);
                Err(e)
            },
        },
        Value::TupleStruct(name, items) => match typed.serialize_tuple_struct(
            serializer,
            name.as_str(),
            items.len(),
        ) {
            Ok(st) => {
                let r = encode_tuple(serializer, st, items);
                assert(serializer@ =~= old(serializer)@ + encoded_as(*value, typed@).text);
                r
            },
            Err(e) => {
                assert(serializer@ =~= old(serializer)@ + encoded_as(*value, typed@).text);
                Err(e)
            },
        },
        Value::TupleVariant(name, index, variant, items) => {
            match typed.serialize_tuple_variant(
                serializer,
                name.as_str(),
                *index,
                variant.as_str(),
                items.len(),
            ) {
                Ok(unsupported) => unsupported.end(),
                Err(e) => {
                    assert(serializer@ =~= old(serializer)@ + encoded_as(*value, typed@).text);
                    Err(e)
                },
            }
        },
        Value::Mapping(entries) => match typed.serialize_map(serializer, Some(entries.len())) {
            Ok(st) => {
                let r = encode_map(serializer, st, entries);
                assert(serializer@ =~= old(serializer)@ + encoded_as(*value, typed@).text);
                r
            },
            Err(e) => {
                assert(serializer@ =~= old(serializer)@ + encoded_as(*value, typed@).text);
                Err(e)
            },
        },
        Value::Struct(name, fields) => match typed.serialize_struct(
            serializer,
            name.as_str(),
            fields.len(),
        ) {
            Ok(st) => {
                let r = encode_struct(serializer, st, fields);
                assert(serializer@ =~= old(serializer)@ + encoded_as(*value, typed@).text);
                r
            },
            Err(e) => {
                assert(serializer@ =~= old(serializer)@ + encoded_as(*value, typed@).text);
                Err(e)
            },
        },
        Value::StructVariant(name, index, variant, fields) => {
            match typed.serialize_struct_variant(
                serializer,
                name.as_str(),
                *index,
                variant.as_str(),
                fields.len(),
            ) {
                Ok(unsupported) => unsupported.end(),
                Err(e) => {
                    assert(serializer@ =~= old(serializer)@ + encoded_as(*value, typed@).text);
                    Err(e)
                },
            }
        },
    }
}

/// Encodes the elements of an array that `seq` has begun, and closes it.
#[verifier::loop_isolation(false)]
fn encode_elements(serializer: &mut Serializer, seq: SeqSerializer, items: &Vec<Value>) -> (r:
    Result<Type, Error>)
    ensures
        final(serializer)@ == old(serializer)@ + array_tail(
            elements(items@, items@.len(), seq@),
        ).text,
        result_view(r) == array_tail(elements(items@, items@.len(), seq@)).outcome,
    decreases items, 0nat,
{
    let ghost start = seq@;
    let ghost written = serializer@;
    let mut seq = seq;
    let mut i: usize = 0;
    assert(serializer@ =~= written + elements(items@, 0, start).text);
    while i < items.len()
        invariant
            i <= items.len(),
            elements(items@, i as nat, start).state == Ok::<
                crate::ser::serializer::SeqSerializerView,
                ErrorView,
            >(seq@),
            serializer@ == written + elements(items@, i as nat, start).text,
        decreases items.len() - i,
    {
        let ghost before = serializer@;
        let ghost state = seq@;
        let typed = seq.begin_element(serializer);
        let outcome = encode_typed(&typed, serializer, &items[i]);
        let ended = seq.end_element(outcome);
        proof {
            let step = element_step(state, encoded_as(items@[i as int], state.element_type));
            assert(serializer@ =~= before + step.text);
            assert(elements(items@, (i + 1) as nat, start).text =~= elements(
                items@,
                i as nat,
                start,
            ).text + step.text);
            assert(elements(items@, (i + 1) as nat, start).state == step.state);
        }
        match ended {
            Ok(()) => {},
            Err(e) => {
                proof {
                    lemma_elements_stay_failed(
                        items@,
                        (i + 1) as nat,
                        items@.len(),
                        start,
                    );
                }
                return Err(e);
            },
        }
        i += 1;
    }
    seq.end(serializer)
}

/// Encodes one member of a struct: its value in its place where the member
/// is due, else into a buffer of its own, to be set aside.
fn encode_member(
    serializer: &mut Serializer,
    st: &mut StructSerializer,
    key: Option<&str>,
    value: &Value,
) -> (r: Result<(), Error>)
    ensures
        final(serializer)@ == old(serializer)@ + member_step(
            old(st)@,
            key_view(key),
            encoded(*value),
        ).text,
        match member_step(old(st)@, key_view(key), encoded(*value)).state {
            Ok(state) => r is Ok && final(st)@ == state,
            Err(e) => r is Err && r->Err_0@ == e,
        },
    decreases value, 1nat,
{
    match st.begin_field(serializer, key) {
        Ok(FieldsBufferDecision::Expected) => {
            let outcome = encode(serializer, value);
            let r = st.end_field(serializer, key, outcome);
            proof {
                let step = member_step(old(st)@, key_view(key), encoded(*value));
                assert(serializer@ =~= old(serializer)@ + step.text);
                if step.state is Ok {
                    assert(st@ =~= step.state->Ok_0);
                }
            }
            r
        },
        Ok(FieldsBufferDecision::Buffered) => {
            let mut own = Serializer::new(Vec::new());
            let outcome = encode(&mut own, value);
            assert(own@ =~= encoded(*value).text);
            let r = match key {
                Some(name) => st.buffer_field(name, outcome, own.into_inner()),
                None => Ok(()),
            };
            proof {
                let step = member_step(old(st)@, key_view(key), encoded(*value));
                assert(serializer@ =~= old(serializer)@ + step.text);
                if step.state is Ok {
                    assert(st@ =~= step.state->Ok_0);
                }
            }
            r
        },
        Err(e) => {
            assert(serializer@ =~= old(serializer)@ + Seq::<u8>::empty());
            Err(e)
        },
    }
}

/// Encodes the members of a tuple as a struct that `st` has begun, and
/// closes it.
#[verifier::loop_isolation(false)]
fn encode_tuple(serializer: &mut Serializer, st: StructSerializer, items: &Vec<Value>) -> (r:
    Result<Type, Error>)
    ensures
        final(serializer)@ == old(serializer)@ + struct_tail(
            tuple_members(items@, items@.len(), st@),
        ).text,
        result_view(r) == struct_tail(tuple_members(items@, items@.len(), st@)).outcome,
    decreases items, 0nat,
{
    let ghost start = st@;
    let ghost written = serializer@;
    let mut st = st;
    let mut i: usize = 0;
    assert(serializer@ =~= written + tuple_members(items@, 0, start).text);
    while i < items.len()
        invariant
            i <= items.len(),
            tuple_members(items@, i as nat, start).state == Ok::<
                crate::ser::struct_serializer::StructSerializerView,
                ErrorView,
            >(st@),
            serializer@ == written + tuple_members(items@, i as nat, start).text,
        decreases items.len() - i,
    {
        let ghost before = serializer@;
        let ghost state = st@;
        let ended = encode_member(serializer, &mut st, None, &items[i]);
        proof {
            let step = member_step(state, None, encoded(items@[i as int]));
            assert(tuple_members(items@, (i + 1) as nat, start).text =~= tuple_members(
                items@,
                i as nat,
                start,
            ).text + step.text);
            assert(tuple_members(items@, (i + 1) as nat, start).state == step.state);
        }
        match ended {
            Ok(()) => {},
            Err(e) => {
                proof {
                    lemma_tuple_stays_failed(items@, (i + 1) as nat, items@.len(), start);
                }
                return Err(e);
            },
        }
        i += 1;
    }
    let r = st.end(serializer);
    assert(serializer@ =~= written + struct_tail(tuple_members(items@, items@.len(), start)).text);
    r
}

/// Encodes the fields of a struct that `st` has begun, each under its name,
/// and closes it.
#[verifier::loop_isolation(false)]
fn encode_struct(
    serializer: &mut Serializer,
    st: StructSerializer,
    fields: &Vec<(String, Value)>,
) -> (r: Result<Type, Error>)
    ensures
        final(serializer)@ == old(serializer)@ + struct_tail(
            struct_members(fields@, fields@.len(), st@),
        ).text,
        result_view(r) == struct_tail(struct_members(fields@, fields@.len(), st@)).outcome,
    decreases fields, 0nat,
{
    let ghost start = st@;
    let ghost written = serializer@;
    let mut st = st;
    let mut i: usize = 0;
    assert(serializer@ =~= written + struct_members(fields@, 0, start).text);
    while i < fields.len()
        invariant
            i <= fields.len(),
            struct_members(fields@, i as nat, start).state == Ok::<
                crate::ser::struct_serializer::StructSerializerView,
                ErrorView,
            >(st@),
            serializer@ == written + struct_members(fields@, i as nat, start).text,
        decreases fields.len() - i,
    {
        let ghost before = serializer@;
        let ghost state = st@;
        let field = &fields[i];
        proof {
            assert(decreases_to!(fields => fields[i as int]));
            assert(decreases_to!(fields[i as int] => fields[i as int].1));
        }
        let ended = encode_member(serializer, &mut st, Some(field.0.as_str()), &field.1);
        proof {
            let step = member_step(
                state,
                Some(fields@[i as int].0@),
                encoded(fields@[i as int].1),
            );
            assert(struct_members(fields@, (i + 1) as nat, start).text =~= struct_members(
                fields@,
                i as nat,
                start,
            ).text + step.text);
            assert(struct_members(fields@, (i + 1) as nat, start).state == step.state);
        }
        match ended {
            Ok(()) => {},
            Err(e) => {
                proof {
                    lemma_struct_stays_failed(fields@, (i + 1) as nat, fields@.len(), start);
                }
                return Err(e);
            },
        }
        i += 1;
    }
    let r = st.end(serializer);
    assert(serializer@ =~= written + struct_tail(
        struct_members(fields@, fields@.len(), start),
    ).text);
    r
}

/// Encodes the entries of a map as a struct that `st` has begun, each value
/// under the name that its key gives, and closes it.
#[verifier::loop_isolation(false)]
fn encode_map(
    serializer: &mut Serializer,
    st: StructSerializer,
    entries: &Vec<(Value, Value)>,
) -> (r: Result<Type, Error>)
    requires
        st@.pending_key is None,
    ensures
        final(serializer)@ == old(serializer)@ + struct_tail(
            map_members(entries@, entries@.len(), st@),
        ).text,
        result_view(r) == struct_tail(map_members(entries@, entries@.len(), st@)).outcome,
    decreases entries, 0nat,
{
    let ghost start = st@;
    let ghost written = serializer@;
    let mut st = st;
    let mut i: usize = 0;
    assert(serializer@ =~= written + map_members(entries@, 0, start).text);
    while i < entries.len()
        invariant
            i <= entries.len(),
            st@.pending_key is None,
            map_members(entries@, i as nat, start).state == Ok::<
                crate::ser::struct_serializer::StructSerializerView,
                ErrorView,
            >(st@),
            serializer@ == written + map_members(entries@, i as nat, start).text,
        decreases entries.len() - i,
    {
        let ghost before = serializer@;
        let ghost state = st@;
        let entry = &entries[i];
        proof {
            assert(decreases_to!(entries => entries[i as int]));
            assert(decreases_to!(entries[i as int] => entries[i as int].1));
        }
        let ended = match st.serialize_key(to_identifier(&entry.0)) {
            Ok(()) => {
                let key = st.take_key();
                assert(st@ =~= state);
                encode_member(serializer, &mut st, Some(key.as_str()), &entry.1)
            },
            Err(e) => {
                assert(serializer@ =~= before + Seq::<u8>::empty());
                Err(e)
            },
        };
        proof {
            match name_of(entries@[i as int].0) {
                Ok(name) => {
                    let step = member_step(state, Some(name), encoded(entries@[i as int].1));
                    assert(map_members(entries@, (i + 1) as nat, start).text =~= map_members(
                        entries@,
                        i as nat,
                        start,
                    ).text + step.text);
                    assert(map_members(entries@, (i + 1) as nat, start).state == step.state);
                },
                Err(e) => {
                    assert(map_members(entries@, (i + 1) as nat, start).text =~= map_members(
                        entries@,
                        i as nat,
                        start,
                    ).text);
                },
            }
        }
        match ended {
            Ok(()) => {},
            Err(e) => {
                proof {
                    lemma_map_stays_failed(entries@, (i + 1) as nat, entries@.len(), start);
                }
                return Err(e);
            },
        }
        i += 1;
    }
    let r = st.end(serializer);
    assert(serializer@ =~= written + struct_tail(
        map_members(entries@, entries@.len(), start),
    ).text);
    r
}

/// The literal of `value`, as bytes: the text that the encoder writes for it
/// where the encoding succeeds, else the failure it ends with.
pub fn to_bytes(value: &Value) -> (r: Result<Vec<u8>, Error>)
    ensures
        match encoded(*value).outcome {
            Ok(_) => r is Ok && r->Ok_0@ == encoded(*value).text,
            Err(e) => r is Err && r->Err_0@ == e,
        },
{
    let mut serializer = Serializer::new(Vec::new());
    match encode(&mut serializer, value) {
        Ok(_) => {
            assert(serializer@ =~= encoded(*value).text);
            Ok(serializer.into_inner())
        },
        Err(e) => Err(e),
    }
}

/// The text as a string where the bytes are UTF-8, else nothing: what
/// `String::from_utf8` decides. The string then holds the characters that
/// the bytes encode.
#[verifier::external_body]
fn string_from_utf8(v: Vec<u8>) -> (r: Option<String>)
    ensures
        r is Some <==> valid_utf8(v@),
        r is Some ==> encode_utf8(r->Some_0@) == v@,
{
    String::from_utf8(v).ok()
}

/// The literal of `value`, as a string: the text that the encoder writes
/// for it where the encoding succeeds, else the failure it ends with.
pub fn to_string(value: &Value) -> (r: Result<String, Error>)
    ensures
        match encoded(*value).outcome {
            Ok(_) => r is Ok && encode_utf8(r->Ok_0@) == encoded(*value).text,
            Err(e) => r is Err && r->Err_0@ == e,
        },
{
    match to_bytes(value) {
        Ok(bytes) => {
            proof {
                encoded_text_is_utf8(*value);
            }
            match string_from_utf8(bytes) {
                Some(text) => Ok(text),
                None => unreached(),
            }
        },
        Err(e) => Err(e),
    }
}

} // verus!
