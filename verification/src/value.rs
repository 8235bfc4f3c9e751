//! Values held in memory, and what their encoding is.
//!
//! A [`Value`] is one value of the data model that the encoder is driven by.
//! The spec functions of this module say, by recursion on a value, which text
//! the encoder writes for it and with which outcome.

use crate::error::ErrorView;
use crate::ser::identifier::struct_as_name;
use crate::ser::literal::{
    array_close, array_open, bool_text, bytes_text, integer_text, name_suffix, null_text,
    separator, string_text, struct_open,
};
use crate::ser::serializer::SeqSerializerView;
use crate::ser::struct_serializer::{
    advanced, closed_fields, closing_items, closing_outcome, closing_text, field_decision,
    member_named, FieldsBufferDecision, FieldsBufferView, StructSerializerView,
};
use crate::ser::typed_serializer::{allows_array, allows_struct, expected_struct, opened_struct};
use crate::types::{
    checked, merged_type_refines_operands, refined_type_matches, refines_is_reflexive,
    refines_is_transitive, FieldView, TypeView,
};
use vstd::prelude::*;
use vstd::utf8::{decode_utf8, encode_utf8, valid_utf8};

verus! {

/// One value of the data model: a scalar, or an aggregate of values.
#[derive(Debug)]
pub enum Value {
    Bool(bool),
    I8(i8),
    I16(i16),
    I32(i32),
    I64(i64),
    U8(u8),
    U16(u16),
    U32(u32),
    U64(u64),
    /// A floating-point number, as the shortest decimal text that reads back
    /// as the same number.
    Float(String),
    Char(char),
    Str(String),
    Bytes(Vec<u8>),
    /// An optional value that is absent.
    Absent,
    /// An optional value that is present.
    Present(Box<Value>),
    Unit,
    /// A unit struct, with its name.
    UnitStruct(String),
    /// A unit variant, with the name of its enum, its index and its name.
    UnitVariant(String, u32, String),
    /// A struct that wraps one value, with its name.
    NewtypeStruct(String, Box<Value>),
    /// A variant that wraps one value.
    NewtypeVariant(String, u32, String, Box<Value>),
    /// A sequence, as its elements in order.
    Sequence(Vec<Value>),
    Tuple(Vec<Value>),
    /// A tuple struct, with its name.
    TupleStruct(String, Vec<Value>),
    /// A variant that holds a tuple.
    TupleVariant(String, u32, String, Vec<Value>),
    /// A map, as its entries in order: each a key and a value.
    Mapping(Vec<(Value, Value)>),
    /// A struct, with its name and its fields in order.
    Struct(String, Vec<(String, Value)>),
    /// A variant that holds a struct.
    StructVariant(String, u32, String, Vec<(String, Value)>),
}

/// What the encoder does for one value: the text it writes, and the type it
/// infers or the failure it ends with. Where it fails, the text is what was
/// written up to the failure.
pub struct Encoded {
    pub text: Seq<u8>,
    pub outcome: Result<TypeView, ErrorView>,
}

/// What the encoder has done after some elements of an array: the text
/// written behind the `[`, and the state it is in or the failure.
pub struct SeqProgress {
    pub text: Seq<u8>,
    pub state: Result<SeqSerializerView, ErrorView>,
}

/// What the encoder has done after some members of a struct: the text
/// written behind the `STRUCT(`, and the state it is in or the failure.
pub struct StructProgress {
    pub text: Seq<u8>,
    pub state: Result<StructSerializerView, ErrorView>,
}

/// The failure `e` with nothing written.
pub open spec fn refused(e: ErrorView) -> Encoded {
    Encoded { text: Seq::empty(), outcome: Err(e) }
}

/// The name that a value gives where it stands as the key of a map: the text
/// of a string, a character, a unit struct or variant, or a byte sequence in
/// UTF-8; the empty name for an absent value and for unit; the name of the
/// content for a value that wraps one. Every other value is refused.
pub open spec fn name_of(v: Value) -> Result<Seq<char>, ErrorView>
    decreases v,
{
    match v {
        Value::Bool(_) => Err(ErrorView::InvalidIdentifierType(TypeView::Bool)),
        Value::I8(_) | Value::I16(_) | Value::I32(_) | Value::I64(_) | Value::U8(_) | Value::U16(
            _,
        ) | Value::U32(_) | Value::U64(_) | Value::Float(_) => Err(
            ErrorView::InvalidIdentifierType(TypeView::Number),
        ),
        Value::Char(c) => Ok(seq![c]),
        Value::Str(s) => Ok(s@),
        Value::Bytes(b) => if valid_utf8(b@) {
            Ok(decode_utf8(b@))
        } else {
            Err(ErrorView::InvalidIdentifierType(TypeView::Bytes))
        },
        Value::Absent | Value::Unit => Ok(Seq::empty()),
        Value::Present(inner) => name_of(*inner),
        Value::UnitStruct(name) => Ok(name@),
        Value::UnitVariant(_, _, variant) => Ok(variant@),
        Value::NewtypeStruct(_, inner) => name_of(*inner),
        Value::NewtypeVariant(_, _, _, inner) => name_of(*inner),
        Value::Sequence(_) => Err(
            ErrorView::InvalidIdentifierType(TypeView::Array(Box::new(TypeView::Any))),
        ),
        Value::Tuple(_) | Value::TupleStruct(_, _) | Value::TupleVariant(_, _, _, _) | Value::Mapping(
            _,
        ) | Value::Struct(_, _) | Value::StructVariant(_, _, _, _) => Err(struct_as_name()),
    }
}

/// One more element of an array: `element` is what the encoder did for it,
/// held to the type of the elements before. The separator stands before it,
/// and its type is merged into theirs.
pub open spec fn element_step(state: SeqSerializerView, element: Encoded) -> SeqProgress {
    SeqProgress {
        text: separator(!state.has_elements) + element.text,
        state: match element.outcome {
            Ok(found) => match state.element_type.merge(found) {
                Some(merged) => Ok(SeqSerializerView { has_elements: true, element_type: merged }),
                None => Err(
                    ErrorView::UnexpectedType { expected: state.element_type, found },
                ),
            },
            Err(e) => Err(e),
        },
    }
}

/// `e` behind the text `opening`.
pub open spec fn opened_with(opening: Seq<u8>, e: Encoded) -> Encoded {
    Encoded { text: opening + e.text, outcome: e.outcome }
}

/// What follows the `[` of an array: its elements and, where none of them
/// failed, the `]`.
pub open spec fn array_tail(elements: SeqProgress) -> Encoded {
    match elements.state {
        Ok(state) => Encoded {
            text: elements.text + array_close(),
            outcome: Ok(TypeView::Array(Box::new(state.element_type))),
        },
        Err(e) => Encoded { text: elements.text, outcome: Err(e) },
    }
}

/// The array once its elements are done.
pub open spec fn array_encoded(elements: SeqProgress) -> Encoded {
    opened_with(array_open(), array_tail(elements))
}

/// One more member of a struct, named `key`: `value` is what the plain
/// encoder does for its value. Where the member is due, or the struct has no
/// expected shape, it is written in its place with its name. Where it is
/// ahead of its place, its text is set aside and nothing is written; a
/// member that is set aside twice fails. Where no member is due any more, it
/// is refused before anything is written.
pub open spec fn member_step(
    state: StructSerializerView,
    key: Option<Seq<char>>,
    value: Encoded,
) -> StructProgress {
    match field_decision(state, key) {
        Err(e) => StructProgress { text: Seq::empty(), state: Err(e) },
        Ok(FieldsBufferDecision::Expected) => match value.outcome {
            Ok(field_type) => StructProgress {
                text: separator(state.fields.len() == 0) + value.text + name_suffix(key),
                state: Ok(
                    StructSerializerView {
                        fields: state.fields.push(FieldView { field_type, field_name: key }),
                        pending_key: state.pending_key,
                        buffer: advanced(state.buffer),
                    },
                ),
            },
            Err(e) => StructProgress {
                text: separator(state.fields.len() == 0) + value.text,
                state: Err(e),
            },
        },
        Ok(FieldsBufferDecision::Buffered) => match value.outcome {
            Ok(field_type) => {
                let field = FieldView { field_type, field_name: key };
                let buffer = state.buffer.unwrap();
                if member_named(buffer.buffered, key.unwrap()) is Some {
                    StructProgress {
                        text: Seq::empty(),
                        state: Err(ErrorView::DuplicateStructField(key.unwrap())),
                    }
                } else {
                    StructProgress {
                        text: Seq::empty(),
                        state: Ok(
                            StructSerializerView {
                                fields: state.fields,
                                pending_key: state.pending_key,
                                buffer: Some(
                                    FieldsBufferView {
                                        expected: buffer.expected,
                                        buffered: buffer.buffered.push((field, value.text)),
                                    },
                                ),
                            },
                        ),
                    }
                }
            },
            Err(e) => StructProgress { text: Seq::empty(), state: Err(e) },
        },
    }
}

/// What follows the `STRUCT(` of a struct: its members and, where none of
/// them failed, what closing the struct writes and how it ends.
pub open spec fn struct_tail(members: StructProgress) -> Encoded {
    match members.state {
        Ok(state) => Encoded {
            text: members.text + closing_text(state),
            outcome: closing_outcome(state),
        },
        Err(e) => Encoded { text: members.text, outcome: Err(e) },
    }
}

/// The struct once its members are done.
pub open spec fn struct_encoded(members: StructProgress) -> Encoded {
    opened_with(struct_open(), struct_tail(members))
}

/// What the encoder does for `v` where nothing is expected of its type.
pub open spec fn encoded(v: Value) -> Encoded
    decreases v, 0nat,
{
    match v {
        Value::Bool(b) => Encoded { text: bool_text(b), outcome: Ok(TypeView::Bool) },
        Value::I8(n) => Encoded { text: integer_text(n as int), outcome: Ok(TypeView::Number) },
        Value::I16(n) => Encoded { text: integer_text(n as int), outcome: Ok(TypeView::Number) },
        Value::I32(n) => Encoded { text: integer_text(n as int), outcome: Ok(TypeView::Number) },
        Value::I64(n) => Encoded { text: integer_text(n as int), outcome: Ok(TypeView::Number) },
        Value::U8(n) => Encoded { text: integer_text(n as int), outcome: Ok(TypeView::Number) },
        Value::U16(n) => Encoded { text: integer_text(n as int), outcome: Ok(TypeView::Number) },
        Value::U32(n) => Encoded { text: integer_text(n as int), outcome: Ok(TypeView::Number) },
        Value::U64(n) => Encoded { text: integer_text(n as int), outcome: Ok(TypeView::Number) },
        Value::Float(text) => Encoded { text: encode_utf8(text@), outcome: Ok(TypeView::Number) },
        Value::Char(c) => Encoded { text: string_text(seq![c]), outcome: Ok(TypeView::String) },
        Value::Str(s) => Encoded { text: string_text(s@), outcome: Ok(TypeView::String) },
        Value::Bytes(b) => Encoded { text: bytes_text(b@), outcome: Ok(TypeView::Bytes) },
        Value::Absent | Value::Unit | Value::UnitStruct(_) => Encoded {
            text: null_text(),
            outcome: Ok(TypeView::Any),
        },
        Value::Present(inner) => encoded(*inner),
        Value::UnitVariant(_, _, variant) => Encoded {
            text: string_text(variant@),
            outcome: Ok(TypeView::String),
        },
        Value::NewtypeStruct(_, inner) => encoded(*inner),
        Value::NewtypeVariant(_, _, _, _) | Value::TupleVariant(_, _, _, _) | Value::StructVariant(
            _,
            _,
            _,
            _,
        ) => refused(ErrorView::UnsupportedType),
        Value::Sequence(items) => array_encoded(
            elements(
                items@,
                items@.len(),
                SeqSerializerView { has_elements: false, element_type: TypeView::Any },
            ),
        ),
        Value::Tuple(items) | Value::TupleStruct(_, items) => if items@.len() == 0 {
            refused(ErrorView::EmptyStruct)
        } else {
            struct_encoded(tuple_members(items@, items@.len(), opened_struct()))
        },
        Value::Mapping(entries) => struct_encoded(
            map_members(entries@, entries@.len(), opened_struct()),
        ),
        Value::Struct(_, fields) => if fields@.len() == 0 {
            refused(ErrorView::EmptyStruct)
        } else {
            struct_encoded(struct_members(fields@, fields@.len(), opened_struct()))
        },
    }
}

/// What the encoder does for `v` where `expected` is the type of the
/// elements that came before it in its array. A scalar is written and then
/// checked. An aggregate is refused before anything is written where the
/// expected type is of another kind; else an array is held to the expected
/// element type, and a struct to the expected fields.
pub open spec fn encoded_as(v: Value, expected: TypeView) -> Encoded
    decreases v, 1nat,
{
    match v {
        Value::Sequence(items) => if allows_array(expected) {
            array_encoded(
                elements(
                    items@,
                    items@.len(),
                    SeqSerializerView {
                        has_elements: false,
                        element_type: match expected {
                            TypeView::Array(element_type) => *element_type,
                            _ => TypeView::Any,
                        },
                    },
                ),
            )
        } else {
            refused(
                ErrorView::UnexpectedType {
                    expected,
                    found: TypeView::Array(Box::new(TypeView::Any)),
                },
            )
        },
        Value::Tuple(items) | Value::TupleStruct(_, items) => match expected_struct(
            expected,
            opened_struct(),
        ) {
            Ok(start) => if items@.len() == 0 {
                refused(ErrorView::EmptyStruct)
            } else {
                struct_encoded(tuple_members(items@, items@.len(), start))
            },
            Err(e) => refused(e),
        },
        Value::Mapping(entries) => match expected_struct(expected, opened_struct()) {
            Ok(start) => struct_encoded(map_members(entries@, entries@.len(), start)),
            Err(e) => refused(e),
        },
        Value::Struct(_, fields) => match expected_struct(expected, opened_struct()) {
            Ok(start) => if fields@.len() == 0 {
                refused(ErrorView::EmptyStruct)
            } else {
                struct_encoded(struct_members(fields@, fields@.len(), start))
            },
            Err(e) => refused(e),
        },
        _ => Encoded { text: encoded(v).text, outcome: checked(encoded(v).outcome, expected) },
    }
}

/// What the encoder has done after the first `n` of the elements `items`,
/// from the state `start`. After a failure nothing more is done.
pub open spec fn elements(items: Seq<Value>, n: nat, start: SeqSerializerView) -> SeqProgress
    decreases items, n,
{
    if n == 0 || n > items.len() {
        SeqProgress { text: Seq::empty(), state: Ok(start) }
    } else {
        let before = elements(items, (n - 1) as nat, start);
        match before.state {
            Ok(state) => {
                let step = element_step(state, encoded_as(items[n - 1], state.element_type));
                SeqProgress { text: before.text + step.text, state: step.state }
            },
            Err(_) => before,
        }
    }
}

/// What the encoder has done after the first `n` of the members `items` of a
/// tuple, which have no names, from the state `start`.
pub open spec fn tuple_members(items: Seq<Value>, n: nat, start: StructSerializerView)
    -> StructProgress
    decreases items, n,
{
    if n == 0 || n > items.len() {
        StructProgress { text: Seq::empty(), state: Ok(start) }
    } else {
        let before = tuple_members(items, (n - 1) as nat, start);
        match before.state {
            Ok(state) => {
                let step = member_step(state, None, encoded(items[n - 1]));
                StructProgress { text: before.text + step.text, state: step.state }
            },
            Err(_) => before,
        }
    }
}

/// What the encoder has done after the first `n` of the fields `fields` of a
/// struct, each under its name, from the state `start`.
pub open spec fn struct_members(
    fields: Seq<(String, Value)>,
    n: nat,
    start: StructSerializerView,
) -> StructProgress
    decreases fields, n,
{
    if n == 0 || n > fields.len() {
        StructProgress { text: Seq::empty(), state: Ok(start) }
    } else {
        let before = struct_members(fields, (n - 1) as nat, start);
        match before.state {
            Ok(state) => {
                let step = member_step(state, Some(fields[n - 1].0@), encoded(fields[n - 1].1));
                StructProgress { text: before.text + step.text, state: step.state }
            },
            Err(_) => before,
        }
    }
}

/// What the encoder has done after the first `n` of the entries `entries` of
/// a map, from the state `start`. The key of an entry is taken as a name
/// first; where it gives none, the entry fails before anything is written
/// for it.
pub open spec fn map_members(
    entries: Seq<(Value, Value)>,
    n: nat,
    start: StructSerializerView,
) -> StructProgress
    decreases entries, n,
{
    if n == 0 || n > entries.len() {
        StructProgress { text: Seq::empty(), state: Ok(start) }
    } else {
        let before = map_members(entries, (n - 1) as nat, start);
        match before.state {
            Ok(state) => match name_of(entries[n - 1].0) {
                Ok(name) => {
                    let step = member_step(state, Some(name), encoded(entries[n - 1].1));
                    StructProgress { text: before.text + step.text, state: step.state }
                },
                Err(e) => StructProgress { text: before.text, state: Err(e) },
            },
            Err(_) => before,
        }
    }
}

/// Once an element of an array has failed, the elements after it change
/// nothing.
pub proof fn lemma_elements_stay_failed(
    items: Seq<Value>,
    k: nat,
    n: nat,
    start: SeqSerializerView,
)
    requires
        k <= n <= items.len(),
        elements(items, k, start).state is Err,
    ensures
        elements(items, n, start) == elements(items, k, start),
    decreases n,
{
    if n > k {
        lemma_elements_stay_failed(items, k, (n - 1) as nat, start);
    }
}

/// Once a member of a tuple has failed, the members after it change nothing.
pub proof fn lemma_tuple_stays_failed(
    items: Seq<Value>,
    k: nat,
    n: nat,
    start: StructSerializerView,
)
    requires
        k <= n <= items.len(),
        tuple_members(items, k, start).state is Err,
    ensures
        tuple_members(items, n, start) == tuple_members(items, k, start),
    decreases n,
{
    if n > k {
        lemma_tuple_stays_failed(items, k, (n - 1) as nat, start);
    }
}

/// Once a field of a struct has failed, the fields after it change nothing.
pub proof fn lemma_struct_stays_failed(
    fields: Seq<(String, Value)>,
    k: nat,
    n: nat,
    start: StructSerializerView,
)
    requires
        k <= n <= fields.len(),
        struct_members(fields, k, start).state is Err,
    ensures
        struct_members(fields, n, start) == struct_members(fields, k, start),
    decreases n,
{
    if n > k {
        lemma_struct_stays_failed(fields, k, (n - 1) as nat, start);
    }
}

/// Once an entry of a map has failed, the entries after it change nothing.
pub proof fn lemma_map_stays_failed(
    entries: Seq<(Value, Value)>,
    k: nat,
    n: nat,
    start: StructSerializerView,
)
    requires
        k <= n <= entries.len(),
        map_members(entries, k, start).state is Err,
    ensures
        map_members(entries, n, start) == map_members(entries, k, start),
    decreases n,
{
    if n > k {
        lemma_map_stays_failed(entries, k, (n - 1) as nat, start);
    }
}

/// A tuple or a struct without members has no literal: its encoding fails
/// before anything is written, with `EmptyStruct` wherever a struct may
/// stand. So does the encoding of a map without entries where nothing is
/// expected of its type.
pub proof fn empty_struct_fails(v: Value, expected: TypeView)
    requires
        match v {
            Value::Tuple(items) | Value::TupleStruct(_, items) => items@.len() == 0,
            Value::Struct(_, fields) => fields@.len() == 0,
            Value::Mapping(entries) => entries@.len() == 0,
            _ => false,
        },
    ensures
        encoded(v).outcome == Err::<TypeView, ErrorView>(ErrorView::EmptyStruct),
        !(v is Mapping) ==> encoded(v).text == Seq::<u8>::empty(),
        !(v is Mapping) ==> encoded_as(v, expected).outcome is Err && encoded_as(
            v,
            expected,
        ).text == Seq::<u8>::empty(),
        !(v is Mapping) && allows_struct(expected) ==> encoded_as(v, expected).outcome == Err::<
            TypeView,
            ErrorView,
        >(ErrorView::EmptyStruct),
{
    assert(closed_fields(opened_struct(), Seq::empty()) =~= Seq::<FieldView>::empty());
}

/// No struct literal is closed without a member: where the encoding of a
/// struct succeeds, its type has a field, and where the struct has none, the
/// encoding fails with `EmptyStruct` and no `)` is written.
pub proof fn closed_struct_has_fields(members: StructProgress)
    ensures
        struct_tail(members).outcome is Ok ==> {
            &&& struct_tail(members).outcome->Ok_0 is Struct
            &&& struct_tail(members).outcome->Ok_0->Struct_0.len() > 0
        },
        members.state is Ok && closing_items(members.state->Ok_0) is Ok && closed_fields(
            members.state->Ok_0,
            closing_items(members.state->Ok_0)->Ok_0,
        ).len() == 0 ==> {
            &&& struct_tail(members).outcome == Err::<TypeView, ErrorView>(ErrorView::EmptyStruct)
            &&& struct_tail(members).text == members.text
        },
{
    if members.state is Ok {
        assert(struct_tail(members).text =~= members.text + closing_text(members.state->Ok_0));
    }
}

/// An array is of one type: where an element has a type that does not merge
/// with the type that the elements before it have in common, the encoding
/// of the array fails with `UnexpectedType`, which names both types.
pub proof fn unmergeable_element_fails(items: Seq<Value>, n: nat, start: SeqSerializerView)
    requires
        0 < n <= items.len(),
        elements(items, (n - 1) as nat, start).state is Ok,
        encoded_as(
            items[n - 1],
            elements(items, (n - 1) as nat, start).state->Ok_0.element_type,
        ).outcome is Ok,
        elements(items, (n - 1) as nat, start).state->Ok_0.element_type.merge(
            encoded_as(
                items[n - 1],
                elements(items, (n - 1) as nat, start).state->Ok_0.element_type,
            ).outcome->Ok_0,
        ) is None,
    ensures
        array_encoded(elements(items, items.len(), start)).outcome == Err::<TypeView, ErrorView>(
            ErrorView::UnexpectedType {
                expected: elements(items, (n - 1) as nat, start).state->Ok_0.element_type,
                found: encoded_as(
                    items[n - 1],
                    elements(items, (n - 1) as nat, start).state->Ok_0.element_type,
                ).outcome->Ok_0,
            },
        ),
{
    lemma_elements_stay_failed(items, n, items.len(), start);
}

/// As the elements of an array are encoded, the type that they have in
/// common only gains: after more elements it refines what it was after
/// fewer.
pub proof fn element_type_only_gains(items: Seq<Value>, k: nat, n: nat, start: SeqSerializerView)
    requires
        k <= n <= items.len(),
        elements(items, n, start).state is Ok,
    ensures
        elements(items, k, start).state is Ok,
        elements(items, n, start).state->Ok_0.element_type.refines(
            elements(items, k, start).state->Ok_0.element_type,
        ),
    decreases n,
{
    if n == k {
        refines_is_reflexive(elements(items, n, start).state->Ok_0.element_type);
    } else {
        let before = elements(items, (n - 1) as nat, start);
        assert(before.state is Ok);
        let state = before.state->Ok_0;
        let found = encoded_as(items[n - 1], state.element_type).outcome->Ok_0;
        merged_type_refines_operands(state.element_type, found);
        element_type_only_gains(items, k, (n - 1) as nat, start);
        refines_is_transitive(
            elements(items, n, start).state->Ok_0.element_type,
            state.element_type,
            elements(items, k, start).state->Ok_0.element_type,
        );
    }
}

/// An array that is encoded is of one type: each of its elements was encoded
/// with a type that is compatible with the element type of the array.
pub proof fn array_elements_match(items: Seq<Value>, start: SeqSerializerView, i: int)
    requires
        0 <= i < items.len(),
        elements(items, items.len(), start).state is Ok,
    ensures
        elements(items, i as nat, start).state is Ok,
        encoded_as(
            items[i],
            elements(items, i as nat, start).state->Ok_0.element_type,
        ).outcome is Ok,
        encoded_as(
            items[i],
            elements(items, i as nat, start).state->Ok_0.element_type,
        ).outcome->Ok_0.matches(elements(items, items.len(), start).state->Ok_0.element_type),
{
    let n = items.len();
    element_type_only_gains(items, (i + 1) as nat, n, start);
    element_type_only_gains(items, i as nat, (i + 1) as nat, start);
    let before = elements(items, i as nat, start).state->Ok_0;
    let found = encoded_as(items[i], before.element_type).outcome->Ok_0;
    let after = elements(items, (i + 1) as nat, start).state->Ok_0;
    merged_type_refines_operands(before.element_type, found);
    let last = elements(items, n, start).state->Ok_0.element_type;
    refines_is_transitive(last, after.element_type, found);
    refined_type_matches(last, found);
}

} // verus!
