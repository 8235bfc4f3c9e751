//! What the encoder writes is text: every literal is valid UTF-8.

use crate::ser::identifier::identifier_text;
use crate::ser::literal::{
    array_close, array_open, bool_text, bytes_text, digits, escaped_byte, escaped_bytes,
    integer_text, name_suffix, null_text, separator, string_text, struct_close, struct_open,
};
use crate::ser::serializer::SeqSerializerView;
use crate::ser::struct_serializer::{
    closing_items, closing_text, drained, drained_first, due_field_takes_its_member,
    lemma_member_named_is_member, member_text, members_text, taken, StructSerializerView,
};
use crate::ser::typed_serializer::{expected_struct, opened_struct};
use crate::types::{FieldView, TypeView};
use crate::value::{
    array_tail, element_step, elements, encoded, encoded_as, map_members, member_step, name_of,
    struct_members, struct_tail, tuple_members, Value,
};
use vstd::prelude::*;
use vstd::utf8::{
    encode_utf8, encode_utf8_valid_utf8, is_ascii_chars, is_ascii_chars_encode_utf8, valid_utf8,
    valid_utf8_concat,
};

verus! {

/// Whether every byte of `bytes` is an ASCII character.
spec fn is_ascii_bytes(bytes: Seq<u8>) -> bool {
    forall|i: int| 0 <= i < bytes.len() ==> #[trigger] bytes[i] < 128
}

/// ASCII characters are valid UTF-8.
proof fn lemma_ascii_is_utf8(bytes: Seq<u8>)
    requires
        is_ascii_bytes(bytes),
    ensures
        valid_utf8(bytes),
{
    let chars = Seq::new(bytes.len(), |i: int| bytes[i] as char);
    assert(is_ascii_chars(chars)) by {
        assert forall|i: int| 0 <= i < chars.len() implies '\0' <= #[trigger] chars[i]
            <= '\u{7f}' by {
            assert(bytes[i] < 128);
        }
    }
    is_ascii_chars_encode_utf8(chars);
    assert(encode_utf8(chars) =~= bytes) by {
        assert forall|i: int| 0 <= i < bytes.len() implies encode_utf8(chars)[i] == bytes[i] by {
            assert(chars[i] as u8 == encode_utf8(chars)[i]);
            assert(bytes[i] < 128);
        }
    }
    encode_utf8_valid_utf8(chars);
}

/// Two texts in a row are a text.
proof fn lemma_text_concat(a: Seq<u8>, b: Seq<u8>)
    requires
        valid_utf8(a),
        valid_utf8(b),
    ensures
        valid_utf8(a + b),
{
    valid_utf8_concat(a, b);
}

/// The digits of a number are ASCII.
proof fn lemma_digits_ascii(n: nat)
    ensures
        is_ascii_bytes(digits(n)),
    decreases n,
{
    if n >= 10 {
        lemma_digits_ascii(n / 10);
    }
}

/// The literal of an integer is text.
proof fn lemma_integer_is_text(v: int)
    ensures
        valid_utf8(integer_text(v)),
{
    if v < 0 {
        lemma_digits_ascii((-v) as nat);
    } else {
        lemma_digits_ascii(v as nat);
    }
    lemma_ascii_is_utf8(integer_text(v));
}

/// Escaped bytes are ASCII.
proof fn lemma_escaped_ascii(v: Seq<u8>)
    ensures
        is_ascii_bytes(escaped_bytes(v)),
    decreases v.len(),
{
    if v.len() > 0 {
        lemma_escaped_ascii(v.drop_last());
        let b = v.last();
        assert(is_ascii_bytes(escaped_byte(b)));
    }
}

/// The literal of a string is text.
proof fn lemma_string_is_text(s: Seq<char>)
    ensures
        valid_utf8(string_text(s)),
{
    lemma_ascii_is_utf8(seq![34u8]);
    encode_utf8_valid_utf8(s);
    lemma_text_concat(seq![34u8], encode_utf8(s));
    lemma_text_concat(seq![34u8] + encode_utf8(s), seq![34u8]);
}

/// The literal of a byte sequence is text.
proof fn lemma_bytes_is_text(v: Seq<u8>)
    ensures
        valid_utf8(bytes_text(v)),
{
    lemma_escaped_ascii(v);
    lemma_ascii_is_utf8(bytes_text(v));
}

/// What follows a member with its name is text.
proof fn lemma_name_suffix_is_text(name: Option<Seq<char>>)
    ensures
        valid_utf8(name_suffix(name)),
{
    match name {
        Some(n) => {
            if n.len() > 0 {
                encode_utf8_valid_utf8(" AS "@);
                encode_utf8_valid_utf8(identifier_text(n));
                lemma_text_concat(encode_utf8(" AS "@), encode_utf8(identifier_text(n)));
            } else {
                lemma_ascii_is_utf8(name_suffix(name));
            }
        },
        None => {
            lemma_ascii_is_utf8(name_suffix(name));
        },
    }
}

/// The pieces of punctuation are text.
proof fn lemma_punctuation_is_text()
    ensures
        forall|first: bool| valid_utf8(#[trigger] separator(first)),
        forall|v: bool| valid_utf8(#[trigger] bool_text(v)),
        valid_utf8(null_text()),
        valid_utf8(array_open()),
        valid_utf8(array_close()),
        valid_utf8(struct_open()),
        valid_utf8(struct_close()),
        valid_utf8(Seq::<u8>::empty()),
{
    lemma_ascii_is_utf8(separator(true));
    lemma_ascii_is_utf8(separator(false));
    encode_utf8_valid_utf8("TRUE"@);
    encode_utf8_valid_utf8("FALSE"@);
    encode_utf8_valid_utf8("NULL"@);
    encode_utf8_valid_utf8("STRUCT("@);
    lemma_ascii_is_utf8(array_open());
    lemma_ascii_is_utf8(array_close());
    lemma_ascii_is_utf8(struct_close());
    lemma_ascii_is_utf8(Seq::<u8>::empty());
}

/// Whether every text that a struct has set aside is valid UTF-8.
spec fn holds_texts(state: StructSerializerView) -> bool {
    match state.buffer {
        Some(b) => forall|j: int|
            0 <= j < b.buffered.len() ==> valid_utf8((#[trigger] b.buffered[j]).1),
        None => true,
    }
}

/// The members that closing a struct adds are text, where the texts that
/// were set aside are.
proof fn lemma_members_are_text(count: nat, items: Seq<(FieldView, Seq<u8>)>)
    requires
        forall|i: int| 0 <= i < items.len() ==> valid_utf8(#[trigger] items[i].1),
    ensures
        valid_utf8(members_text(count, items)),
    decreases items.len(),
{
    lemma_punctuation_is_text();
    if items.len() > 0 {
        let rest = items.drop_last();
        assert forall|i: int| 0 <= i < rest.len() implies valid_utf8(#[trigger] rest[i].1) by {
            assert(rest[i] == items[i]);
        }
        lemma_members_are_text(count, rest);
        let last = items.last();
        let first = count + items.len() - 1 == 0;
        assert(valid_utf8(items[items.len() - 1].1));
        lemma_name_suffix_is_text(last.0.field_name);
        lemma_text_concat(separator(first), last.1);
        lemma_text_concat(separator(first) + last.1, name_suffix(last.0.field_name));
        lemma_text_concat(
            members_text(count, rest),
            member_text(first, last.1, last.0.field_name),
        );
    }
}

/// What closing a struct writes is text, where the texts that were set
/// aside are.
proof fn lemma_struct_tail_is_text(text: Seq<u8>, state: StructSerializerView)
    requires
        valid_utf8(text),
        holds_texts(state),
    ensures
        valid_utf8(
            struct_tail(
                crate::value::StructProgress { text, state: Ok(state) },
            ).text,
        ),
{
    lemma_punctuation_is_text();
    match closing_items(state) {
        Ok(items) => {
            assert forall|i: int| 0 <= i < items.len() implies valid_utf8(
                #[trigger] items[i].1,
            ) by {
                let b = state.buffer.unwrap();
                lemma_drained_is_whole(b.expected, b.buffered);
                due_field_takes_its_member(b.expected, b.buffered, b.expected.len(), i);
                match taken(b.expected, b.buffered, i) {
                    Some(member) => {
                        let name = b.expected[i].field_name->Some_0;
                        lemma_member_named_is_member(b.buffered, name);
                    },
                    None => {},
                }
            }
            lemma_members_are_text(state.fields.len(), items);
            lemma_text_concat(members_text(state.fields.len(), items), struct_close());
        },
        Err(_) => {},
    }
    lemma_text_concat(text, closing_text(state));
}

/// What a successful close adds is what the due fields add: one member for
/// each of them.
proof fn lemma_drained_is_whole(expected: Seq<FieldView>, members: Seq<(FieldView, Seq<u8>)>)
    requires
        drained(expected, members) is Ok,
    ensures
        drained_first(expected, members, expected.len()) is Ok,
        drained(expected, members)->Ok_0 == drained_first(
            expected,
            members,
            expected.len(),
        )->Ok_0,
        expected.len() > 0 ==> drained(expected, members)->Ok_0.len() == expected.len(),
        expected.len() == 0 ==> drained(expected, members)->Ok_0.len() == 0,
{
    if expected.len() > 0 {
        due_field_takes_its_member(expected, members, expected.len(), 0);
    }
}

/// One more member of a struct writes text and sets aside text, where its
/// value is text.
proof fn lemma_member_step_is_text(
    state: StructSerializerView,
    key: Option<Seq<char>>,
    value: crate::value::Encoded,
)
    requires
        holds_texts(state),
        valid_utf8(value.text),
    ensures
        valid_utf8(member_step(state, key, value).text),
        member_step(state, key, value).state is Ok ==> holds_texts(
            member_step(state, key, value).state->Ok_0,
        ),
{
    lemma_punctuation_is_text();
    lemma_name_suffix_is_text(key);
    let first = state.fields.len() == 0;
    lemma_text_concat(separator(first), value.text);
    lemma_text_concat(separator(first) + value.text, name_suffix(key));
    let step = member_step(state, key, value);
    if step.state is Ok {
        let after = step.state->Ok_0;
        if after.buffer is Some {
            let b = after.buffer.unwrap();
            let before = state.buffer.unwrap();
            assert forall|j: int| 0 <= j < b.buffered.len() implies valid_utf8(
                (#[trigger] b.buffered[j]).1,
            ) by {
                if j < before.buffered.len() {
                    assert(b.buffered[j] == before.buffered[j]);
                }
            }
        }
    }
}

/// A struct that begins where a type is expected has set nothing aside.
proof fn lemma_expected_struct_holds_texts(expected: TypeView)
    ensures
        holds_texts(opened_struct()),
        expected_struct(expected, opened_struct()) is Ok ==> holds_texts(
            expected_struct(expected, opened_struct())->Ok_0,
        ),
{
}

/// The text that the encoder writes for a value is valid UTF-8, whether the
/// encoding succeeds or fails.
pub proof fn encoded_text_is_utf8(v: Value)
    ensures
        valid_utf8(encoded(v).text),
    decreases v, 0nat,
{
    lemma_punctuation_is_text();
    match v {
        Value::Bool(_) => {},
        Value::I8(n) => lemma_integer_is_text(n as int),
        Value::I16(n) => lemma_integer_is_text(n as int),
        Value::I32(n) => lemma_integer_is_text(n as int),
        Value::I64(n) => lemma_integer_is_text(n as int),
        Value::U8(n) => lemma_integer_is_text(n as int),
        Value::U16(n) => lemma_integer_is_text(n as int),
        Value::U32(n) => lemma_integer_is_text(n as int),
        Value::U64(n) => lemma_integer_is_text(n as int),
        Value::Float(text) => encode_utf8_valid_utf8(text@),
        Value::Char(c) => lemma_string_is_text(seq![c]),
        Value::Str(s) => lemma_string_is_text(s@),
        Value::Bytes(b) => lemma_bytes_is_text(b@),
        Value::Absent | Value::Unit | Value::UnitStruct(_) => {},
        Value::Present(inner) => encoded_text_is_utf8(*inner),
        Value::UnitVariant(_, _, variant) => lemma_string_is_text(variant@),
        Value::NewtypeStruct(_, inner) => encoded_text_is_utf8(*inner),
        Value::NewtypeVariant(_, _, _, _) | Value::TupleVariant(_, _, _, _) | Value::StructVariant(
            _,
            _,
            _,
            _,
        ) => {},
        Value::Sequence(items) => {
            let start = SeqSerializerView { has_elements: false, element_type: TypeView::Any };
            lemma_elements_are_text(items@, items@.len(), start);
            lemma_array_is_text(elements(items@, items@.len(), start));
        },
        Value::Tuple(items) | Value::TupleStruct(_, items) => {
            if items@.len() > 0 {
                lemma_tuple_is_text(items@, items@.len(), opened_struct());
                lemma_struct_is_text(tuple_members(items@, items@.len(), opened_struct()));
            }
        },
        Value::Mapping(entries) => {
            lemma_map_is_text(entries@, entries@.len(), opened_struct());
            lemma_struct_is_text(map_members(entries@, entries@.len(), opened_struct()));
        },
        Value::Struct(_, fields) => {
            if fields@.len() > 0 {
                lemma_fields_are_text(fields@, fields@.len(), opened_struct());
                lemma_struct_is_text(struct_members(fields@, fields@.len(), opened_struct()));
            }
        },
    }
}

/// The text that the encoder writes for a value is valid UTF-8 where a type
/// is expected of the value, too.
pub proof fn expected_text_is_utf8(v: Value, expected: TypeView)
    ensures
        valid_utf8(encoded_as(v, expected).text),
    decreases v, 1nat,
{
    lemma_punctuation_is_text();
    lemma_expected_struct_holds_texts(expected);
    match v {
        Value::Sequence(items) => {
            let start = SeqSerializerView {
                has_elements: false,
                element_type: match expected {
                    TypeView::Array(element_type) => *element_type,
                    _ => TypeView::Any,
                },
            };
            lemma_elements_are_text(items@, items@.len(), start);
            lemma_array_is_text(elements(items@, items@.len(), start));
        },
        Value::Tuple(items) | Value::TupleStruct(_, items) => {
            match expected_struct(expected, opened_struct()) {
                Ok(start) => {
                    if items@.len() > 0 {
                        lemma_tuple_is_text(items@, items@.len(), start);
                        lemma_struct_is_text(tuple_members(items@, items@.len(), start));
                    }
                },
                Err(_) => {},
            }
        },
        Value::Mapping(entries) => {
            match expected_struct(expected, opened_struct()) {
                Ok(start) => {
                    lemma_map_is_text(entries@, entries@.len(), start);
                    lemma_struct_is_text(map_members(entries@, entries@.len(), start));
                },
                Err(_) => {},
            }
        },
        Value::Struct(_, fields) => {
            match expected_struct(expected, opened_struct()) {
                Ok(start) => {
                    if fields@.len() > 0 {
                        lemma_fields_are_text(fields@, fields@.len(), start);
                        lemma_struct_is_text(struct_members(fields@, fields@.len(), start));
                    }
                },
                Err(_) => {},
            }
        },
        _ => {
            encoded_text_is_utf8(v);
        },
    }
}

/// An array is text where its elements are.
proof fn lemma_array_is_text(progress: crate::value::SeqProgress)
    requires
        valid_utf8(progress.text),
    ensures
        valid_utf8(crate::value::array_encoded(progress).text),
{
    lemma_punctuation_is_text();
    lemma_text_concat(progress.text, array_close());
    lemma_text_concat(array_open(), array_tail(progress).text);
}

/// A struct is text where its members are and the texts it has set aside.
proof fn lemma_struct_is_text(progress: crate::value::StructProgress)
    requires
        valid_utf8(progress.text),
        progress.state is Ok ==> holds_texts(progress.state->Ok_0),
    ensures
        valid_utf8(crate::value::struct_encoded(progress).text),
{
    lemma_punctuation_is_text();
    if progress.state is Ok {
        lemma_struct_tail_is_text(progress.text, progress.state->Ok_0);
        assert(progress == crate::value::StructProgress {
            text: progress.text,
            state: Ok(progress.state->Ok_0),
        });
    }
    lemma_text_concat(struct_open(), struct_tail(progress).text);
}

/// The elements of an array are text.
proof fn lemma_elements_are_text(items: Seq<Value>, n: nat, start: SeqSerializerView)
    ensures
        valid_utf8(elements(items, n, start).text),
    decreases items, n,
{
    lemma_punctuation_is_text();
    if n == 0 || n > items.len() {
    } else {
        lemma_elements_are_text(items, (n - 1) as nat, start);
        let before = elements(items, (n - 1) as nat, start);
        match before.state {
            Ok(state) => {
                expected_text_is_utf8(items[n - 1], state.element_type);
                let element = encoded_as(items[n - 1], state.element_type);
                lemma_text_concat(separator(!state.has_elements), element.text);
                lemma_text_concat(before.text, element_step(state, element).text);
            },
            Err(_) => {},
        }
    }
}

/// The members of a tuple are text, and so is what they set aside.
proof fn lemma_tuple_is_text(items: Seq<Value>, n: nat, start: StructSerializerView)
    requires
        holds_texts(start),
    ensures
        valid_utf8(tuple_members(items, n, start).text),
        tuple_members(items, n, start).state is Ok ==> holds_texts(
            tuple_members(items, n, start).state->Ok_0,
        ),
    decreases items, n,
{
    lemma_punctuation_is_text();
    if n == 0 || n > items.len() {
    } else {
        lemma_tuple_is_text(items, (n - 1) as nat, start);
        let before = tuple_members(items, (n - 1) as nat, start);
        match before.state {
            Ok(state) => {
                encoded_text_is_utf8(items[n - 1]);
                lemma_member_step_is_text(state, None, encoded(items[n - 1]));
                lemma_text_concat(
                    before.text,
                    member_step(state, None, encoded(items[n - 1])).text,
                );
            },
            Err(_) => {},
        }
    }
}

/// The fields of a struct are text, and so is what they set aside.
proof fn lemma_fields_are_text(
    fields: Seq<(String, Value)>,
    n: nat,
    start: StructSerializerView,
)
    requires
        holds_texts(start),
    ensures
        valid_utf8(struct_members(fields, n, start).text),
        struct_members(fields, n, start).state is Ok ==> holds_texts(
            struct_members(fields, n, start).state->Ok_0,
        ),
    decreases fields, n,
{
    lemma_punctuation_is_text();
    if n == 0 || n > fields.len() {
    } else {
        lemma_fields_are_text(fields, (n - 1) as nat, start);
        let before = struct_members(fields, (n - 1) as nat, start);
        match before.state {
            Ok(state) => {
                let key = Some(fields[n - 1].0@);
                encoded_text_is_utf8(fields[n - 1].1);
                lemma_member_step_is_text(state, key, encoded(fields[n - 1].1));
                lemma_text_concat(
                    before.text,
                    member_step(state, key, encoded(fields[n - 1].1)).text,
                );
            },
            Err(_) => {},
        }
    }
}

/// The entries of a map are text, and so is what they set aside.
proof fn lemma_map_is_text(entries: Seq<(Value, Value)>, n: nat, start: StructSerializerView)
    requires
        holds_texts(start),
    ensures
        valid_utf8(map_members(entries, n, start).text),
        map_members(entries, n, start).state is Ok ==> holds_texts(
            map_members(entries, n, start).state->Ok_0,
        ),
    decreases entries, n,
{
    lemma_punctuation_is_text();
    if n == 0 || n > entries.len() {
    } else {
        lemma_map_is_text(entries, (n - 1) as nat, start);
        let before = map_members(entries, (n - 1) as nat, start);
        match before.state {
            Ok(state) => match name_of(entries[n - 1].0) {
                Ok(name) => {
                    encoded_text_is_utf8(entries[n - 1].1);
                    lemma_member_step_is_text(state, Some(name), encoded(entries[n - 1].1));
                    lemma_text_concat(
                        before.text,
                        member_step(state, Some(name), encoded(entries[n - 1].1)).text,
                    );
                },
                Err(_) => {},
            },
            Err(_) => {},
        }
    }
}

} // verus!
