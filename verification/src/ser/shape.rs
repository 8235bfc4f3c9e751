//! The structs of one array have one shape: a struct that is encoded where
//! a struct type is expected presents as many fields as that type has, under
//! the same names and in the same order.

use crate::ser::struct_serializer::{
    closed_fields, closing_items, drained_first, due_field_takes_its_member,
    lemma_member_named_is_member, taken, FieldsBufferView, StructSerializerView,
};
use crate::ser::typed_serializer::{expected_struct, opened_struct};
use crate::types::{FieldView, TypeView};
use crate::value::{
    encoded, encoded_as, map_members, member_step, name_of, struct_members, tuple_members,
    Encoded, Value,
};
use vstd::prelude::*;

verus! {

/// Whether two names agree: they are the same, or one of the two fields has
/// none and is known by its position.
pub open spec fn names_agree(a: Option<Seq<char>>, b: Option<Seq<char>>) -> bool {
    a is None || b is None || a == b
}

/// Whether `fields` has the shape `shape`: as many fields, whose names agree
/// position by position.
pub open spec fn has_shape(fields: Seq<FieldView>, shape: Seq<FieldView>) -> bool {
    &&& fields.len() == shape.len()
    &&& forall|j: int|
        0 <= j < fields.len() ==> names_agree(
            (#[trigger] fields[j]).field_name,
            shape[j].field_name,
        )
}

/// Whether a struct in the state `state` is on its way to the shape `shape`:
/// the fields written so far are the first of the shape, and the fields
/// still due are the rest of it.
spec fn keeps_shape(state: StructSerializerView, shape: Seq<FieldView>) -> bool {
    &&& state.buffer is Some
    &&& state.fields.len() <= shape.len()
    &&& forall|j: int|
        0 <= j < state.fields.len() ==> names_agree(
            (#[trigger] state.fields[j]).field_name,
            shape[j].field_name,
        )
    &&& state.buffer->Some_0.expected == shape.skip(state.fields.len() as int)
}

/// One more member leaves a struct on its way to its shape.
proof fn member_keeps_shape(
    state: StructSerializerView,
    shape: Seq<FieldView>,
    key: Option<Seq<char>>,
    value: Encoded,
)
    requires
        keeps_shape(state, shape),
        member_step(state, key, value).state is Ok,
    ensures
        keeps_shape(member_step(state, key, value).state->Ok_0, shape),
{
    let after = member_step(state, key, value).state->Ok_0;
    let due = state.buffer->Some_0.expected;
    assert(due.len() > 0);
    assert(due[0] == shape[state.fields.len() as int]);
    if after.fields.len() > state.fields.len() {
        assert(after.buffer->Some_0.expected =~= shape.skip(after.fields.len() as int));
        assert forall|j: int| 0 <= j < after.fields.len() implies names_agree(
            (#[trigger] after.fields[j]).field_name,
            shape[j].field_name,
        ) by {
            if j < state.fields.len() {
                assert(after.fields[j] == state.fields[j]);
            }
        }
    }
}

/// A struct that is closed on its way to a shape has that shape.
proof fn closed_struct_has_shape(state: StructSerializerView, shape: Seq<FieldView>)
    requires
        keeps_shape(state, shape),
        closing_items(state) is Ok,
    ensures
        has_shape(closed_fields(state, closing_items(state)->Ok_0), shape),
{
    let items = closing_items(state)->Ok_0;
    let closed = closed_fields(state, items);
    let due = state.buffer->Some_0.expected;
    let members = state.buffer->Some_0.buffered;
    assert(drained_first(due, members, due.len()) is Ok);
    assert(items == drained_first(due, members, due.len())->Ok_0);
    if due.len() > 0 {
        due_field_takes_its_member(due, members, due.len(), 0);
    }
    assert(closed.len() == shape.len());
    assert forall|j: int| 0 <= j < closed.len() implies names_agree(
        (#[trigger] closed[j]).field_name,
        shape[j].field_name,
    ) by {
        if j < state.fields.len() {
            assert(closed[j] == state.fields[j]);
        } else {
            let i = j - state.fields.len();
            assert(closed[j] == items[i].0);
            assert(due[i] == shape[j]);
            due_field_takes_its_member(due, members, due.len(), i);
            if taken(due, members, i) is Some {
                lemma_member_named_is_member(members, due[i].field_name->Some_0);
            }
        }
    }
}

/// The members of a tuple leave a struct on its way to its shape.
proof fn tuple_keeps_shape(
    items: Seq<Value>,
    n: nat,
    start: StructSerializerView,
    shape: Seq<FieldView>,
)
    requires
        keeps_shape(start, shape),
        tuple_members(items, n, start).state is Ok,
    ensures
        keeps_shape(tuple_members(items, n, start).state->Ok_0, shape),
    decreases n,
{
    if n == 0 || n > items.len() {
    } else {
        let before = tuple_members(items, (n - 1) as nat, start);
        tuple_keeps_shape(items, (n - 1) as nat, start, shape);
        member_keeps_shape(before.state->Ok_0, shape, None, encoded(items[n - 1]));
    }
}

/// The fields of a struct leave a struct on its way to its shape.
proof fn fields_keep_shape(
    fields: Seq<(String, Value)>,
    n: nat,
    start: StructSerializerView,
    shape: Seq<FieldView>,
)
    requires
        keeps_shape(start, shape),
        struct_members(fields, n, start).state is Ok,
    ensures
        keeps_shape(struct_members(fields, n, start).state->Ok_0, shape),
    decreases n,
{
    if n == 0 || n > fields.len() {
    } else {
        let before = struct_members(fields, (n - 1) as nat, start);
        fields_keep_shape(fields, (n - 1) as nat, start, shape);
        member_keeps_shape(
            before.state->Ok_0,
            shape,
            Some(fields[n - 1].0@),
            encoded(fields[n - 1].1),
        );
    }
}

/// The entries of a map leave a struct on its way to its shape.
proof fn entries_keep_shape(
    entries: Seq<(Value, Value)>,
    n: nat,
    start: StructSerializerView,
    shape: Seq<FieldView>,
)
    requires
        keeps_shape(start, shape),
        map_members(entries, n, start).state is Ok,
    ensures
        keeps_shape(map_members(entries, n, start).state->Ok_0, shape),
    decreases n,
{
    if n == 0 || n > entries.len() {
    } else {
        let before = map_members(entries, (n - 1) as nat, start);
        entries_keep_shape(entries, (n - 1) as nat, start, shape);
        member_keeps_shape(
            before.state->Ok_0,
            shape,
            Some(name_of(entries[n - 1].0)->Ok_0),
            encoded(entries[n - 1].1),
        );
    }
}

/// Field-order normalization: a tuple, a struct or a map that is encoded
/// where the struct type `Struct(shape)` is expected gives a struct of that
/// shape. It has as many fields as the expected type, and the name of each
/// is the name of the expected field in its position, where both have one.
pub proof fn struct_takes_expected_shape(v: Value, shape: Seq<FieldView>)
    requires
        v is Tuple || v is TupleStruct || v is Mapping || v is Struct,
        encoded_as(v, TypeView::Struct(shape)).outcome is Ok,
    ensures
        encoded_as(v, TypeView::Struct(shape)).outcome->Ok_0 is Struct,
        has_shape(encoded_as(v, TypeView::Struct(shape)).outcome->Ok_0->Struct_0, shape),
{
    let expected = TypeView::Struct(shape);
    let start = expected_struct(expected, opened_struct())->Ok_0;
    assert(start == StructSerializerView {
        fields: Seq::empty(),
        pending_key: None,
        buffer: Some(FieldsBufferView { expected: shape, buffered: Seq::empty() }),
    });
    assert(shape.skip(0) =~= shape);
    assert(keeps_shape(start, shape));
    match v {
        Value::Tuple(items) | Value::TupleStruct(_, items) => {
            let members = tuple_members(items@, items@.len(), start);
            tuple_keeps_shape(items@, items@.len(), start, shape);
            closed_struct_has_shape(members.state->Ok_0, shape);
        },
        Value::Mapping(entries) => {
            let members = map_members(entries@, entries@.len(), start);
            entries_keep_shape(entries@, entries@.len(), start, shape);
            closed_struct_has_shape(members.state->Ok_0, shape);
        },
        Value::Struct(_, fields) => {
            let members = struct_members(fields@, fields@.len(), start);
            fields_keep_shape(fields@, fields@.len(), start, shape);
            closed_struct_has_shape(members.state->Ok_0, shape);
        },
        _ => {},
    }
}

} // verus!
