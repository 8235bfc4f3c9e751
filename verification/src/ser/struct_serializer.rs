//! The encoder of struct literals, and the buffer that brings the members of
//! a struct into the order that the earlier elements of its array have set.

use crate::error::{result_view, Error, ErrorView};
use crate::ser::identifier::format_as_identifier;
use crate::ser::literal::{name_suffix, null_text, separator, struct_close};
use crate::ser::serializer::Serializer;
use crate::types::{
    fields_view, lemma_struct_view, name_view, same_name, Field, FieldView, Type, TypeView,
};
use vstd::prelude::*;

verus! {

/// What becomes of a member that is offered to a struct with an expected
/// shape.
#[derive(Debug)]
pub enum FieldsBufferDecision {
    /// It is not the member that is due: its text is set aside until the
    /// struct is closed.
    Buffered,
    /// It is the member that is due: its text is written at once.
    Expected,
}

/// A member whose text is ready: its field, which is its name and the type
/// of its value, and its literal.
#[derive(Debug)]
pub struct BufferedField {
    pub field: Field,
    pub rendered: Vec<u8>,
}

/// The view of an optional name that is borrowed.
pub open spec fn key_view(key: Option<&str>) -> Option<Seq<char>> {
    match key {
        Some(name) => Some(name@),
        None => None,
    }
}

/// The views of a list of members with their texts, in order.
pub open spec fn entries_view(entries: Seq<BufferedField>) -> Seq<(FieldView, Seq<u8>)> {
    Seq::new(entries.len(), |i: int| (entries[i].field@, entries[i].rendered@))
}

/// The fields of a list of members with their texts, in order.
pub open spec fn entry_fields(items: Seq<(FieldView, Seq<u8>)>) -> Seq<FieldView> {
    Seq::new(items.len(), |i: int| items[i].0)
}

/// What is decided of a member named `key` when `expected` are the fields
/// still due. With no name on either side the member is taken by position.
/// A member is unexpected once no field is due any more.
pub open spec fn decision(expected: Seq<FieldView>, key: Option<Seq<char>>) -> Result<
    FieldsBufferDecision,
    ErrorView,
> {
    if expected.len() == 0 {
        Err(
            ErrorView::UnexpectedStructField(
                FieldView { field_type: TypeView::Any, field_name: key },
            ),
        )
    } else if expected[0].field_name is None || key is None || expected[0].field_name == key {
        Ok(FieldsBufferDecision::Expected)
    } else {
        Ok(FieldsBufferDecision::Buffered)
    }
}

/// The first of `members` that is named `name`, where there is one.
pub open spec fn member_named(members: Seq<(FieldView, Seq<u8>)>, name: Seq<char>) -> Option<
    (FieldView, Seq<u8>),
>
    decreases members.len(),
{
    if members.len() == 0 {
        None
    } else if members[0].0.field_name == Some(name) {
        Some(members[0])
    } else {
        member_named(members.drop_first(), name)
    }
}

/// The member that the due field at `i` takes when the struct is closed: the
/// one that was set aside under the field's name. A member is taken once:
/// where an earlier due field has the same name, that field has taken it.
pub open spec fn taken(
    expected: Seq<FieldView>,
    members: Seq<(FieldView, Seq<u8>)>,
    i: int,
) -> Option<(FieldView, Seq<u8>)> {
    match expected[i].field_name {
        Some(name) => if forall|j: int|
            0 <= j < i ==> (#[trigger] expected[j]).field_name != Some(name) {
            member_named(members, name)
        } else {
            None
        },
        None => None,
    }
}

/// What closing a struct adds for the first `n` of the fields that are
/// still due: each of them in order, as the member that it takes, or with
/// `NULL` where it takes none. A member whose type is not compatible with
/// the type of the field that takes it makes the close fail with
/// `UnexpectedType`.
pub open spec fn drained_first(
    expected: Seq<FieldView>,
    members: Seq<(FieldView, Seq<u8>)>,
    n: nat,
) -> Result<Seq<(FieldView, Seq<u8>)>, ErrorView>
    decreases n,
{
    if n == 0 || n > expected.len() {
        Ok(Seq::empty())
    } else {
        match drained_first(expected, members, (n - 1) as nat) {
            Ok(items) => match taken(expected, members, n - 1) {
                Some(member) => if expected[n - 1].field_type.matches(member.0.field_type) {
                    Ok(items.push(member))
                } else {
                    Err(
                        ErrorView::UnexpectedType {
                            expected: expected[n - 1].field_type,
                            found: member.0.field_type,
                        },
                    )
                },
                None => Ok(items.push((expected[n - 1], null_text()))),
            },
            Err(e) => Err(e),
        }
    }
}

/// Whether one of the fields `expected` has the name `name`.
pub open spec fn is_due(expected: Seq<FieldView>, name: Option<Seq<char>>) -> bool {
    exists|i: int| 0 <= i < expected.len() && (#[trigger] expected[i]).field_name == name
}

/// The first among the first `n` of `members` that no due field takes,
/// because none has its name.
pub open spec fn left_over(
    expected: Seq<FieldView>,
    members: Seq<(FieldView, Seq<u8>)>,
    n: nat,
) -> Option<FieldView>
    decreases n,
{
    if n == 0 || n > members.len() {
        None
    } else {
        match left_over(expected, members, (n - 1) as nat) {
            Some(field) => Some(field),
            None => if is_due(expected, members[n - 1].0.field_name) {
                None
            } else {
                Some(members[n - 1].0)
            },
        }
    }
}

/// What closing a struct adds for the fields that are still due, where
/// `members` were set aside. Each due field takes the member that was set
/// aside under its name, and a field that takes none is written as `NULL`. A
/// member of a type that is not compatible with its field's fails with
/// `UnexpectedType`. A member that no due field takes fails with
/// `UnexpectedStructField`: no member is dropped.
pub open spec fn drained(expected: Seq<FieldView>, members: Seq<(FieldView, Seq<u8>)>) -> Result<
    Seq<(FieldView, Seq<u8>)>,
    ErrorView,
> {
    match drained_first(expected, members, expected.len()) {
        Ok(items) => match left_over(expected, members, members.len()) {
            Some(field) => Err(ErrorView::UnexpectedStructField(field)),
            None => Ok(items),
        },
        Err(e) => Err(e),
    }
}

/// The text of one member: the separator, the member's literal, and its name.
pub open spec fn member_text(first: bool, text: Seq<u8>, name: Option<Seq<char>>) -> Seq<u8> {
    separator(first) + text + name_suffix(name)
}

/// The text of the members `items`, written behind `count` earlier members.
pub open spec fn members_text(count: nat, items: Seq<(FieldView, Seq<u8>)>) -> Seq<u8>
    decreases items.len(),
{
    if items.len() == 0 {
        Seq::empty()
    } else {
        members_text(count, items.drop_last()) + member_text(
            count + items.len() - 1 == 0,
            items.last().1,
            items.last().0.field_name,
        )
    }
}

/// The member at `i` is the first of its name.
proof fn lemma_member_found(members: Seq<(FieldView, Seq<u8>)>, name: Seq<char>, i: int)
    requires
        0 <= i < members.len(),
        members[i].0.field_name == Some(name),
        forall|j: int| 0 <= j < i ==> (#[trigger] members[j]).0.field_name != Some(name),
    ensures
        member_named(members, name) == Some(members[i]),
    decreases i,
{
    if i > 0 {
        let rest = members.drop_first();
        assert(members[0].0.field_name != Some(name));
        assert forall|j: int| 0 <= j < i - 1 implies (#[trigger] rest[j]).0.field_name != Some(
            name,
        ) by {
            assert(rest[j] == members[j + 1]);
        }
        assert(rest[i - 1] == members[i]);
        lemma_member_found(rest, name, i - 1);
    }
}

/// No member has the name.
proof fn lemma_member_absent(members: Seq<(FieldView, Seq<u8>)>, name: Seq<char>)
    requires
        forall|j: int| 0 <= j < members.len() ==> (#[trigger] members[j]).0.field_name != Some(name),
    ensures
        member_named(members, name) is None,
    decreases members.len(),
{
    if members.len() > 0 {
        let rest = members.drop_first();
        assert(members[0].0.field_name != Some(name));
        assert forall|j: int| 0 <= j < rest.len() implies (#[trigger] rest[j]).0.field_name
            != Some(name) by {
            assert(rest[j] == members[j + 1]);
        }
        lemma_member_absent(rest, name);
    }
}

/// Once a due field has failed, the fields after it change nothing.
proof fn lemma_drained_stays_failed(
    expected: Seq<FieldView>,
    members: Seq<(FieldView, Seq<u8>)>,
    k: nat,
    n: nat,
)
    requires
        k <= n <= expected.len(),
        drained_first(expected, members, k) is Err,
    ensures
        drained_first(expected, members, n) == drained_first(expected, members, k),
    decreases n,
{
    if n > k {
        lemma_drained_stays_failed(expected, members, k, (n - 1) as nat);
    }
}

/// The first member that is left over stays the first.
proof fn lemma_left_over_stays(
    expected: Seq<FieldView>,
    members: Seq<(FieldView, Seq<u8>)>,
    k: nat,
    n: nat,
)
    requires
        k <= n <= members.len(),
        left_over(expected, members, k) is Some,
    ensures
        left_over(expected, members, n) == left_over(expected, members, k),
    decreases n,
{
    if n > k {
        lemma_left_over_stays(expected, members, k, (n - 1) as nat);
    }
}

/// The member that is found under a name is one of the members, and has
/// that name.
pub proof fn lemma_member_named_is_member(members: Seq<(FieldView, Seq<u8>)>, name: Seq<char>)
    requires
        member_named(members, name) is Some,
    ensures
        member_named(members, name)->Some_0.0.field_name == Some(name),
        exists|j: int| 0 <= j < members.len() && #[trigger] members[j] == member_named(
            members,
            name,
        )->Some_0,
    decreases members.len(),
{
    if members[0].0.field_name == Some(name) {
        assert(members[0] == member_named(members, name)->Some_0);
    } else {
        let rest = members.drop_first();
        lemma_member_named_is_member(rest, name);
        let j = choose|j: int|
            0 <= j < rest.len() && #[trigger] rest[j] == member_named(rest, name)->Some_0;
        assert(members[j + 1] == rest[j]);
    }
}

/// What a successful close adds for a due field: the member that the field
/// takes, or the field itself with `NULL`.
pub proof fn due_field_takes_its_member(
    expected: Seq<FieldView>,
    members: Seq<(FieldView, Seq<u8>)>,
    n: nat,
    i: int,
)
    requires
        0 <= i < n <= expected.len(),
        drained_first(expected, members, n) is Ok,
    ensures
        drained_first(expected, members, n)->Ok_0.len() == n,
        drained_first(expected, members, n)->Ok_0[i] == (match taken(expected, members, i) {
            Some(member) => member,
            None => (expected[i], null_text()),
        }),
        taken(expected, members, i) is Some ==> expected[i].field_type.matches(
            taken(expected, members, i)->Some_0.0.field_type,
        ),
    decreases n,
{
    lemma_drained_length(expected, members, n);
    lemma_drained_length(expected, members, (n - 1) as nat);
    if i < n - 1 {
        due_field_takes_its_member(expected, members, (n - 1) as nat, i);
    }
}

/// A successful close adds one member for each due field.
proof fn lemma_drained_length(expected: Seq<FieldView>, members: Seq<(FieldView, Seq<u8>)>, n: nat)
    requires
        n <= expected.len(),
        drained_first(expected, members, n) is Ok,
    ensures
        drained_first(expected, members, n)->Ok_0.len() == n,
    decreases n,
{
    if n > 0 {
        lemma_drained_length(expected, members, (n - 1) as nat);
    }
}

/// A member whose type its field does not admit is not replaced by `NULL`:
/// the close fails. Where no earlier due field fails, it fails with
/// `UnexpectedType`, which names the field's type and the member's.
pub proof fn mismatched_member_fails(
    expected: Seq<FieldView>,
    members: Seq<(FieldView, Seq<u8>)>,
    i: int,
)
    requires
        0 <= i < expected.len(),
        taken(expected, members, i) is Some,
        !expected[i].field_type.matches(taken(expected, members, i)->Some_0.0.field_type),
    ensures
        drained(expected, members) is Err,
        drained_first(expected, members, i as nat) is Ok ==> drained(expected, members) == Err::<
            Seq<(FieldView, Seq<u8>)>,
            ErrorView,
        >(
            ErrorView::UnexpectedType {
                expected: expected[i].field_type,
                found: taken(expected, members, i)->Some_0.0.field_type,
            },
        ),
{
    if drained_first(expected, members, i as nat) is Ok {
        lemma_drained_stays_failed(expected, members, (i + 1) as nat, expected.len());
    } else {
        lemma_drained_stays_failed(expected, members, i as nat, expected.len());
    }
}

/// No member is dropped: where a member was set aside under a name that no
/// due field has, the close fails. Where every due field is content, it
/// fails with `UnexpectedStructField`.
pub proof fn member_without_room_fails(
    expected: Seq<FieldView>,
    members: Seq<(FieldView, Seq<u8>)>,
    j: int,
)
    requires
        0 <= j < members.len(),
        !is_due(expected, members[j].0.field_name),
    ensures
        drained(expected, members) is Err,
        drained_first(expected, members, expected.len()) is Ok ==> drained(expected, members)
            is Err && drained(expected, members)->Err_0 is UnexpectedStructField,
{
    assert(left_over(expected, members, (j + 1) as nat) is Some);
    lemma_left_over_stays(expected, members, (j + 1) as nat, members.len());
}

/// Where a close succeeds, every member that was set aside has the name of
/// a due field.
pub proof fn closing_takes_every_member(
    expected: Seq<FieldView>,
    members: Seq<(FieldView, Seq<u8>)>,
    j: int,
)
    requires
        0 <= j < members.len(),
        drained(expected, members) is Ok,
    ensures
        is_due(expected, members[j].0.field_name),
{
    if !is_due(expected, members[j].0.field_name) {
        member_without_room_fails(expected, members, j);
    }
}

/// The index of the first member that was set aside under `name`, where
/// there is one.
fn find(entries: &Vec<BufferedField>, name: &Option<String>) -> (r: Option<usize>)
    requires
        name is Some,
    ensures
        match r {
            Some(at) => at < entries.len() && member_named(
                entries_view(entries@),
                name->Some_0@,
            ) == Some(entries_view(entries@)[at as int]),
            None => member_named(entries_view(entries@), name->Some_0@) is None,
        },
{
    let ghost members = entries_view(entries@);
    let mut i: usize = 0;
    while i < entries.len()
        invariant
            i <= entries.len(),
            name is Some,
            members == entries_view(entries@),
            forall|j: int|
                0 <= j < i ==> (#[trigger] members[j]).0.field_name != Some(name->Some_0@),
        decreases entries.len() - i,
    {
        if same_name(&entries[i].field.field_name, name) {
            proof {
                lemma_member_found(members, name->Some_0@, i as int);
            }
            return Some(i);
        }
        i += 1;
    }
    proof {
        lemma_member_absent(members, name->Some_0@);
    }
    None
}

/// Whether one of the fields from `from` up to `to` has the name `name`.
fn named_within(fields: &Vec<Field>, from: usize, to: usize, name: &Option<String>) -> (r: bool)
    requires
        from <= to <= fields.len(),
    ensures
        r == exists|k: int| from <= k < to && (#[trigger] fields@[k])@.field_name == name_view(*name),
{
    let mut k: usize = from;
    while k < to
        invariant
            from <= k <= to <= fields.len(),
            forall|j: int| from <= j < k ==> (#[trigger] fields@[j])@.field_name != name_view(*name),
        decreases to - k,
    {
        if same_name(&fields[k].field_name, name) {
            return true;
        }
        k += 1;
    }
    false
}

/// The fields that a struct is still to present, in order, and the members
/// that arrived ahead of their place.
#[derive(Debug)]
pub struct FieldsBuffer {
    expected_fields: Vec<Field>,
    position: usize,
    fields_buffer: Vec<BufferedField>,
}

/// The mathematical value of a [`FieldsBuffer`]: the fields still due, and
/// the members that were set aside, in the order in which they came.
pub struct FieldsBufferView {
    pub expected: Seq<FieldView>,
    pub buffered: Seq<(FieldView, Seq<u8>)>,
}

impl View for FieldsBuffer {
    type V = FieldsBufferView;

    closed spec fn view(&self) -> FieldsBufferView {
        FieldsBufferView {
            expected: if self.position <= self.expected_fields@.len() {
                fields_view(self.expected_fields@).skip(self.position as int)
            } else {
                Seq::empty()
            },
            buffered: entries_view(self.fields_buffer@),
        }
    }
}

impl FieldsBuffer {
    /// A buffer for a struct that is to present `expected_fields`.
    pub fn with_expected_fields(expected_fields: &[Field]) -> (r: FieldsBuffer)
        ensures
            r@.expected == fields_view(expected_fields@),
            r@.buffered == Seq::<(FieldView, Seq<u8>)>::empty(),
    {
        let mut copy: Vec<Field> = Vec::new();
        let mut i: usize = 0;
        while i < expected_fields.len()
            invariant
                i <= expected_fields.len(),
                copy@.len() == i,
                forall|j: int| 0 <= j < i ==> copy@[j]@ == expected_fields@[j]@,
            decreases expected_fields.len() - i,
        {
            copy.push(expected_fields[i].duplicate());
            i += 1;
        }
        let r = FieldsBuffer { expected_fields: copy, position: 0, fields_buffer: Vec::new() };
        assert(r@.expected =~= fields_view(expected_fields@));
        assert(r@.buffered =~= Seq::<(FieldView, Seq<u8>)>::empty());
        r
    }

    /// Sets aside `rendered`, the text of a member named `key` whose type is
    /// `field_type`. A struct may not offer two members of one name this
    /// way: the second is refused, and the first stays.
    pub fn buffer(&mut self, key: &str, field_type: Type, rendered: Vec<u8>) -> (r: Result<
        (),
        Error,
    >)
        ensures
            final(self)@.expected == old(self)@.expected,
            match member_named(old(self)@.buffered, key@) {
                Some(_) => {
                    &&& r is Err
                    &&& r->Err_0@ == ErrorView::DuplicateStructField(key@)
                    &&& final(self)@.buffered == old(self)@.buffered
                },
                None => {
                    &&& r is Ok
                    &&& final(self)@.buffered == old(self)@.buffered.push(
                        (FieldView { field_type: field_type@, field_name: Some(key@) }, rendered@),
                    )
                },
            },
    {
        let name = Some(String::from_str(key));
        match find(&self.fields_buffer, &name) {
            Some(_) => Err(Error::DuplicateStructField(String::from_str(key))),
            None => {
                let field = Field::with_type_and_name(field_type, name);
                self.fields_buffer.push(BufferedField { field, rendered });
                assert(final(self)@.buffered =~= old(self)@.buffered.push(
                    (FieldView { field_type: field_type@, field_name: Some(key@) }, rendered@),
                ));
                Ok(())
            },
        }
    }

    /// Decides what becomes of the next member, named `key`. Where it is the
    /// member that is due, the field that was due is due no longer.
    pub fn decide(&mut self, key: Option<&str>) -> (r: Result<FieldsBufferDecision, Error>)
        ensures
            final(self)@.buffered == old(self)@.buffered,
            match decision(old(self)@.expected, key_view(key)) {
                Ok(FieldsBufferDecision::Expected) => {
                    &&& r == Ok::<FieldsBufferDecision, Error>(FieldsBufferDecision::Expected)
                    &&& final(self)@.expected == old(self)@.expected.drop_first()
                },
                Ok(FieldsBufferDecision::Buffered) => {
                    &&& r == Ok::<FieldsBufferDecision, Error>(FieldsBufferDecision::Buffered)
                    &&& final(self)@.expected == old(self)@.expected
                },
                Err(e) => {
                    &&& r is Err
                    &&& r->Err_0@ == e
                    &&& final(self)@.expected == old(self)@.expected
                },
            },
    {
        if self.position < self.expected_fields.len() {
            let ghost due = fields_view(self.expected_fields@).skip(self.position as int);
            assert(due[0] == self.expected_fields@[self.position as int]@);
            assert(due.drop_first() =~= fields_view(self.expected_fields@).skip(
                self.position as int + 1,
            ));
            let head = &self.expected_fields[self.position];
            let expected = match &head.field_name {
                Some(expected_name) => match key {
                    Some(name) => {
                        let name = String::from_str(name);
                        expected_name.eq(&name)
                    },
                    None => true,
                },
                None => true,
            };
            if expected {
                self.position = self.position + 1;
                Ok(FieldsBufferDecision::Expected)
            } else {
                Ok(FieldsBufferDecision::Buffered)
            }
        } else {
            let name = match key {
                Some(s) => Some(String::from_str(s)),
                None => None,
            };
            assert(old(self)@.expected.len() == 0);
            Err(Error::UnexpectedStructField(Field::with_name(name)))
        }
    }

    /// Ends the buffer: the fields still due, in order, each as the member
    /// that was set aside under its name or with `NULL`. Fails where a
    /// member is of a type that its field does not admit, and where a member
    /// was set aside that no due field takes.
    #[verifier::loop_isolation(false)]
    pub fn drain(self) -> (r: Result<Vec<BufferedField>, Error>)
        ensures
            match drained(self@.expected, self@.buffered) {
                Ok(items) => r is Ok && entries_view(r->Ok_0@) == items,
                Err(e) => r is Err && r->Err_0@ == e,
            },
    {
        let ghost expected = self@.expected;
        let ghost members = self@.buffered;
        let FieldsBuffer { expected_fields, position, fields_buffer } = self;
        let start: usize = if position <= expected_fields.len() {
            position
        } else {
            expected_fields.len()
        };
        assert(expected =~= fields_view(expected_fields@).skip(start as int));
        let mut out: Vec<BufferedField> = Vec::new();
        let mut i: usize = start;
        assert(entries_view(out@) =~= Seq::<(FieldView, Seq<u8>)>::empty());
        while i < expected_fields.len()
            invariant
                start <= i <= expected_fields.len(),
                out@.len() == i - start,
                drained_first(expected, members, (i - start) as nat) == Ok::<
                    Seq<(FieldView, Seq<u8>)>,
                    ErrorView,
                >(entries_view(out@)),
            decreases expected_fields.len() - i,
        {
            let due = &expected_fields[i];
            let ghost at = i - start;
            let ghost done = out@;
            assert(expected[at] == due@);
            let found = if due.field_name.is_some() {
                let earlier = named_within(&expected_fields, start, i, &due.field_name);
                proof {
                    let name = due@.field_name->Some_0;
                    if earlier {
                        let k = choose|k: int|
                            start <= k < i && (#[trigger] expected_fields@[k])@.field_name
                                == name_view(due.field_name);
                        assert(expected[k - start].field_name == Some(name));
                    } else {
                        assert forall|j: int| 0 <= j < at implies (#[trigger] expected[j]).field_name
                            != Some(name) by {
                            assert(expected[j] == expected_fields@[j + start]@);
                        }
                    }
                }
                if earlier {
                    None
                } else {
                    find(&fields_buffer, &due.field_name)
                }
            } else {
                None
            };
            assert(match found {
                Some(index) => taken(expected, members, at) == Some(members[index as int]),
                None => taken(expected, members, at) is None,
            });
            let entry = match found {
                Some(index) => {
                    let member = &fields_buffer[index];
                    assert(members[index as int] == (member.field@, member.rendered@));
                    if !due.field_type.matches(&member.field.field_type) {
                        proof {
                            lemma_drained_stays_failed(
                                expected,
                                members,
                                (at + 1) as nat,
                                expected.len(),
                            );
                        }
                        return Err(
                            Error::UnexpectedType {
                                expected: due.field_type.duplicate(),
                                found: member.field.field_type.duplicate(),
                            },
                        );
                    }
                    BufferedField { field: member.field.duplicate(), rendered: member.rendered.clone() }
                },
                None => {
                    let mut null: Vec<u8> = Vec::new();
                    null.extend_from_slice("NULL".as_bytes());
                    assert(null@ =~= null_text());
                    BufferedField { field: due.duplicate(), rendered: null }
                },
            };
            out.push(entry);
            proof {
                let target = drained_first(expected, members, (at + 1) as nat)->Ok_0;
                assert(entries_view(out@) =~= entries_view(done).push((entry.field@, entry.rendered@)));
                assert(entries_view(out@) =~= target);
            }
            i += 1;
        }
        let mut j: usize = 0;
        while j < fields_buffer.len()
            invariant
                j <= fields_buffer.len(),
                left_over(expected, members, j as nat) is None,
            decreases fields_buffer.len() - j,
        {
            let member = &fields_buffer[j];
            assert(members[j as int].0 == member.field@);
            let due = named_within(
                &expected_fields,
                start,
                expected_fields.len(),
                &member.field.field_name,
            );
            proof {
                let name = member.field@.field_name;
                if due {
                    let k = choose|k: int|
                        start <= k < expected_fields.len() && (#[trigger] expected_fields@[k])@.field_name
                            == name;
                    assert(expected[k - start].field_name == name);
                    assert(is_due(expected, name));
                } else {
                    assert forall|i: int| 0 <= i < expected.len() implies (#[trigger] expected[i]).field_name
                        != name by {
                        assert(expected[i] == expected_fields@[i + start]@);
                    }
                    assert(!is_due(expected, name));
                }
            }
            if !due {
                proof {
                    lemma_left_over_stays(expected, members, (j + 1) as nat, members.len());
                }
                return Err(Error::UnexpectedStructField(member.field.duplicate()));
            }
            j += 1;
        }
        Ok(out)
    }
}

/// The encoder of one struct literal, between the `STRUCT(` that opened it
/// and the `)` that closes it. It keeps the fields written so far, the key of
/// a map entry whose value is still to come, and, where the struct is an
/// element of an array whose earlier elements have set a shape, the buffer
/// that holds the struct to that shape.
#[derive(Debug)]
pub struct StructSerializer {
    fields: Vec<Field>,
    pending_key: Option<String>,
    fields_buffer: Option<FieldsBuffer>,
}

/// The mathematical value of a [`StructSerializer`].
pub struct StructSerializerView {
    pub fields: Seq<FieldView>,
    pub pending_key: Option<Seq<char>>,
    pub buffer: Option<FieldsBufferView>,
}

/// The view of an optional buffer.
pub open spec fn option_buffer_view(buffer: Option<FieldsBuffer>) -> Option<FieldsBufferView> {
    match buffer {
        Some(b) => Some(b@),
        None => None,
    }
}

impl View for StructSerializer {
    type V = StructSerializerView;

    closed spec fn view(&self) -> StructSerializerView {
        StructSerializerView {
            fields: fields_view(self.fields@),
            pending_key: name_view(self.pending_key),
            buffer: option_buffer_view(self.fields_buffer),
        }
    }
}

/// What is decided of a member named `key` that is offered to a struct in
/// the state `state`: a struct without an expected shape takes every member
/// as it comes.
pub open spec fn field_decision(state: StructSerializerView, key: Option<Seq<char>>) -> Result<
    FieldsBufferDecision,
    ErrorView,
> {
    match state.buffer {
        Some(b) => decision(b.expected, key),
        None => Ok(FieldsBufferDecision::Expected),
    }
}

/// The buffer once the field that was due has been presented.
pub open spec fn advanced(buffer: Option<FieldsBufferView>) -> Option<FieldsBufferView> {
    match buffer {
        Some(b) => Some(
            FieldsBufferView { expected: b.expected.drop_first(), buffered: b.buffered },
        ),
        None => None,
    }
}

/// What closing a struct in the state `state` adds: the members for the
/// fields still due, or the failure of the close.
pub open spec fn closing_items(state: StructSerializerView) -> Result<
    Seq<(FieldView, Seq<u8>)>,
    ErrorView,
> {
    match state.buffer {
        Some(b) => drained(b.expected, b.buffered),
        None => Ok(Seq::empty()),
    }
}

/// The fields of a struct in the state `state` once it is closed, where
/// closing it adds `items`.
pub open spec fn closed_fields(state: StructSerializerView, items: Seq<(FieldView, Seq<u8>)>) -> Seq<
    FieldView,
> {
    state.fields + entry_fields(items)
}

/// What closing a struct in the state `state` writes: nothing where the
/// close fails or the struct has no field, else the members for the fields
/// still due and the `)`.
pub open spec fn closing_text(state: StructSerializerView) -> Seq<u8> {
    match closing_items(state) {
        Ok(items) => if closed_fields(state, items).len() == 0 {
            Seq::empty()
        } else {
            members_text(state.fields.len(), items) + struct_close()
        },
        Err(_) => Seq::empty(),
    }
}

/// How closing a struct in the state `state` ends: with the failure of the
/// close, with `EmptyStruct` where the struct has no field, else with the
/// struct's type.
pub open spec fn closing_outcome(state: StructSerializerView) -> Result<TypeView, ErrorView> {
    match closing_items(state) {
        Ok(items) => if closed_fields(state, items).len() == 0 {
            Err(ErrorView::EmptyStruct)
        } else {
            Ok(TypeView::Struct(closed_fields(state, items)))
        },
        Err(e) => Err(e),
    }
}

/// Writes what follows a member named `key`.
fn write_name(serializer: &mut Serializer, key: Option<&str>)
    ensures
        final(serializer)@ == old(serializer)@ + name_suffix(key_view(key)),
{
    match key {
        Some(name) => {
            if !name.is_empty() {
                let identifier = format_as_identifier(name);
                serializer.write_str(" AS ");
                serializer.write_str(identifier.as_str());
                assert(serializer@ =~= old(serializer)@ + name_suffix(key_view(key)));
            } else {
                assert(serializer@ =~= old(serializer)@ + name_suffix(key_view(key)));
            }
        },
        None => {
            assert(serializer@ =~= old(serializer)@ + name_suffix(key_view(key)));
        },
    }
}

impl StructSerializer {
    /// The encoder of a struct that has just been opened: no field yet, no
    /// key pending, no expected shape.
    pub fn new() -> (r: StructSerializer)
        ensures
            r@ == (StructSerializerView {
                fields: Seq::empty(),
                pending_key: None,
                buffer: None,
            }),
    {
        let r = StructSerializer { fields: Vec::new(), pending_key: None, fields_buffer: None };
        assert(r@.fields =~= Seq::<FieldView>::empty());
        r
    }

    /// The same encoder, held to present `expected_fields` in their order.
    pub fn with_expected_fields(self, expected_fields: &[Field]) -> (r: StructSerializer)
        ensures
            r@ == (StructSerializerView {
                fields: self@.fields,
                pending_key: self@.pending_key,
                buffer: Some(
                    FieldsBufferView {
                        expected: fields_view(expected_fields@),
                        buffered: Seq::empty(),
                    },
                ),
            }),
    {
        StructSerializer {
            fields: self.fields,
            pending_key: self.pending_key,
            fields_buffer: Some(FieldsBuffer::with_expected_fields(expected_fields)),
        }
    }

    /// Whether a key is waiting for its value.
    pub fn has_pending_key(&self) -> (r: bool)
        ensures
            r == (self@.pending_key is Some),
    {
        self.pending_key.is_some()
    }

    /// Whether the struct is held to an expected shape.
    pub fn has_expected_fields(&self) -> (r: bool)
        ensures
            r == (self@.buffer is Some),
    {
        self.fields_buffer.is_some()
    }

    /// Begins the member named `key`. Where the member is taken as it comes,
    /// the separator is written and the caller encodes the value with
    /// `serializer`, then calls [`StructSerializer::end_field`]. Where it is
    /// to be set aside, nothing is written: the caller encodes the value
    /// with a serializer of its own and hands the text to
    /// [`StructSerializer::buffer_field`]. A member for which the expected
    /// shape has no room is refused.
    pub fn begin_field(&mut self, serializer: &mut Serializer, key: Option<&str>) -> (r: Result<
        FieldsBufferDecision,
        Error,
    >)
        ensures
            final(self)@.fields == old(self)@.fields,
            final(self)@.pending_key == old(self)@.pending_key,
            match field_decision(old(self)@, key_view(key)) {
                Ok(FieldsBufferDecision::Expected) => {
                    &&& r == Ok::<FieldsBufferDecision, Error>(FieldsBufferDecision::Expected)
                    &&& final(serializer)@ == old(serializer)@ + separator(
                        old(self)@.fields.len() == 0,
                    )
                    &&& final(self)@.buffer == advanced(old(self)@.buffer)
                },
                Ok(FieldsBufferDecision::Buffered) => {
                    &&& r == Ok::<FieldsBufferDecision, Error>(FieldsBufferDecision::Buffered)
                    &&& final(serializer)@ == old(serializer)@
                    &&& final(self)@.buffer == old(self)@.buffer
                },
                Err(e) => {
                    &&& r is Err
                    &&& r->Err_0@ == e
                    &&& final(serializer)@ == old(serializer)@
                    &&& final(self)@.buffer == old(self)@.buffer
                },
            },
    {
        let taken = self.fields_buffer.take();
        let decided = match taken {
            Some(mut buffer) => {
                let decided = buffer.decide(key);
                self.fields_buffer = Some(buffer);
                decided
            },
            None => Ok(FieldsBufferDecision::Expected),
        };
        match decided {
            Ok(FieldsBufferDecision::Expected) => {
                if !self.fields.is_empty() {
                    serializer.write_byte(44u8);
                } else {
                    assert(serializer@ =~= old(serializer)@ + separator(true));
                }
                Ok(FieldsBufferDecision::Expected)
            },
            Ok(FieldsBufferDecision::Buffered) => Ok(FieldsBufferDecision::Buffered),
            Err(e) => Err(e),
        }
    }

    /// Ends a member that was taken as it came: `value` is the outcome of
    /// encoding its value with `serializer`. Where that failed, the failure
    /// is passed on. Else the name follows the value, and the field joins
    /// the fields of the struct.
    pub fn end_field(
        &mut self,
        serializer: &mut Serializer,
        key: Option<&str>,
        value: Result<Type, Error>,
    ) -> (r: Result<(), Error>)
        ensures
            final(self)@.pending_key == old(self)@.pending_key,
            final(self)@.buffer == old(self)@.buffer,
            match value {
                Ok(field_type) => {
                    &&& r is Ok
                    &&& final(serializer)@ == old(serializer)@ + name_suffix(key_view(key))
                    &&& final(self)@.fields == old(self)@.fields.push(
                        FieldView { field_type: field_type@, field_name: key_view(key) },
                    )
                },
                Err(e) => {
                    &&& r == Err::<(), Error>(e)
                    &&& final(serializer)@ == old(serializer)@
                    &&& final(self)@.fields == old(self)@.fields
                },
            },
    {
        match value {
            Ok(field_type) => {
                write_name(serializer, key);
                let name = match key {
                    Some(name) => Some(String::from_str(name)),
                    None => None,
                };
                self.fields.push(Field::with_type_and_name(field_type, name));
                assert(final(self)@.fields =~= old(self)@.fields.push(
                    FieldView { field_type: field_type@, field_name: key_view(key) },
                ));
                Ok(())
            },
            Err(e) => Err(e),
        }
    }

    /// Sets aside a member that arrived ahead of its place: `value` is the
    /// outcome of encoding its value with a serializer of the caller's own,
    /// `rendered` the text that serializer wrote. Where the encoding
    /// failed, the failure is passed on. The call fails too where a member
    /// of that name had been set aside already. The struct must have an
    /// expected shape.
    pub fn buffer_field(&mut self, key: &str, value: Result<Type, Error>, rendered: Vec<u8>) -> (r:
        Result<(), Error>)
        requires
            old(self)@.buffer is Some,
        ensures
            final(self)@.fields == old(self)@.fields,
            final(self)@.pending_key == old(self)@.pending_key,
            match value {
                Ok(field_type) => match member_named(
                    old(self)@.buffer.unwrap().buffered,
                    key@,
                ) {
                    Some(_) => {
                        &&& r is Err
                        &&& r->Err_0@ == ErrorView::DuplicateStructField(key@)
                        &&& final(self)@.buffer == old(self)@.buffer
                    },
                    None => {
                        &&& r is Ok
                        &&& final(self)@.buffer == Some(
                            FieldsBufferView {
                                expected: old(self)@.buffer.unwrap().expected,
                                buffered: old(self)@.buffer.unwrap().buffered.push(
                                    (
                                        FieldView { field_type: field_type@, field_name: Some(key@) },
                                        rendered@,
                                    ),
                                ),
                            },
                        )
                    },
                },
                Err(e) => {
                    &&& r == Err::<(), Error>(e)
                    &&& final(self)@.buffer == old(self)@.buffer
                },
            },
    {
        match value {
            Ok(field_type) => {
                let taken = self.fields_buffer.take();
                let mut buffer = taken.unwrap();
                let r = buffer.buffer(key, field_type, rendered);
                self.fields_buffer = Some(buffer);
                r
            },
            Err(e) => Err(e),
        }
    }

    /// Closes the struct. Where it is held to an expected shape, each field
    /// that is still due takes the member that was set aside under its name,
    /// or is written as `NULL`. The close fails, before anything is written,
    /// where such a member's type is not compatible with its field's, and
    /// where a member was set aside that no due field takes. A struct
    /// without a field is refused; else `)` is written and the struct's type
    /// is returned.
    #[verifier::loop_isolation(false)]
    pub fn serialize_struct_end(self, serializer: &mut Serializer) -> (r: Result<Type, Error>)
        ensures
            final(serializer)@ == old(serializer)@ + closing_text(self@),
            result_view(r) == closing_outcome(self@),
    {
        let ghost state = self@;
        let ghost start = serializer@;
        let StructSerializer { fields, pending_key: _, fields_buffer } = self;
        let mut fields = fields;
        let waiting = match fields_buffer {
            Some(buffer) => match buffer.drain() {
                Ok(waiting) => waiting,
                Err(e) => {
                    assert(serializer@ =~= start + closing_text(state));
                    return Err(e);
                },
            },
            None => Vec::new(),
        };
        let ghost items = closing_items(state)->Ok_0;
        assert(entries_view(waiting@) =~= items);
        if fields.is_empty() && waiting.is_empty() {
            assert(closed_fields(state, items).len() == 0);
            assert(serializer@ =~= start + closing_text(state));
            return Err(Error::EmptyStruct);
        }
        let mut i: usize = 0;
        assert(items.take(0) =~= Seq::<(FieldView, Seq<u8>)>::empty());
        assert(serializer@ =~= start + members_text(state.fields.len(), items.take(0)));
        assert(fields_view(fields@) =~= state.fields + entry_fields(items.take(0)));
        while i < waiting.len()
            invariant
                i <= waiting.len(),
                items.len() == waiting.len(),
                serializer@ == start + members_text(state.fields.len(), items.take(i as int)),
                fields_view(fields@) == state.fields + entry_fields(items.take(i as int)),
            decreases waiting.len() - i,
        {
            let ghost written = serializer@;
            let ghost before = fields@;
            let entry = &waiting[i];
            assert(items[i as int] == (entry.field@, entry.rendered@));
            if !fields.is_empty() {
                serializer.write_byte(44u8);
            }
            serializer.write(entry.rendered.as_slice());
            match &entry.field.field_name {
                Some(name) => write_name(serializer, Some(name.as_str())),
                None => write_name(serializer, None),
            }
            fields.push(entry.field.duplicate());
            proof {
                let next = items.take(i + 1);
                assert(next.drop_last() =~= items.take(i as int));
                assert(next.last() == items[i as int]);
                assert(fields_view(before).len() == state.fields.len() + i);
                assert(serializer@ =~= written + member_text(
                    state.fields.len() + i == 0,
                    entry.rendered@,
                    entry.field@.field_name,
                ));
                assert(serializer@ =~= start + members_text(state.fields.len(), next));
                let target = state.fields + entry_fields(next);
                let earlier = state.fields + entry_fields(items.take(i as int));
                assert(fields_view(fields@).len() == target.len());
                assert forall|j: int| 0 <= j < target.len() implies fields_view(fields@)[j]
                    == target[j] by {
                    if j < before.len() {
                        assert(fields_view(before)[j] == earlier[j]);
                    }
                }
                assert(fields_view(fields@) =~= target);
            }
            i += 1;
        }
        assert(items.take(i as int) =~= items);
        serializer.write_byte(41u8);
        proof {
            lemma_struct_view(fields);
            assert(closed_fields(state, items).len() > 0);
            assert(serializer@ =~= start + closing_text(state));
        }
        Ok(Type::Struct(fields))
    }

    /// Closes the struct: see [`StructSerializer::serialize_struct_end`].
    pub fn end(self, serializer: &mut Serializer) -> (r: Result<Type, Error>)
        ensures
            final(serializer)@ == old(serializer)@ + closing_text(self@),
            result_view(r) == closing_outcome(self@),
    {
        self.serialize_struct_end(serializer)
    }

    /// Takes the key of a map entry: `key` is the outcome of encoding the key
    /// as a name. A name is kept until the value comes; a failure is passed
    /// on. No key may be pending.
    pub fn serialize_key(&mut self, key: Result<String, Error>) -> (r: Result<(), Error>)
        requires
            old(self)@.pending_key is None,
        ensures
            final(self)@.fields == old(self)@.fields,
            final(self)@.buffer == old(self)@.buffer,
            match key {
                Ok(name) => r is Ok && final(self)@.pending_key == Some(name@),
                Err(e) => r == Err::<(), Error>(e) && final(self)@.pending_key is None,
            },
    {
        match key {
            Ok(name) => {
                self.pending_key = Some(name);
                Ok(())
            },
            Err(e) => Err(e),
        }
    }

    /// Hands out the key that is pending, for the value that now comes: the
    /// value is a member under that name. A key must be pending.
    pub fn take_key(&mut self) -> (r: String)
        requires
            old(self)@.pending_key is Some,
        ensures
            old(self)@.pending_key == Some(r@),
            final(self)@ == (StructSerializerView {
                fields: old(self)@.fields,
                pending_key: None,
                buffer: old(self)@.buffer,
            }),
    {
        let taken = self.pending_key.take();
        taken.unwrap()
    }
}

} // verus!
