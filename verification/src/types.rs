//! The inferred-type model: what the encoder learns about a value while it
//! writes the value's literal.
//!
//! `Type` and `Field` are the executable values. `TypeView` and `FieldView`
//! are their mathematical counterparts, over which every contract in this
//! crate is stated.

use crate::error::{result_view, Error, ErrorView};
use crate::ser::identifier::{format_as_identifier, identifier_text};
use vstd::prelude::*;
use vstd::std_specs::cmp::PartialEqSpecImpl;

verus! {

/// The mathematical value of a [`Type`].
pub enum TypeView {
    Any,
    Bool,
    Number,
    String,
    Bytes,
    Struct(Seq<FieldView>),
    Array(Box<TypeView>),
}

/// The mathematical value of a [`Field`].
pub struct FieldView {
    pub field_type: TypeView,
    pub field_name: Option<Seq<char>>,
}

impl FieldView {
    /// The field all of whose parts agree with both operands: its type is the
    /// merge of the two types, its name the first operand's where it has one,
    /// else the second's. `None` where the types do not merge.
    pub open spec fn merge(self, other: FieldView) -> Option<FieldView>
        decreases self, 0nat,
    {
        match self.field_type.merge(other.field_type) {
            Some(t) => Some(
                FieldView {
                    field_type: t,
                    field_name: if self.field_name is Some {
                        self.field_name
                    } else {
                        other.field_name
                    },
                },
            ),
            None => None,
        }
    }
}

impl TypeView {
    /// Whether two types are compatible. `Any` is compatible with everything,
    /// a primitive with its own kind only, a struct with a struct of as many
    /// fields whose types are compatible position by position (names are not
    /// compared), an array with an array of a compatible element type.
    pub open spec fn matches(self, other: TypeView) -> bool
        decreases self,
    {
        match (self, other) {
            (TypeView::Any, _) => true,
            (_, TypeView::Any) => true,
            (TypeView::Bool, TypeView::Bool) => true,
            (TypeView::Number, TypeView::Number) => true,
            (TypeView::String, TypeView::String) => true,
            (TypeView::Bytes, TypeView::Bytes) => true,
            (TypeView::Struct(fs), TypeView::Struct(gs)) => {
                &&& fs.len() == gs.len()
                &&& forall|i: int|
                    0 <= i < fs.len() ==> (#[trigger] fs[i]).field_type.matches(gs[i].field_type)
            },
            (TypeView::Array(a), TypeView::Array(b)) => a.matches(*b),
            _ => false,
        }
    }

    /// The most specific type compatible with both operands, or `None` where
    /// they are incompatible. `Any` gives way to the other operand; structs
    /// merge field by field, arrays by their element types.
    pub open spec fn merge(self, other: TypeView) -> Option<TypeView>
        decreases self, 1nat,
    {
        match (self, other) {
            (TypeView::Any, _) => Some(other),
            (_, TypeView::Any) => Some(self),
            (TypeView::Bool, TypeView::Bool) => Some(TypeView::Bool),
            (TypeView::Number, TypeView::Number) => Some(TypeView::Number),
            (TypeView::String, TypeView::String) => Some(TypeView::String),
            (TypeView::Bytes, TypeView::Bytes) => Some(TypeView::Bytes),
            (TypeView::Struct(fs), TypeView::Struct(gs)) => {
                if fs.len() == gs.len() && forall|i: int|
                    0 <= i < fs.len() ==> (#[trigger] fs[i]).merge(gs[i]) is Some {
                    Some(
                        TypeView::Struct(
                            Seq::new(
                                fs.len(),
                                |i: int|
                                    if 0 <= i < fs.len() {
                                        fs[i].merge(gs[i]).unwrap()
                                    } else {
                                        arbitrary()
                                    },
                            ),
                        ),
                    )
                } else {
                    None
                }
            },
            (TypeView::Array(a), TypeView::Array(b)) => match a.merge(*b) {
                Some(t) => Some(TypeView::Array(Box::new(t))),
                None => None,
            },
            _ => None,
        }
    }
}

/// How a type is shown in a message: `?` for `Any`, the name of a primitive
/// (`DOUBLE` standing for every number), `STRUCT<..>` around the fields
/// separated by a comma and a space, `ARRAY<..>` around the element type.
pub open spec fn type_text(t: TypeView) -> Seq<char>
    decreases t,
{
    match t {
        TypeView::Any => seq!['?'],
        TypeView::Bool => "BOOL"@,
        TypeView::Number => "DOUBLE"@,
        TypeView::String => "STRING"@,
        TypeView::Bytes => "BYTES"@,
        TypeView::Struct(fs) => "STRUCT<"@ + fields_text(fs) + ">"@,
        TypeView::Array(element) => "ARRAY<"@ + type_text(*element) + ">"@,
    }
}

/// How a field is shown in a message: its name as an identifier and a space,
/// where it has a name, then its type.
pub open spec fn field_text(f: FieldView) -> Seq<char>
    decreases f,
{
    match f.field_name {
        Some(name) => identifier_text(name) + seq![' '] + type_text(f.field_type),
        None => type_text(f.field_type),
    }
}

/// The fields of a struct as shown in a message, separated by a comma and a
/// space.
pub open spec fn fields_text(fs: Seq<FieldView>) -> Seq<char>
    decreases fs,
{
    if fs.len() == 0 {
        Seq::empty()
    } else if fs.len() == 1 {
        field_text(fs[0])
    } else {
        fields_text(fs.drop_last()) + ", "@ + field_text(fs.last())
    }
}

/// `Any` is compatible with every type, whichever side it stands on.
pub proof fn any_matches_every_type(a: TypeView)
    ensures
        TypeView::Any.matches(a),
        a.matches(TypeView::Any),
{
}

/// Every type is compatible with itself.
pub proof fn matches_is_reflexive(a: TypeView)
    ensures
        a.matches(a),
    decreases a,
{
    match a {
        TypeView::Struct(fs) => {
            assert forall|i: int| 0 <= i < fs.len() implies (#[trigger] fs[i]).field_type.matches(
                fs[i].field_type,
            ) by {
                matches_is_reflexive(fs[i].field_type);
            }
        },
        TypeView::Array(element) => {
            matches_is_reflexive(*element);
        },
        _ => {},
    }
}

/// Compatibility does not depend on the order of the operands.
pub proof fn matches_is_symmetric(a: TypeView, b: TypeView)
    ensures
        a.matches(b) == b.matches(a),
    decreases a,
{
    match (a, b) {
        (TypeView::Struct(fs), TypeView::Struct(gs)) => {
            if fs.len() == gs.len() {
                assert forall|i: int| 0 <= i < fs.len() implies (#[trigger] fs[i]).field_type.matches(
                    gs[i].field_type,
                ) == (#[trigger] gs[i]).field_type.matches(fs[i].field_type) by {
                    matches_is_symmetric(fs[i].field_type, gs[i].field_type);
                }
            }
        },
        (TypeView::Array(x), TypeView::Array(y)) => {
            matches_is_symmetric(*x, *y);
        },
        _ => {},
    }
}

/// Two types merge exactly when they are compatible.
pub proof fn merge_succeeds_iff_matches(a: TypeView, b: TypeView)
    ensures
        a.merge(b) is Some <==> a.matches(b),
    decreases a,
{
    match (a, b) {
        (TypeView::Struct(fs), TypeView::Struct(gs)) => {
            if fs.len() == gs.len() {
                assert forall|i: int| 0 <= i < fs.len() implies ((#[trigger] fs[i]).merge(gs[i])
                    is Some <==> fs[i].field_type.matches(gs[i].field_type)) by {
                    merge_succeeds_iff_matches(fs[i].field_type, gs[i].field_type);
                }
            }
        },
        (TypeView::Array(x), TypeView::Array(y)) => {
            merge_succeeds_iff_matches(*x, *y);
        },
        _ => {},
    }
}

/// Whether two types merge does not depend on the order of the operands. The
/// merged type may: a merged field takes the name of the first operand's
/// field where that has one.
pub proof fn merge_succeeds_in_either_order(a: TypeView, b: TypeView)
    ensures
        a.merge(b) is Some <==> b.merge(a) is Some,
{
    merge_succeeds_iff_matches(a, b);
    merge_succeeds_iff_matches(b, a);
    matches_is_symmetric(a, b);
}

impl TypeView {
    /// Whether this type says at least as much as `other` and nothing that
    /// `other` contradicts: any type refines `Any`, a primitive its own kind,
    /// a struct a struct of as many fields whose types it refines position
    /// by position, an array an array whose element type it refines.
    pub open spec fn refines(self, other: TypeView) -> bool
        decreases self,
    {
        match (self, other) {
            (_, TypeView::Any) => true,
            (TypeView::Bool, TypeView::Bool) => true,
            (TypeView::Number, TypeView::Number) => true,
            (TypeView::String, TypeView::String) => true,
            (TypeView::Bytes, TypeView::Bytes) => true,
            (TypeView::Struct(fs), TypeView::Struct(gs)) => {
                &&& fs.len() == gs.len()
                &&& forall|i: int|
                    0 <= i < fs.len() ==> (#[trigger] fs[i]).field_type.refines(gs[i].field_type)
            },
            (TypeView::Array(a), TypeView::Array(b)) => a.refines(*b),
            _ => false,
        }
    }
}

/// Every type refines itself.
pub proof fn refines_is_reflexive(a: TypeView)
    ensures
        a.refines(a),
    decreases a,
{
    match a {
        TypeView::Struct(fs) => {
            assert forall|i: int| 0 <= i < fs.len() implies (#[trigger] fs[i]).field_type.refines(
                fs[i].field_type,
            ) by {
                refines_is_reflexive(fs[i].field_type);
            }
        },
        TypeView::Array(element) => {
            refines_is_reflexive(*element);
        },
        _ => {},
    }
}

/// A type that refines a second, which refines a third, refines the third.
pub proof fn refines_is_transitive(c: TypeView, b: TypeView, a: TypeView)
    requires
        c.refines(b),
        b.refines(a),
    ensures
        c.refines(a),
    decreases c,
{
    match (c, b, a) {
        (TypeView::Struct(hs), TypeView::Struct(gs), TypeView::Struct(fs)) => {
            assert forall|i: int| 0 <= i < hs.len() implies (#[trigger] hs[i]).field_type.refines(
                fs[i].field_type,
            ) by {
                assert(gs[i].field_type.refines(fs[i].field_type));
                refines_is_transitive(hs[i].field_type, gs[i].field_type, fs[i].field_type);
            }
        },
        (TypeView::Array(z), TypeView::Array(y), TypeView::Array(x)) => {
            refines_is_transitive(*z, *y, *x);
        },
        _ => {},
    }
}

/// A type is compatible with every type that refines it.
pub proof fn refined_type_matches(m: TypeView, a: TypeView)
    requires
        m.refines(a),
    ensures
        a.matches(m),
        m.matches(a),
    decreases m,
{
    match (m, a) {
        (TypeView::Struct(ms), TypeView::Struct(fs)) => {
            assert forall|i: int| 0 <= i < fs.len() implies (#[trigger] fs[i]).field_type.matches(
                ms[i].field_type,
            ) by {
                assert(ms[i].field_type.refines(fs[i].field_type));
                refined_type_matches(ms[i].field_type, fs[i].field_type);
            }
            assert forall|i: int| 0 <= i < ms.len() implies (#[trigger] ms[i]).field_type.matches(
                fs[i].field_type,
            ) by {
                refined_type_matches(ms[i].field_type, fs[i].field_type);
            }
        },
        (TypeView::Array(x), TypeView::Array(y)) => {
            refined_type_matches(*x, *y);
        },
        _ => {},
    }
}

/// A merged type refines both of the types it was merged from.
pub proof fn merged_type_refines_operands(a: TypeView, b: TypeView)
    requires
        a.merge(b) is Some,
    ensures
        a.merge(b).unwrap().refines(a),
        a.merge(b).unwrap().refines(b),
    decreases a,
{
    let m = a.merge(b).unwrap();
    match (a, b) {
        (TypeView::Any, _) => {
            refines_is_reflexive(b);
        },
        (_, TypeView::Any) => {
            refines_is_reflexive(a);
        },
        (TypeView::Struct(fs), TypeView::Struct(gs)) => {
            let ms = m->Struct_0;
            assert forall|i: int| 0 <= i < ms.len() implies (#[trigger] ms[i]).field_type.refines(
                fs[i].field_type,
            ) && ms[i].field_type.refines(gs[i].field_type) by {
                assert(fs[i].merge(gs[i]) is Some);
                merged_type_refines_operands(fs[i].field_type, gs[i].field_type);
            }
        },
        (TypeView::Array(x), TypeView::Array(y)) => {
            merged_type_refines_operands(*x, *y);
        },
        _ => {},
    }
}

/// A merged type is compatible with both of the types it was merged from.
pub proof fn merged_type_matches_operands(a: TypeView, b: TypeView)
    requires
        a.merge(b) is Some,
    ensures
        a.merge(b).unwrap().matches(a),
        a.merge(b).unwrap().matches(b),
{
    merged_type_refines_operands(a, b);
    refined_type_matches(a.merge(b).unwrap(), a);
    refined_type_matches(a.merge(b).unwrap(), b);
}

/// One member of a struct type: its type and, where it has one, its name.
#[derive(Debug, Hash)]
pub struct Field {
    pub field_type: Type,
    pub field_name: Option<String>,
}

/// The type inferred for an encoded value.
///
/// All integer and floating-point widths are one `Number`. `Any` is the type
/// of `NULL`, which is compatible with every other type.
#[derive(Debug, Hash)]
pub enum Type {
    Any,
    Bool,
    Number,
    String,
    Bytes,
    Struct(Vec<Field>),
    Array(Box<Type>),
}

/// The view of an optional name.
pub open spec fn name_view(name: Option<String>) -> Option<Seq<char>> {
    match name {
        Some(s) => Some(s@),
        None => None,
    }
}

/// The view of a type, by recursion on its structure.
pub open spec fn type_view(t: Type) -> TypeView
    decreases t,
{
    match t {
        Type::Any => TypeView::Any,
        Type::Bool => TypeView::Bool,
        Type::Number => TypeView::Number,
        Type::String => TypeView::String,
        Type::Bytes => TypeView::Bytes,
        Type::Struct(fields) => TypeView::Struct(
            Seq::new(
                fields@.len(),
                |i: int|
                    if 0 <= i < fields@.len() {
                        field_view(fields@[i])
                    } else {
                        arbitrary()
                    },
            ),
        ),
        Type::Array(element) => TypeView::Array(Box::new(type_view(*element))),
    }
}

/// The view of a field: the view of its type beside the view of its name.
pub open spec fn field_view(f: Field) -> FieldView
    decreases f,
{
    FieldView { field_type: type_view(f.field_type), field_name: name_view(f.field_name) }
}

/// The views of a list of fields, in order.
pub open spec fn fields_view(fields: Seq<Field>) -> Seq<FieldView> {
    Seq::new(fields.len(), |i: int| field_view(fields[i]))
}

/// The view of an optional type.
pub open spec fn option_type_view(t: Option<Type>) -> Option<TypeView> {
    match t {
        Some(t) => Some(t@),
        None => None,
    }
}

/// The view of an optional field.
pub open spec fn option_field_view(f: Option<Field>) -> Option<FieldView> {
    match f {
        Some(f) => Some(f@),
        None => None,
    }
}

impl View for Type {
    type V = TypeView;

    open spec fn view(&self) -> TypeView {
        type_view(*self)
    }
}

impl View for Field {
    type V = FieldView;

    open spec fn view(&self) -> FieldView {
        field_view(*self)
    }
}

/// Unfolds the view of a struct type into the views of its fields.
pub proof fn lemma_struct_view(fields: Vec<Field>)
    ensures
        Type::Struct(fields)@ == TypeView::Struct(fields_view(fields@)),
        fields_view(fields@).len() == fields@.len(),
        forall|i: int| 0 <= i < fields@.len() ==> fields_view(fields@)[i] == fields@[i]@,
{
    assert(type_view(Type::Struct(fields))->Struct_0 =~= fields_view(fields@));
}

/// A struct type is larger, in the order that recursion descends by, than
/// the type of each of its fields.
pub proof fn lemma_field_smaller(t: Type, i: int)
    requires
        t is Struct,
        0 <= i < t->Struct_0@.len(),
    ensures
        decreases_to!(t => t->Struct_0@[i].field_type),
{
    let fields = t->Struct_0;
    assert(decreases_to!(t => fields));
    assert(decreases_to!(fields => fields@));
    assert(decreases_to!(fields@ => fields@[i]));
    assert(decreases_to!(fields@[i] => fields@[i].field_type));
}

impl Field {
    /// A field of the given type and name.
    pub fn with_type_and_name(field_type: Type, field_name: Option<String>) -> (r: Field)
        ensures
            r.field_type == field_type,
            r.field_name == field_name,
            r@ == (FieldView { field_type: field_type@, field_name: name_view(field_name) }),
    {
        Field { field_type, field_name }
    }

    /// A field of the given name whose type is not yet known.
    pub fn with_name(field_name: Option<String>) -> (r: Field)
        ensures
            r.field_type == Type::Any,
            r.field_name == field_name,
            r@ == (FieldView { field_type: TypeView::Any, field_name: name_view(field_name) }),
    {
        Field::with_type_and_name(Type::Any, field_name)
    }
}

/// The outcome `r` held against the type that is expected: a type that is
/// not compatible with `expected` becomes the failure `UnexpectedType`, and
/// everything else stays as it is.
pub open spec fn checked(r: Result<TypeView, ErrorView>, expected: TypeView) -> Result<
    TypeView,
    ErrorView,
> {
    match r {
        Ok(found) => if expected.matches(found) {
            Ok(found)
        } else {
            Err(ErrorView::UnexpectedType { expected, found })
        },
        Err(e) => Err(e),
    }
}

/// Holding the outcome of an encoding against the type that is expected.
pub trait CheckType: Sized {
    /// The outcome itself where it is a failure or a type compatible with
    /// `expected`, else the failure `UnexpectedType`.
    fn check_type(self, expected: &Type) -> Result<Type, Error>;
}

impl CheckType for Result<Type, Error> {
    fn check_type(self, expected: &Type) -> (r: Result<Type, Error>)
        ensures
            result_view(r) == checked(result_view(self), expected@),
            self is Err ==> r == self,
    {
        match self {
            Ok(found) => {
                if expected.matches(&found) {
                    Ok(found)
                } else {
                    Err(Error::UnexpectedType { expected: expected.duplicate(), found })
                }
            },
            Err(e) => Err(e),
        }
    }
}

/// A copy of an optional name.
fn clone_name(name: &Option<String>) -> (r: Option<String>)
    ensures
        name_view(r) == name_view(*name),
{
    match name {
        Some(s) => Some(s.clone()),
        None => None,
    }
}

/// Whether two optional names are the same.
pub fn same_name(a: &Option<String>, b: &Option<String>) -> (r: bool)
    ensures
        r == (name_view(*a) == name_view(*b)),
{
    match a {
        Some(s) => match b {
            Some(t) => s.eq(t),
            None => false,
        },
        None => b.is_none(),
    }
}

impl Field {
    /// A deep copy of this field.
    pub fn duplicate(&self) -> (r: Field)
        ensures
            r@ == self@,
    {
        Field { field_type: self.field_type.duplicate(), field_name: clone_name(&self.field_name) }
    }

    /// Whether this field and `other` have the same type and the same name.
    pub fn same(&self, other: &Field) -> (r: bool)
        ensures
            r == (self@ == other@),
    {
        self.field_type.same(&other.field_type) && same_name(&self.field_name, &other.field_name)
    }

    /// This field as shown in a message.
    pub fn to_string(&self) -> (r: String)
        ensures
            r@ == field_text(self@),
    {
        let shown_type = self.field_type.to_string();
        match &self.field_name {
            Some(name) => {
                let mut out = format_as_identifier(name.as_str());
                proof {
                    reveal_strlit(" ");
                    assert(" "@ =~= seq![' ']);
                }
                out.append(" ");
                out.append(shown_type.as_str());
                out
            },
            None => shown_type,
        }
    }

    /// Merges two fields: the types are merged, and the name is this field's
    /// where it has one, else `other`'s. `None` where the types do not merge.
    pub fn merge(&self, other: &Field) -> (r: Option<Field>)
        ensures
            option_field_view(r) == self@.merge(other@),
        decreases self, 0nat,
    {
        match self.field_type.merge(&other.field_type) {
            Some(field_type) => {
                let field_name = match &self.field_name {
                    Some(name) => Some(name.clone()),
                    None => clone_name(&other.field_name),
                };
                Some(Field { field_type, field_name })
            },
            None => None,
        }
    }
}

impl Type {
    /// The type of an array whose element type is not yet known.
    pub fn any_array() -> (r: Type)
        ensures
            r@ == TypeView::Array(Box::new(TypeView::Any)),
    {
        let element = Type::Any;
        assert(element@ == TypeView::Any);
        Type::Array(Box::new(element))
    }

    /// This type as shown in a message.
    #[verifier::loop_isolation(false)]
    pub fn to_string(&self) -> (r: String)
        ensures
            r@ == type_text(self@),
        decreases self,
    {
        match self {
            Type::Any => {
                proof {
                    reveal_strlit("?");
                    assert("?"@ =~= seq!['?']);
                }
                String::from_str("?")
            },
            Type::Bool => String::from_str("BOOL"),
            Type::Number => String::from_str("DOUBLE"),
            Type::String => String::from_str("STRING"),
            Type::Bytes => String::from_str("BYTES"),
            Type::Struct(fields) => {
                let mut out = String::from_str("STRUCT<");
                let mut i: usize = 0;
                proof {
                    lemma_struct_view(*fields);
                    assert(fields_view(fields@).take(0) =~= Seq::<FieldView>::empty());
                    assert("STRUCT<"@ + fields_text(Seq::<FieldView>::empty()) =~= "STRUCT<"@);
                }
                while i < fields.len()
                    invariant
                        i <= fields.len(),
                        out@ == "STRUCT<"@ + fields_text(fields_view(fields@).take(i as int)),
                    decreases fields.len() - i,
                {
                    let ghost before = fields_view(fields@).take(i as int);
                    let ghost after = fields_view(fields@).take(i + 1);
                    let ghost start = out@;
                    if i > 0 {
                        out.append(", ");
                    }
                    proof {
                        lemma_field_smaller(*self, i as int);
                    }
                    let field = &fields[i];
                    let shown_type = field.field_type.to_string();
                    match &field.field_name {
                        Some(name) => {
                            let shown_name = format_as_identifier(name.as_str());
                            proof {
                                reveal_strlit(" ");
                                assert(" "@ =~= seq![' ']);
                            }
                            out.append(shown_name.as_str());
                            out.append(" ");
                        },
                        None => {},
                    }
                    out.append(shown_type.as_str());
                    proof {
                        let piece = field_text(fields@[i as int]@);
                        let separator = if i > 0 {
                            ", "@
                        } else {
                            Seq::<char>::empty()
                        };
                        assert(after.drop_last() =~= before);
                        assert(after.last() == fields@[i as int]@);
                        assert(out@ =~= start + separator + piece);
                        assert(fields_text(after) =~= fields_text(before) + separator + piece);
                        assert(out@ =~= "STRUCT<"@ + fields_text(after));
                    }
                    i += 1;
                }
                out.append(">");
                proof {
                    assert(fields_view(fields@).take(i as int) =~= fields_view(fields@));
                }
                out
            },
            Type::Array(element) => {
                let mut out = String::from_str("ARRAY<");
                let shown = element.to_string();
                out.append(shown.as_str());
                out.append(">");
                out
            },
        }
    }

    /// A deep copy of this type.
    #[verifier::loop_isolation(false)]
    pub fn duplicate(&self) -> (r: Type)
        ensures
            r@ == self@,
        decreases self,
    {
        match self {
            Type::Any => Type::Any,
            Type::Bool => Type::Bool,
            Type::Number => Type::Number,
            Type::String => Type::String,
            Type::Bytes => Type::Bytes,
            Type::Struct(fields) => {
                let mut copy: Vec<Field> = Vec::new();
                let mut i: usize = 0;
                while i < fields.len()
                    invariant
                        *self == Type::Struct(*fields),
                        i <= fields.len(),
                        copy@.len() == i,
                        forall|j: int| 0 <= j < i ==> copy@[j]@ == fields@[j]@,
                    decreases fields.len() - i,
                {
                    let field = &fields[i];
                    proof {
                        lemma_field_smaller(*self, i as int);
                    }
                    copy.push(
                        Field {
                            field_type: field.field_type.duplicate(),
                            field_name: clone_name(&field.field_name),
                        },
                    );
                    i += 1;
                }
                proof {
                    lemma_struct_view(copy);
                    lemma_struct_view(*fields);
                    assert(fields_view(copy@) =~= fields_view(fields@));
                }
                Type::Struct(copy)
            },
            Type::Array(element) => Type::Array(Box::new(element.duplicate())),
        }
    }

    /// Whether this type and `other` are the same type, names included.
    #[verifier::loop_isolation(false)]
    pub fn same(&self, other: &Type) -> (r: bool)
        ensures
            r == (self@ == other@),
        decreases self,
    {
        match self {
            Type::Any => matches!(other, Type::Any),
            Type::Bool => matches!(other, Type::Bool),
            Type::Number => matches!(other, Type::Number),
            Type::String => matches!(other, Type::String),
            Type::Bytes => matches!(other, Type::Bytes),
            Type::Struct(fields) => match other {
                Type::Struct(other_fields) => {
                    proof {
                        lemma_struct_view(*fields);
                        lemma_struct_view(*other_fields);
                    }
                    if fields.len() != other_fields.len() {
                        return false;
                    }
                    let mut i: usize = 0;
                    while i < fields.len()
                        invariant
                            *self == Type::Struct(*fields),
                            fields.len() == other_fields.len(),
                            i <= fields.len(),
                            forall|j: int| 0 <= j < i ==> fields@[j]@ == other_fields@[j]@,
                        decreases fields.len() - i,
                    {
                        proof {
                            lemma_field_smaller(*self, i as int);
                        }
                        let same_type = fields[i].field_type.same(&other_fields[i].field_type);
                        let same_name = same_name(
                            &fields[i].field_name,
                            &other_fields[i].field_name,
                        );
                        if !same_type || !same_name {
                            assert(fields_view(fields@)[i as int] != fields_view(
                                other_fields@,
                            )[i as int]);
                            return false;
                        }
                        i += 1;
                    }
                    assert(fields_view(fields@) =~= fields_view(other_fields@));
                    true
                },
                _ => false,
            },
            Type::Array(element) => match other {
                Type::Array(other_element) => element.same(other_element),
                _ => false,
            },
        }
    }

    /// The most specific type compatible with this type and `other`, or
    /// `None` where the two are incompatible.
    #[verifier::loop_isolation(false)]
    pub fn merge(&self, other: &Type) -> (r: Option<Type>)
        ensures
            option_type_view(r) == self@.merge(other@),
        decreases self, 1nat,
    {
        match (self, other) {
            (Type::Any, _) => Some(other.duplicate()),
            (_, Type::Any) => Some(self.duplicate()),
            (Type::Bool, Type::Bool) => Some(Type::Bool),
            (Type::Number, Type::Number) => Some(Type::Number),
            (Type::String, Type::String) => Some(Type::String),
            (Type::Bytes, Type::Bytes) => Some(Type::Bytes),
            (Type::Struct(fields), Type::Struct(other_fields)) => {
                proof {
                    lemma_struct_view(*fields);
                    lemma_struct_view(*other_fields);
                }
                if fields.len() != other_fields.len() {
                    return None;
                }
                let mut merged: Vec<Field> = Vec::new();
                let mut i: usize = 0;
                while i < fields.len()
                    invariant
                        i <= fields.len(),
                        merged@.len() == i,
                        forall|j: int|
                            0 <= j < i ==> (#[trigger] fields@[j])@.merge(other_fields@[j]@)
                                == Some(merged@[j]@),
                    decreases fields.len() - i,
                {
                    proof {
                        let ghost fields_again = self->Struct_0;
                        assert(decreases_to!(self => fields_again));
                        assert(decreases_to!(fields_again => fields_again@));
                        assert(decreases_to!(fields_again@ => fields_again@[i as int]));
                    }
                    match fields[i].merge(&other_fields[i]) {
                        Some(field) => {
                            merged.push(field);
                        },
                        None => {
                            assert(fields_view(fields@)[i as int].merge(
                                fields_view(other_fields@)[i as int],
                            ) is None);
                            return None;
                        },
                    }
                    i += 1;
                }
                proof {
                    lemma_struct_view(merged);
                    assert forall|j: int| 0 <= j < fields.len() implies (#[trigger] fields_view(
                        fields@,
                    )[j]).merge(fields_view(other_fields@)[j]) is Some by {
                        assert(fields@[j]@.merge(other_fields@[j]@) == Some(merged@[j]@));
                    }
                    assert(self@.merge(other@) is Some);
                    assert(self@.merge(other@).unwrap()->Struct_0 =~= fields_view(merged@)) by {
                        assert forall|j: int| 0 <= j < fields.len() implies fields_view(
                            fields@,
                        )[j].merge(fields_view(other_fields@)[j]).unwrap() == fields_view(
                            merged@,
                        )[j] by {
                            assert(fields@[j]@.merge(other_fields@[j]@) == Some(merged@[j]@));
                        }
                    }
                }
                Some(Type::Struct(merged))
            },
            (Type::Array(element), Type::Array(other_element)) => {
                match element.merge(other_element) {
                    Some(t) => Some(Type::Array(Box::new(t))),
                    None => None,
                }
            },
            _ => None,
        }
    }

    /// Whether this type is compatible with `other`.
    #[verifier::loop_isolation(false)]
    pub fn matches(&self, other: &Type) -> (r: bool)
        ensures
            r == self@.matches(other@),
        decreases self,
    {
        match (self, other) {
            (Type::Any, _) => true,
            (_, Type::Any) => true,
            (Type::Bool, Type::Bool) => true,
            (Type::Number, Type::Number) => true,
            (Type::String, Type::String) => true,
            (Type::Bytes, Type::Bytes) => true,
            (Type::Struct(fields), Type::Struct(other_fields)) => {
                proof {
                    lemma_struct_view(*fields);
                    lemma_struct_view(*other_fields);
                }
                if fields.len() != other_fields.len() {
                    return false;
                }
                let mut i: usize = 0;
                while i < fields.len()
                    invariant
                        *self == Type::Struct(*fields),
                        fields.len() == other_fields.len(),
                        i <= fields.len(),
                        forall|j: int|
                            0 <= j < i ==> (#[trigger] fields@[j])@.field_type.matches(
                                other_fields@[j]@.field_type,
                            ),
                    decreases fields.len() - i,
                {
                    proof {
                        lemma_field_smaller(*self, i as int);
                    }
                    if !fields[i].field_type.matches(&other_fields[i].field_type) {
                        assert(!fields_view(fields@)[i as int].field_type.matches(
                            fields_view(other_fields@)[i as int].field_type,
                        ));
                        return false;
                    }
                    i += 1;
                }
                assert forall|j: int| 0 <= j < fields.len() implies (#[trigger] fields_view(
                    fields@,
                )[j]).field_type.matches(fields_view(other_fields@)[j].field_type) by {
                    assert(fields@[j]@.field_type.matches(other_fields@[j]@.field_type));
                }
                true
            },
            (Type::Array(element), Type::Array(other_element)) => element.matches(other_element),
            _ => false,
        }
    }
}

impl Clone for Type {
    /// A deep copy.
    fn clone(&self) -> (r: Type)
        ensures
            r@ == self@,
    {
        self.duplicate()
    }
}

impl Clone for Field {
    /// A deep copy.
    fn clone(&self) -> (r: Field)
        ensures
            r@ == self@,
    {
        self.duplicate()
    }
}

impl PartialEq for Type {
    /// Two types are equal where they are the same type, names included.
    fn eq(&self, other: &Type) -> (r: bool) {
        self.same(other)
    }
}

impl PartialEqSpecImpl for Type {
    open spec fn obeys_eq_spec() -> bool {
        true
    }

    open spec fn eq_spec(&self, other: &Type) -> bool {
        self@ == other@
    }
}

impl Eq for Type {

}

impl PartialEq for Field {
    /// Two fields are equal where they have the same type and the same name.
    fn eq(&self, other: &Field) -> (r: bool) {
        self.same(other)
    }
}

impl PartialEqSpecImpl for Field {
    open spec fn obeys_eq_spec() -> bool {
        true
    }

    open spec fn eq_spec(&self, other: &Field) -> bool {
        self@ == other@
    }
}

impl Eq for Field {

}

} // verus!
