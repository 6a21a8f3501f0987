//! What instantiation yields: the native value that a JSON value stands for
//! under a schema node, or the error that the value meets.

use crate::error::{ErrorView, ExpectedKind};
use crate::json::{JsonNumber, JsonView};
use crate::kinds::VariantType;
use crate::names::{key_index, keys_of, lookup};
use crate::native::{ElementTypeView, NativeView};
use crate::schema::catalog::{spec_int_bounds, spec_source_definition};
use crate::schema::model::{DefinitionKind, DefinitionView, DefsView, TypeView};
use crate::schema::variant::VariantDefinition;
use vstd::prelude::*;

verus! {

/// A native value, or the error met on the way to it.
pub type Converted = Result<NativeView, ErrorView>;

/// Native values by position or by name, or the first error met among them.
pub type ConvertedList<T> = Result<Seq<T>, ErrorView>;

/// `head` in front of the values of `rest`.
pub open spec fn cons_result<T>(head: T, rest: ConvertedList<T>) -> ConvertedList<T> {
    match rest {
        Ok(tail) => Ok(seq![head] + tail),
        Err(e) => Err(e),
    }
}

/// The values `done` in front of the values of `rest`.
pub open spec fn after<T>(done: Seq<T>, rest: ConvertedList<T>) -> ConvertedList<T> {
    match rest {
        Ok(tail) => Ok(done + tail),
        Err(e) => Err(e),
    }
}

/// One more value done is one value less to come.
pub proof fn lemma_after_cons<T>(done: Seq<T>, head: T, rest: ConvertedList<T>)
    ensures
        after(done, cons_result(head, rest)) == after(done.push(head), rest),
{
    match rest {
        Ok(tail) => {
            assert(done + (seq![head] + tail) =~= done.push(head) + tail);
        },
        Err(_) => {},
    }
}

/// With nothing done, what is to come is the result.
pub proof fn lemma_after_start<T>(rest: ConvertedList<T>)
    ensures
        after(Seq::<T>::empty(), rest) == rest,
{
    match rest {
        Ok(tail) => {
            assert(Seq::<T>::empty() + tail =~= tail);
        },
        Err(_) => {},
    }
}

/// With nothing to come, what is done is the result.
pub proof fn lemma_after_nothing<T>(done: Seq<T>)
    ensures
        after(done, Ok(Seq::<T>::empty())) == Ok::<Seq<T>, ErrorView>(done),
{
    assert(done + Seq::<T>::empty() =~= done);
}

/// The largest range of integers: from the least signed to the greatest
/// unsigned 64-bit integer.
pub open spec fn full_range() -> (int, int) {
    (i64::MIN as int, u64::MAX as int)
}

/// The native value of a number where no type is declared: an integer where
/// the number is one, else a float.
pub open spec fn raw_number(n: JsonNumber) -> NativeView {
    match n.spec_as_i64() {
        Some(i) => NativeView::Int(i),
        None => match n.spec_as_u64() {
            Some(u) => NativeView::UInt(u),
            None => NativeView::Float(n),
        },
    }
}

/// What the items of an array without a declared type are held to: the kind
/// of the first item where every item is of that kind, nothing otherwise.
pub open spec fn raw_element_type(values: Seq<NativeView>) -> ElementTypeView {
    if values.len() > 0 && forall|i: int|
        0 <= i < values.len() ==> (#[trigger] values[i]).variant_type()
            == values[0].variant_type() {
        ElementTypeView::Typed(values[0].variant_type(), None)
    } else {
        ElementTypeView::Untyped
    }
}

/// The native value of a JSON value where no type is declared.
pub open spec fn raw_native(json: JsonView) -> NativeView
    decreases json,
{
    match json {
        JsonView::Null => NativeView::Nil,
        JsonView::Bool(b) => NativeView::Bool(b),
        JsonView::Number(n) => raw_number(n),
        JsonView::String(s) => NativeView::String(s),
        JsonView::Array(items) => NativeView::Array(
            raw_element_type(raw_items(items)),
            raw_items(items),
        ),
        JsonView::Object(members) => NativeView::Dictionary(raw_members(members)),
    }
}

/// The native values of a list of JSON values where no type is declared.
pub open spec fn raw_items(items: Seq<JsonView>) -> Seq<NativeView>
    decreases items,
{
    Seq::new(
        items.len(),
        |i: int|
            if 0 <= i < items.len() {
                raw_native(items[i])
            } else {
                NativeView::Nil
            },
    )
}

/// The native values of the members of an object where no type is declared.
pub open spec fn raw_members(members: Seq<(Seq<char>, JsonView)>) -> Seq<(Seq<char>, NativeView)>
    decreases members,
{
    Seq::new(
        members.len(),
        |i: int|
            if 0 <= i < members.len() {
                (members[i].0, raw_native(members[i].1))
            } else {
                (Seq::empty(), NativeView::Nil)
            },
    )
}

/// The native value of a number where an integer between `lo` and `hi` is
/// asked for. A float is never cut down to an integer, and an integer
/// outside the range is never made to fit.
pub open spec fn integer_native(n: JsonNumber, lo: int, hi: int) -> Converted {
    match n {
        JsonNumber::Float(_) => Err(ErrorView::ExpectedIntegerGotFloat),
        JsonNumber::PosInt(u) => if lo <= u <= hi {
            if u <= i64::MAX {
                Ok(NativeView::Int(u as i64))
            } else {
                Ok(NativeView::UInt(u))
            }
        } else {
            Err(ErrorView::IntegerOutOfRange)
        },
        JsonNumber::NegInt(i) => if lo <= i <= hi {
            Ok(NativeView::Int(i))
        } else {
            Err(ErrorView::IntegerOutOfRange)
        },
    }
}

/// What the items of an array are held to whose item type is `item`.
pub open spec fn element_type_of(item: DefinitionView) -> ElementTypeView {
    match item.kind {
        DefinitionKind::Class(source, _) => ElementTypeView::Typed(
            VariantType::Object,
            Some(source),
        ),
        DefinitionKind::Boolean => ElementTypeView::Typed(VariantType::Bool, None),
        DefinitionKind::Integer => ElementTypeView::Typed(VariantType::Int, None),
        DefinitionKind::Number => ElementTypeView::Typed(VariantType::Float, None),
        DefinitionKind::String => ElementTypeView::Typed(VariantType::String, None),
        DefinitionKind::Array(_) => ElementTypeView::Typed(VariantType::Array, None),
        DefinitionKind::Object(_) => ElementTypeView::Typed(VariantType::Dictionary, None),
        DefinitionKind::Null => ElementTypeView::Typed(VariantType::Nil, None),
        DefinitionKind::Enum(_) => ElementTypeView::Typed(VariantType::Int, None),
        DefinitionKind::Tuple(_) => ElementTypeView::Typed(VariantType::Array, None),
        DefinitionKind::Variant(tag) => ElementTypeView::Typed(tag.spec_variant_type(), None),
    }
}

/// The error of a reference that names no node of the table.
pub open spec fn dangling(ty: TypeView) -> ErrorView {
    ErrorView::DanglingReference(ty->Ref_1)
}

/// The shape that a node asks of a JSON value.
pub open spec fn expected_kind(kind: DefinitionKind) -> ExpectedKind {
    match kind {
        DefinitionKind::Null => ExpectedKind::Null,
        DefinitionKind::Boolean => ExpectedKind::Boolean,
        DefinitionKind::Integer => ExpectedKind::Integer,
        DefinitionKind::Number => ExpectedKind::Number,
        DefinitionKind::String => ExpectedKind::String,
        DefinitionKind::Object(_) => ExpectedKind::Object,
        DefinitionKind::Array(_) => ExpectedKind::Array,
        DefinitionKind::Tuple(_) => ExpectedKind::Tuple,
        DefinitionKind::Enum(_) => ExpectedKind::Enum,
        DefinitionKind::Class(_, _) => ExpectedKind::Class,
        DefinitionKind::Variant(_) => ExpectedKind::Object,
    }
}

/// 1 for a built-in composite type, which is converted by its structure; 0
/// for every other node.
pub open spec fn composite_step(definition: DefinitionView) -> nat {
    if definition.kind is Variant {
        1
    } else {
        0
    }
}

/// The value of a built-in composite type, given the conversion of its structure.
pub open spec fn wrap_composite(tag: VariantDefinition, inner: Converted) -> Converted {
    match inner {
        Ok(value) => Ok(NativeView::Composite(tag, Box::new(value))),
        Err(e) => Err(e),
    }
}

/// The native value that `json` stands for under `definition`, with the
/// references resolved in `defs` and the integers held to the range from
/// `lo` to `hi`; or the first error that the conversion meets.
///
/// - `null`, a boolean and a string stand for themselves.
/// - An integer node takes a number without a fraction, within the range.
/// - A number node takes any number, as a float.
/// - An object node without properties takes any object, as a dictionary of
///   untyped values. With properties, the object must have as many members as
///   the node has properties, and one for each property.
/// - An array node converts each item under the item type. Without an item
///   type, each item is converted untyped, and the array is held to the kind
///   of its items where they are all of one kind.
/// - A tuple node takes an array of its own length and converts each item
///   under the type of its position.
/// - An enum node takes the name of a variant and yields the variant's integer.
/// - A class node takes an object whose members are all declared and which
///   has every declared property.
/// - A built-in composite type is converted under its structure, with the
///   integers held to the range of the type.
pub open spec fn convert(
    definition: DefinitionView,
    json: JsonView,
    defs: DefsView,
    lo: int,
    hi: int,
) -> Converted
    decreases json, composite_step(definition), 0nat,
{
    match (definition.kind, json) {
        (DefinitionKind::Variant(tag), _) => {
            let source = spec_source_definition(tag);
            if source.kind is Variant {
                Err(ErrorView::TypeMismatch(ExpectedKind::Object))
            } else {
                wrap_composite(
                    tag,
                    convert(source, json, defs, spec_int_bounds(tag).0, spec_int_bounds(tag).1),
                )
            }
        },
        (DefinitionKind::Null, JsonView::Null) => Ok(NativeView::Nil),
        (DefinitionKind::Boolean, JsonView::Bool(b)) => Ok(NativeView::Bool(b)),
        (DefinitionKind::Integer, JsonView::Number(n)) => integer_native(n, lo, hi),
        (DefinitionKind::Number, JsonView::Number(n)) => Ok(NativeView::Float(n)),
        (DefinitionKind::String, JsonView::String(s)) => Ok(NativeView::String(s)),
        (DefinitionKind::Object(properties), JsonView::Object(members)) => {
            if properties.len() == 0 {
                Ok(raw_native(json))
            } else if properties.len() != members.len() {
                Err(ErrorView::PropertyCountMismatch(properties.len(), members.len()))
            } else {
                match object_entries(properties, 0, members, defs, lo, hi) {
                    Ok(entries) => Ok(NativeView::Dictionary(entries)),
                    Err(e) => Err(e),
                }
            }
        },
        (DefinitionKind::Array(Some(item)), JsonView::Array(items)) => {
            match item.resolve(defs) {
                None => Err(dangling(*item)),
                Some(item_definition) => match array_items(
                    item_definition,
                    items,
                    0,
                    defs,
                    lo,
                    hi,
                ) {
                    Ok(values) => Ok(NativeView::Array(element_type_of(item_definition), values)),
                    Err(e) => Err(e),
                },
            }
        },
        (DefinitionKind::Array(None), JsonView::Array(_)) => Ok(raw_native(json)),
        (DefinitionKind::Tuple(types), JsonView::Array(items)) => {
            if types.len() != items.len() {
                Err(ErrorView::TupleArityMismatch(types.len(), items.len()))
            } else {
                match tuple_items(types, items, 0, defs, lo, hi) {
                    Ok(values) => Ok(NativeView::Array(ElementTypeView::Untyped, values)),
                    Err(e) => Err(e),
                }
            }
        },
        (DefinitionKind::Enum(variants), JsonView::String(s)) => match lookup(variants, s) {
            Some(value) => Ok(NativeView::Int(value)),
            None => Err(ErrorView::UnknownVariant(s, keys_of(variants))),
        },
        (DefinitionKind::Class(source, properties), JsonView::Object(members)) => {
            match class_members(properties, members, 0, defs, lo, hi) {
                Err(e) => Err(e),
                Ok(entries) => match first_missing(properties, 0, members) {
                    Some(name) => Err(ErrorView::MissingProperty(name)),
                    None => Ok(NativeView::Object(source, entries)),
                },
            }
        },
        (kind, _) => Err(ErrorView::TypeMismatch(expected_kind(kind))),
    }
}

/// The items from position `from` on, each converted under `definition`.
pub open spec fn array_items(
    definition: DefinitionView,
    items: Seq<JsonView>,
    from: nat,
    defs: DefsView,
    lo: int,
    hi: int,
) -> ConvertedList<NativeView>
    decreases items, 0nat, items.len() - from,
{
    if from >= items.len() {
        Ok(Seq::empty())
    } else {
        match convert(definition, items[from as int], defs, lo, hi) {
            Err(e) => Err(e),
            Ok(value) => cons_result(value, array_items(definition, items, from + 1, defs, lo, hi)),
        }
    }
}

/// The items from position `from` on, each converted under the type of its
/// position.
pub open spec fn tuple_items(
    types: Seq<TypeView>,
    items: Seq<JsonView>,
    from: nat,
    defs: DefsView,
    lo: int,
    hi: int,
) -> ConvertedList<NativeView>
    decreases items, 0nat, items.len() - from,
{
    if from >= items.len() || from >= types.len() {
        Ok(Seq::empty())
    } else {
        match types[from as int].resolve(defs) {
            None => Err(dangling(types[from as int])),
            Some(definition) => match convert(definition, items[from as int], defs, lo, hi) {
                Err(e) => Err(e),
                Ok(value) => cons_result(value, tuple_items(types, items, from + 1, defs, lo, hi)),
            },
        }
    }
}

/// The declared properties from position `from` on, each with its member of
/// the object converted under its type.
pub open spec fn object_entries(
    properties: Seq<(Seq<char>, TypeView)>,
    from: nat,
    members: Seq<(Seq<char>, JsonView)>,
    defs: DefsView,
    lo: int,
    hi: int,
) -> ConvertedList<(Seq<char>, NativeView)>
    decreases members, 0nat, properties.len() - from,
{
    if from >= properties.len() {
        Ok(Seq::empty())
    } else {
        let name = properties[from as int].0;
        let ty = properties[from as int].1;
        match key_index(keys_of(members), name) {
            None => Err(ErrorView::MissingProperty(name)),
            Some(i) => if 0 <= i < members.len() {
                match ty.resolve(defs) {
                    None => Err(dangling(ty)),
                    Some(definition) => match convert(definition, members[i].1, defs, lo, hi) {
                        Err(e) => Err(e),
                        Ok(value) => cons_result(
                            (name, value),
                            object_entries(properties, from + 1, members, defs, lo, hi),
                        ),
                    },
                }
            } else {
                Err(ErrorView::MissingProperty(name))
            },
        }
    }
}

/// The members of the object from position `from` on, each converted under
/// the type of the property that it names.
pub open spec fn class_members(
    properties: Seq<(Seq<char>, TypeView)>,
    members: Seq<(Seq<char>, JsonView)>,
    from: nat,
    defs: DefsView,
    lo: int,
    hi: int,
) -> ConvertedList<(Seq<char>, NativeView)>
    decreases members, 0nat, members.len() - from,
{
    if from >= members.len() {
        Ok(Seq::empty())
    } else {
        let name = members[from as int].0;
        match lookup(properties, name) {
            None => Err(ErrorView::UnknownProperty(name)),
            Some(ty) => match ty.resolve(defs) {
                None => Err(dangling(ty)),
                Some(definition) => match convert(
                    definition,
                    members[from as int].1,
                    defs,
                    lo,
                    hi,
                ) {
                    Err(e) => Err(e),
                    Ok(value) => cons_result(
                        (name, value),
                        class_members(properties, members, from + 1, defs, lo, hi),
                    ),
                },
            },
        }
    }
}

/// The first declared property, from position `from` on, that the object lacks.
pub open spec fn first_missing(
    properties: Seq<(Seq<char>, TypeView)>,
    from: nat,
    members: Seq<(Seq<char>, JsonView)>,
) -> Option<Seq<char>>
    decreases properties.len() - from,
{
    if from >= properties.len() {
        None
    } else if key_index(keys_of(members), properties[from as int].0) is None {
        Some(properties[from as int].0)
    } else {
        first_missing(properties, from + 1, members)
    }
}

/// The native value that `json` stands for under `definition`, with the
/// references resolved in `defs`: see [`convert`]. Every integer of the
/// 64-bit ranges is taken.
pub open spec fn instantiate(definition: DefinitionView, json: JsonView, defs: DefsView) -> Converted {
    convert(definition, json, defs, full_range().0, full_range().1)
}

} // verus!
