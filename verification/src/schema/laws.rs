//! What holds of every schema and of every value.

use crate::error::ErrorView;
use crate::json::{JsonNumber, JsonView};
use crate::names::{key_index, keys_of, lemma_key_index, lookup, unique_keys};
use crate::native::NativeView;
use crate::schema::closure::{implicit_definitions, schema_tags};
use crate::schema::conversion::{class_members, first_missing, instantiate};
use crate::schema::document::{all_defs_docs, definition_doc, defs_docs, implicit_docs};
use crate::schema::model::{
    defs_wf, ClassSourceView, DefinitionKind, DefinitionView, DefsView, TypeView,
};
use crate::schema::wellformed::{lemma_all_defs_docs_ok, lemma_emitted};
use vstd::prelude::*;

verus! {

/// The definitions of an emitted document hold no name twice. A node of the
/// table is emitted as it stands there, also where the table holds it under
/// the name of a built-in composite type: what is written out beats what
/// is built in. And every built-in composite type that the schema reaches
/// has a definition.
pub proof fn law_definitions_emitted_once(base: DefinitionView, defs: DefsView)
    requires
        defs_wf(defs),
    ensures
        unique_keys(all_defs_docs(base, defs)),
        forall|i: int|
            0 <= i < defs.len() ==> lookup(all_defs_docs(base, defs), (#[trigger] defs[i]).0)
                == Some(definition_doc(defs[i].1)),
        forall|i: int|
            0 <= i < schema_tags(base, defs).len() ==> keys_of(all_defs_docs(base, defs)).contains(
                (#[trigger] schema_tags(base, defs)[i]).spec_name(),
            ),
{
    lemma_all_defs_docs_ok(base, defs);
    let all = all_defs_docs(base, defs);
    let explicit = defs_docs(defs);
    let tags = implicit_definitions(base, defs);
    let implicit = implicit_docs(tags);
    assert forall|i: int| 0 <= i < defs.len() implies lookup(all, (#[trigger] defs[i]).0) == Some(
        definition_doc(defs[i].1),
    ) by {
        assert(all[i] == explicit[i]);
        assert(keys_of(all)[i] == defs[i].0);
        lemma_key_index(keys_of(all), defs[i].0);
        let at = key_index(keys_of(all), defs[i].0).unwrap();
        assert(at == i);
    }
    lemma_emitted(schema_tags(base, defs), keys_of(defs));
    assert forall|i: int| 0 <= i < schema_tags(base, defs).len() implies keys_of(all).contains(
        (#[trigger] schema_tags(base, defs)[i]).spec_name(),
    ) by {
        let tag = schema_tags(base, defs)[i];
        let name = tag.spec_name();
        lemma_key_index(keys_of(defs), name);
        if key_index(keys_of(defs), name) is Some {
            let at = key_index(keys_of(defs), name).unwrap();
            assert(all[at] == explicit[at]);
            assert(keys_of(all)[at] == name);
        } else {
            assert(tags.contains(tag));
            let at = choose|at: int| 0 <= at < tags.len() && tags[at] == tag;
            assert(all[explicit.len() + at] == implicit[at]);
            assert(keys_of(all)[explicit.len() + at] == name);
        }
    }
}

/// A member that names no declared property ends the conversion of the
/// members of a class with an error.
pub proof fn lemma_undeclared_member(
    properties: Seq<(Seq<char>, TypeView)>,
    members: Seq<(Seq<char>, JsonView)>,
    from: nat,
    defs: DefsView,
    lo: int,
    hi: int,
    at: int,
)
    requires
        from <= at < members.len(),
        lookup(properties, members[at].0) is None,
    ensures
        class_members(properties, members, from, defs, lo, hi) is Err,
    decreases members.len() - from,
{
    if from < at {
        lemma_undeclared_member(properties, members, from + 1, defs, lo, hi, at);
    }
}

/// A declared property without a member is found missing.
pub proof fn lemma_missing_property(
    properties: Seq<(Seq<char>, TypeView)>,
    from: nat,
    members: Seq<(Seq<char>, JsonView)>,
    at: int,
)
    requires
        from <= at < properties.len(),
        key_index(keys_of(members), properties[at].0) is None,
    ensures
        first_missing(properties, from, members) is Some,
    decreases properties.len() - from,
{
    if from < at {
        lemma_missing_property(properties, from + 1, members, at);
    }
}

/// The property set of a class is strict. A JSON object with a member that
/// names no declared property is refused, and so is one that lacks a
/// declared property. Where every member is declared and converts, the
/// error names the first declared property that is missing.
pub proof fn law_strict_property_set(
    source: ClassSourceView,
    properties: Seq<(Seq<char>, TypeView)>,
    members: Seq<(Seq<char>, JsonView)>,
    defs: DefsView,
)
    ensures
        ({
            let class = DefinitionView::plain(DefinitionKind::Class(source, properties));
            let result = instantiate(class, JsonView::Object(members), defs);
            &&& (exists|i: int|
                0 <= i < members.len() && lookup(properties, (#[trigger] members[i]).0)
                    is None) ==> result is Err
            &&& (exists|i: int|
                0 <= i < properties.len() && key_index(
                    keys_of(members),
                    (#[trigger] properties[i]).0,
                ) is None) ==> result is Err
            &&& first_missing(properties, 0, members) matches Some(name) ==> (result == Err::<
                NativeView,
                ErrorView,
            >(ErrorView::MissingProperty(name)) || (result is Err && class_members(
                properties,
                members,
                0,
                defs,
                crate::schema::conversion::full_range().0,
                crate::schema::conversion::full_range().1,
            ) is Err))
        }),
{
    let range = crate::schema::conversion::full_range();
    if exists|i: int|
        0 <= i < members.len() && lookup(properties, (#[trigger] members[i]).0) is None {
        let at = choose|i: int|
            0 <= i < members.len() && lookup(properties, (#[trigger] members[i]).0) is None;
        lemma_undeclared_member(properties, members, 0, defs, range.0, range.1, at);
    }
    if exists|i: int|
        0 <= i < properties.len() && key_index(keys_of(members), (#[trigger] properties[i]).0)
            is None {
        let at = choose|i: int|
            0 <= i < properties.len() && key_index(keys_of(members), (#[trigger] properties[i]).0)
                is None;
        lemma_missing_property(properties, 0, members, at);
    }
}

/// An object with declared properties takes no JSON object with another
/// number of members.
pub proof fn law_property_count(
    properties: Seq<(Seq<char>, TypeView)>,
    members: Seq<(Seq<char>, JsonView)>,
    defs: DefsView,
)
    requires
        properties.len() > 0,
        properties.len() != members.len(),
    ensures
        instantiate(
            DefinitionView::plain(DefinitionKind::Object(properties)),
            JsonView::Object(members),
            defs,
        ) == Err::<NativeView, ErrorView>(
            ErrorView::PropertyCountMismatch(properties.len(), members.len()),
        ),
{
}

/// Numbers are taken strictly. An integer node refuses every number with a
/// fraction and takes every integer of the 64-bit ranges as it is; a number
/// node takes every number, as a float.
pub proof fn law_numeric_strictness(n: JsonNumber, defs: DefsView)
    ensures
        n is Float ==> instantiate(
            DefinitionView::plain(DefinitionKind::Integer),
            JsonView::Number(n),
            defs,
        ) == Err::<NativeView, ErrorView>(ErrorView::ExpectedIntegerGotFloat),
        n matches JsonNumber::NegInt(i) ==> instantiate(
            DefinitionView::plain(DefinitionKind::Integer),
            JsonView::Number(n),
            defs,
        ) == Ok::<NativeView, ErrorView>(NativeView::Int(i)),
        n matches JsonNumber::PosInt(u) ==> instantiate(
            DefinitionView::plain(DefinitionKind::Integer),
            JsonView::Number(n),
            defs,
        ) == Ok::<NativeView, ErrorView>(
            if u <= i64::MAX {
                NativeView::Int(u as i64)
            } else {
                NativeView::UInt(u)
            },
        ),
        instantiate(DefinitionView::plain(DefinitionKind::Number), JsonView::Number(n), defs)
            == Ok::<NativeView, ErrorView>(NativeView::Float(n)),
{
}

/// An enum takes the name of a variant and yields the integer of the
/// variant; any other string is refused with the list of the names.
pub proof fn law_enum_resolution(variants: Seq<(Seq<char>, i64)>, name: Seq<char>, defs: DefsView)
    ensures
        instantiate(
            DefinitionView::plain(DefinitionKind::Enum(variants)),
            JsonView::String(name),
            defs,
        ) == match lookup(variants, name) {
            Some(value) => Ok::<NativeView, ErrorView>(NativeView::Int(value)),
            None => Err::<NativeView, ErrorView>(
                ErrorView::UnknownVariant(name, keys_of(variants)),
            ),
        },
{
}

/// A tuple takes no array of another length than its own.
pub proof fn law_tuple_arity(types: Seq<TypeView>, items: Seq<JsonView>, defs: DefsView)
    requires
        types.len() != items.len(),
    ensures
        instantiate(
            DefinitionView::plain(DefinitionKind::Tuple(types)),
            JsonView::Array(items),
            defs,
        ) == Err::<NativeView, ErrorView>(
            ErrorView::TupleArityMismatch(types.len(), items.len()),
        ),
{
}

} // verus!
