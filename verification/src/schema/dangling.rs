//! Instantiation under a closed schema never meets a reference that leads
//! nowhere.

use crate::error::ErrorView;
use crate::json::JsonView;
use crate::names::{key_index, keys_of, lemma_key_index, lookup};
use crate::schema::catalog::{spec_int_bounds, spec_source_definition};
use crate::schema::conversion::{
    array_items, class_members, composite_step, convert, instantiate, object_entries, tuple_items,
};
use crate::schema::model::{DefinitionKind, DefinitionView, DefsView, TypeView};
use crate::schema::references::{
    definition_mentions, defs_mention, items_mention, properties_mention, type_mentions,
};
use crate::schema::soundness::{lemma_source_definition_plain, refs_closed};
use vstd::prelude::*;

verus! {

/// The error of a reference that leads nowhere.
pub open spec fn is_dangling(e: ErrorView) -> bool {
    e is DanglingReference
}

/// Every reference in the node leads to a node of the table.
pub open spec fn definition_closed(definition: DefinitionView, defs: DefsView) -> bool {
    forall|n: Seq<char>| #[trigger] definition_mentions(definition, n) ==> keys_of(defs).contains(n)
}

/// Every reference in the type leads to a node of the table.
pub open spec fn type_closed(ty: TypeView, defs: DefsView) -> bool {
    forall|n: Seq<char>| #[trigger] type_mentions(ty, n) ==> keys_of(defs).contains(n)
}

/// Every reference in the table leads to a node of the table.
pub open spec fn table_closed(defs: DefsView) -> bool {
    forall|n: Seq<char>| #[trigger] defs_mention(defs, n) ==> keys_of(defs).contains(n)
}

/// A closed type over a closed table stands for a closed node.
pub proof fn lemma_resolve_closed(ty: TypeView, defs: DefsView)
    requires
        type_closed(ty, defs),
        table_closed(defs),
    ensures
        ty.resolve(defs) is Some,
        definition_closed(ty.resolve(defs).unwrap(), defs),
{
    match ty {
        TypeView::Definition(definition) => {
            assert forall|n: Seq<char>| #[trigger]
                definition_mentions(definition, n) implies keys_of(defs).contains(n) by {
                assert(type_mentions(ty, n));
            }
        },
        TypeView::Ref(_, name) => {
            assert(type_mentions(ty, name));
            lemma_key_index(keys_of(defs), name);
            let at = key_index(keys_of(defs), name).unwrap();
            assert forall|n: Seq<char>| #[trigger]
                definition_mentions(defs[at].1, n) implies keys_of(defs).contains(n) by {
                assert(defs_mention(defs, n));
            }
        },
    }
}

/// The types of closed properties are closed.
pub proof fn lemma_property_closed(
    properties: Seq<(Seq<char>, TypeView)>,
    at: int,
    defs: DefsView,
)
    requires
        0 <= at < properties.len(),
        forall|n: Seq<char>| #[trigger]
            properties_mention(properties, n) ==> keys_of(defs).contains(n),
    ensures
        type_closed(properties[at].1, defs),
{
    assert forall|n: Seq<char>| #[trigger] type_mentions(properties[at].1, n) implies keys_of(
        defs,
    ).contains(n) by {
        assert(properties_mention(properties, n));
    }
}

/// Under a closed node over a closed table, no conversion ends with the
/// error of a reference that leads nowhere.
pub proof fn law_closed_never_dangles(
    definition: DefinitionView,
    json: JsonView,
    defs: DefsView,
    lo: int,
    hi: int,
)
    requires
        definition_closed(definition, defs),
        table_closed(defs),
    ensures
        convert(definition, json, defs, lo, hi) matches Err(e) ==> !is_dangling(e),
    decreases json, composite_step(definition), 0nat,
{
    match (definition.kind, json) {
        (DefinitionKind::Variant(tag), _) => {
            let source = spec_source_definition(tag);
            if !(source.kind is Variant) {
                assert forall|n: Seq<char>| #[trigger]
                    definition_mentions(source, n) implies keys_of(defs).contains(n) by {
                    lemma_source_definition_plain(tag, n);
                }
                law_closed_never_dangles(
                    source,
                    json,
                    defs,
                    spec_int_bounds(tag).0,
                    spec_int_bounds(tag).1,
                );
            }
        },
        (DefinitionKind::Object(properties), JsonView::Object(members)) => {
            if properties.len() != 0 && properties.len() == members.len() {
                assert forall|n: Seq<char>| #[trigger]
                    properties_mention(properties, n) implies keys_of(defs).contains(n) by {
                    assert(definition_mentions(definition, n));
                }
                lemma_object_never_dangles(properties, 0, members, defs, lo, hi);
            }
        },
        (DefinitionKind::Array(Some(item)), JsonView::Array(items)) => {
            assert forall|n: Seq<char>| #[trigger] type_mentions(*item, n) implies keys_of(
                defs,
            ).contains(n) by {
                assert(definition_mentions(definition, n));
            }
            lemma_resolve_closed(*item, defs);
            lemma_array_never_dangles(item.resolve(defs).unwrap(), items, 0, defs, lo, hi);
        },
        (DefinitionKind::Tuple(types), JsonView::Array(items)) => {
            if types.len() == items.len() {
                assert forall|n: Seq<char>| #[trigger] items_mention(types, n) implies keys_of(
                    defs,
                ).contains(n) by {
                    assert(definition_mentions(definition, n));
                }
                lemma_tuple_never_dangles(types, items, 0, defs, lo, hi);
            }
        },
        (DefinitionKind::Class(_, properties), JsonView::Object(members)) => {
            assert forall|n: Seq<char>| #[trigger]
                properties_mention(properties, n) implies keys_of(defs).contains(n) by {
                assert(definition_mentions(definition, n));
            }
            lemma_class_never_dangles(properties, members, 0, defs, lo, hi);
        },
        _ => {},
    }
}

/// See [`law_closed_never_dangles`], for the items of an array.
pub proof fn lemma_array_never_dangles(
    definition: DefinitionView,
    items: Seq<JsonView>,
    from: nat,
    defs: DefsView,
    lo: int,
    hi: int,
)
    requires
        definition_closed(definition, defs),
        table_closed(defs),
    ensures
        array_items(definition, items, from, defs, lo, hi) matches Err(e) ==> !is_dangling(e),
    decreases items, 0nat, items.len() - from,
{
    if from < items.len() {
        law_closed_never_dangles(definition, items[from as int], defs, lo, hi);
        lemma_array_never_dangles(definition, items, from + 1, defs, lo, hi);
    }
}

/// See [`law_closed_never_dangles`], for the items of a tuple.
pub proof fn lemma_tuple_never_dangles(
    types: Seq<TypeView>,
    items: Seq<JsonView>,
    from: nat,
    defs: DefsView,
    lo: int,
    hi: int,
)
    requires
        forall|n: Seq<char>| #[trigger] items_mention(types, n) ==> keys_of(defs).contains(n),
        table_closed(defs),
    ensures
        tuple_items(types, items, from, defs, lo, hi) matches Err(e) ==> !is_dangling(e),
    decreases items, 0nat, items.len() - from,
{
    if from < items.len() && from < types.len() {
        let ty = types[from as int];
        assert forall|n: Seq<char>| #[trigger] type_mentions(ty, n) implies keys_of(defs).contains(
            n,
        ) by {
            assert(items_mention(types, n));
        }
        lemma_resolve_closed(ty, defs);
        law_closed_never_dangles(ty.resolve(defs).unwrap(), items[from as int], defs, lo, hi);
        lemma_tuple_never_dangles(types, items, from + 1, defs, lo, hi);
    }
}

/// See [`law_closed_never_dangles`], for the members of an object.
pub proof fn lemma_object_never_dangles(
    properties: Seq<(Seq<char>, TypeView)>,
    from: nat,
    members: Seq<(Seq<char>, JsonView)>,
    defs: DefsView,
    lo: int,
    hi: int,
)
    requires
        forall|n: Seq<char>| #[trigger]
            properties_mention(properties, n) ==> keys_of(defs).contains(n),
        table_closed(defs),
    ensures
        object_entries(properties, from, members, defs, lo, hi) matches Err(e) ==> !is_dangling(e),
    decreases members, 0nat, properties.len() - from,
{
    if from < properties.len() {
        let name = properties[from as int].0;
        let ty = properties[from as int].1;
        match key_index(keys_of(members), name) {
            Some(at) => {
                if 0 <= at < members.len() {
                    lemma_property_closed(properties, from as int, defs);
                    lemma_resolve_closed(ty, defs);
                    law_closed_never_dangles(
                        ty.resolve(defs).unwrap(),
                        members[at].1,
                        defs,
                        lo,
                        hi,
                    );
                    lemma_object_never_dangles(properties, from + 1, members, defs, lo, hi);
                }
            },
            None => {},
        }
    }
}

/// See [`law_closed_never_dangles`], for the members of a class instance.
pub proof fn lemma_class_never_dangles(
    properties: Seq<(Seq<char>, TypeView)>,
    members: Seq<(Seq<char>, JsonView)>,
    from: nat,
    defs: DefsView,
    lo: int,
    hi: int,
)
    requires
        forall|n: Seq<char>| #[trigger]
            properties_mention(properties, n) ==> keys_of(defs).contains(n),
        table_closed(defs),
    ensures
        class_members(properties, members, from, defs, lo, hi) matches Err(e) ==> !is_dangling(e),
    decreases members, 0nat, members.len() - from,
{
    if from < members.len() {
        let name = members[from as int].0;
        match lookup(properties, name) {
            Some(ty) => {
                lemma_key_index(keys_of(properties), name);
                let at = key_index(keys_of(properties), name).unwrap();
                lemma_property_closed(properties, at, defs);
                lemma_resolve_closed(ty, defs);
                law_closed_never_dangles(
                    ty.resolve(defs).unwrap(),
                    members[from as int].1,
                    defs,
                    lo,
                    hi,
                );
                lemma_class_never_dangles(properties, members, from + 1, defs, lo, hi);
            },
            None => {},
        }
    }
}

/// Instantiation under a schema whose references are closed never ends
/// with the error of a reference that leads nowhere.
pub proof fn law_closed_schema_resolves(base: DefinitionView, defs: DefsView, json: JsonView)
    requires
        refs_closed(base, defs),
    ensures
        instantiate(base, json, defs) matches Err(e) ==> !is_dangling(e),
{
    assert forall|n: Seq<char>| #[trigger] definition_mentions(base, n) implies keys_of(
        defs,
    ).contains(n) by {
        assert(crate::schema::references::schema_mentions(base, defs, n));
    }
    assert forall|n: Seq<char>| #[trigger] defs_mention(defs, n) implies keys_of(defs).contains(
        n,
    ) by {
        assert(crate::schema::references::schema_mentions(base, defs, n));
    }
    law_closed_never_dangles(
        base,
        json,
        defs,
        crate::schema::conversion::full_range().0,
        crate::schema::conversion::full_range().1,
    );
}

} // verus!
