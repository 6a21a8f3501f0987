//! Writing a native value back as JSON, and reading it again.
//!
//! A native value that was instantiated under a schema node can be written
//! as JSON under the same node. Instantiating what was written gives the
//! value back.

use crate::error::ErrorView;
use crate::json::{JsonNumber, JsonView};
use crate::names::{
    key_index, keys_of, lemma_key_index, lemma_key_index_is, lookup, unique_keys,
};
use crate::native::NativeView;
use crate::schema::catalog::{spec_int_bounds, spec_source_definition};
use crate::schema::conversion::{
    array_items, class_members, composite_step, convert, first_missing, instantiate,
    object_entries, raw_items, raw_members, raw_native, tuple_items,
};
use crate::schema::model::{defs_wf, DefinitionKind, DefinitionView, DefsView, TypeView};
use crate::schema::wellformed::lemma_source_definition_wf;
use vstd::prelude::*;

verus! {

/// An integer as a JSON number.
pub open spec fn integer_json(i: int) -> JsonView {
    if i >= 0 {
        JsonView::Number(JsonNumber::PosInt(i as u64))
    } else {
        JsonView::Number(JsonNumber::NegInt(i as i64))
    }
}

/// The JSON that a native value is written as where no type is declared.
pub open spec fn raw_json(value: NativeView) -> JsonView
    decreases value,
{
    match value {
        NativeView::Nil => JsonView::Null,
        NativeView::Bool(b) => JsonView::Bool(b),
        NativeView::Int(i) => integer_json(i as int),
        NativeView::UInt(u) => JsonView::Number(JsonNumber::PosInt(u)),
        NativeView::Float(n) => JsonView::Number(n),
        NativeView::String(s) => JsonView::String(s),
        NativeView::Array(_, items) => JsonView::Array(raw_json_items(items)),
        NativeView::Dictionary(entries) => JsonView::Object(raw_json_entries(entries)),
        NativeView::Object(_, entries) => JsonView::Object(raw_json_entries(entries)),
        NativeView::Composite(_, inner) => raw_json(*inner),
    }
}

/// The JSON of a list of native values where no type is declared.
pub open spec fn raw_json_items(items: Seq<NativeView>) -> Seq<JsonView>
    decreases items,
{
    Seq::new(
        items.len(),
        |i: int|
            if 0 <= i < items.len() {
                raw_json(items[i])
            } else {
                JsonView::Null
            },
    )
}

/// The JSON of named native values where no type is declared.
pub open spec fn raw_json_entries(entries: Seq<(Seq<char>, NativeView)>) -> Seq<
    (Seq<char>, JsonView),
>
    decreases entries,
{
    Seq::new(
        entries.len(),
        |i: int|
            if 0 <= i < entries.len() {
                (entries[i].0, raw_json(entries[i].1))
            } else {
                (Seq::empty(), JsonView::Null)
            },
    )
}

/// A name of the variant with the integer `value`.
pub open spec fn variant_named(variants: Seq<(Seq<char>, i64)>, value: i64) -> Seq<char> {
    choose|name: Seq<char>| lookup(variants, name) == Some(value)
}

/// The JSON of `value` under the node that `ty` stands for.
pub open spec fn json_under(ty: Option<TypeView>, value: NativeView, defs: DefsView) -> JsonView
    decreases value, 1nat,
{
    match ty {
        Some(ty) => match ty.resolve(defs) {
            Some(definition) => json_of(definition, value, defs),
            None => JsonView::Null,
        },
        None => JsonView::Null,
    }
}

/// The JSON that a native value is written as under a schema node: the
/// value itself for a primitive, the name of the variant for an enum, the
/// members in their order for an object and a class, the items for an
/// array and a tuple, and the structure for a built-in composite type.
pub open spec fn json_of(definition: DefinitionView, value: NativeView, defs: DefsView) -> JsonView
    decreases value, 0nat,
{
    match (definition.kind, value) {
        (DefinitionKind::Variant(tag), NativeView::Composite(_, inner)) => json_of(
            spec_source_definition(tag),
            *inner,
            defs,
        ),
        (DefinitionKind::Enum(variants), NativeView::Int(i)) => JsonView::String(
            variant_named(variants, i),
        ),
        (DefinitionKind::Object(properties), NativeView::Dictionary(entries)) => {
            if properties.len() == 0 {
                raw_json(value)
            } else {
                JsonView::Object(
                    Seq::new(
                        entries.len(),
                        |i: int|
                            if 0 <= i < entries.len() {
                                (
                                    entries[i].0,
                                    json_under(
                                        if i < properties.len() {
                                            Some(properties[i].1)
                                        } else {
                                            None
                                        },
                                        entries[i].1,
                                        defs,
                                    ),
                                )
                            } else {
                                (Seq::empty(), JsonView::Null)
                            },
                    ),
                )
            }
        },
        (DefinitionKind::Class(_, properties), NativeView::Object(_, entries)) => JsonView::Object(
            Seq::new(
                entries.len(),
                |i: int|
                    if 0 <= i < entries.len() {
                        (
                            entries[i].0,
                            json_under(lookup(properties, entries[i].0), entries[i].1, defs),
                        )
                    } else {
                        (Seq::empty(), JsonView::Null)
                    },
            ),
        ),
        (DefinitionKind::Array(Some(item)), NativeView::Array(_, items)) => JsonView::Array(
            Seq::new(
                items.len(),
                |i: int|
                    if 0 <= i < items.len() {
                        json_under(Some(*item), items[i], defs)
                    } else {
                        JsonView::Null
                    },
            ),
        ),
        (DefinitionKind::Tuple(types), NativeView::Array(_, items)) => JsonView::Array(
            Seq::new(
                items.len(),
                |i: int|
                    if 0 <= i < items.len() {
                        json_under(
                            if i < types.len() {
                                Some(types[i])
                            } else {
                                None
                            },
                            items[i],
                            defs,
                        )
                    } else {
                        JsonView::Null
                    },
            ),
        ),
        _ => raw_json(value),
    }
}

/// What is read untyped, written untyped and read again is the same.
pub proof fn lemma_raw_round_trip(json: JsonView)
    ensures
        raw_native(raw_json(raw_native(json))) == raw_native(json),
    decreases json,
{
    match json {
        JsonView::Array(items) => {
            let values = raw_items(items);
            let again = raw_items(raw_json_items(values));
            assert forall|i: int| 0 <= i < values.len() implies again[i] == values[i] by {
                lemma_raw_round_trip(items[i]);
            }
            assert(again =~= values);
        },
        JsonView::Object(members) => {
            let values = raw_members(members);
            let again = raw_members(raw_json_entries(values));
            assert forall|i: int| 0 <= i < values.len() implies again[i] == values[i] by {
                lemma_raw_round_trip(members[i].1);
            }
            assert(again =~= values);
        },
        _ => {},
    }
}

/// The node behind a well-formed type over a well-formed table is well formed.
pub proof fn lemma_resolve_wf(ty: TypeView, defs: DefsView)
    requires
        ty.wf(),
        defs_wf(defs),
    ensures
        ty.resolve(defs) matches Some(definition) ==> definition.wf(),
{
    match ty {
        TypeView::Ref(_, name) => {
            lemma_key_index(keys_of(defs), name);
        },
        _ => {},
    }
}

/// What the items of an array were converted into.
pub proof fn lemma_array_items_parts(
    definition: DefinitionView,
    items: Seq<JsonView>,
    from: nat,
    defs: DefsView,
    lo: int,
    hi: int,
)
    requires
        from <= items.len(),
    ensures
        array_items(definition, items, from, defs, lo, hi) matches Ok(values) ==> values.len()
            == items.len() - from && forall|k: int|
            0 <= k < values.len() ==> convert(definition, items[from + k], defs, lo, hi) == Ok::<
                NativeView,
                ErrorView,
            >(#[trigger] values[k]),
    decreases items.len() - from,
{
    if from < items.len() {
        lemma_array_items_parts(definition, items, from + 1, defs, lo, hi);
        match array_items(definition, items, from, defs, lo, hi) {
            Ok(values) => {
                let head = convert(definition, items[from as int], defs, lo, hi)->Ok_0;
                let rest = array_items(definition, items, from + 1, defs, lo, hi)->Ok_0;
                assert(values == seq![head] + rest);
                assert forall|k: int| 0 <= k < values.len() implies convert(
                    definition,
                    items[from + k],
                    defs,
                    lo,
                    hi,
                ) == Ok::<NativeView, ErrorView>(#[trigger] values[k]) by {
                    if k > 0 {
                        assert(values[k] == rest[k - 1]);
                    }
                }
            },
            Err(_) => {},
        }
    }
}

/// Items that each convert into their value convert into the values.
pub proof fn lemma_array_items_whole(
    definition: DefinitionView,
    items: Seq<JsonView>,
    from: nat,
    defs: DefsView,
    lo: int,
    hi: int,
    values: Seq<NativeView>,
)
    requires
        from <= items.len(),
        values.len() == items.len(),
        forall|k: int|
            from <= k < items.len() ==> convert(definition, #[trigger] items[k], defs, lo, hi)
                == Ok::<NativeView, ErrorView>(values[k]),
    ensures
        array_items(definition, items, from, defs, lo, hi) == Ok::<Seq<NativeView>, ErrorView>(
            values.subrange(from as int, values.len() as int),
        ),
    decreases items.len() - from,
{
    if from < items.len() {
        lemma_array_items_whole(definition, items, from + 1, defs, lo, hi, values);
        assert(convert(definition, items[from as int], defs, lo, hi) == Ok::<
            NativeView,
            ErrorView,
        >(values[from as int]));
        assert(seq![values[from as int]] + values.subrange((from + 1) as int, values.len() as int)
            =~= values.subrange(from as int, values.len() as int));
    } else {
        assert(values.subrange(from as int, values.len() as int) =~= Seq::empty());
    }
}

/// The item at position `at` converts into `value` under the type of the
/// position.
pub open spec fn tuple_item_converts(
    types: Seq<TypeView>,
    items: Seq<JsonView>,
    defs: DefsView,
    lo: int,
    hi: int,
    at: int,
    value: NativeView,
) -> bool {
    types[at].resolve(defs) is Some && convert(
        types[at].resolve(defs).unwrap(),
        items[at],
        defs,
        lo,
        hi,
    ) == Ok::<NativeView, ErrorView>(value)
}

/// What the items of a tuple were converted into.
pub proof fn lemma_tuple_items_parts(
    types: Seq<TypeView>,
    items: Seq<JsonView>,
    from: nat,
    defs: DefsView,
    lo: int,
    hi: int,
)
    requires
        from <= items.len(),
        types.len() == items.len(),
    ensures
        tuple_items(types, items, from, defs, lo, hi) matches Ok(values) ==> values.len()
            == items.len() - from && forall|k: int|
            0 <= k < values.len() ==> tuple_item_converts(
                types,
                items,
                defs,
                lo,
                hi,
                from + k,
                #[trigger] values[k],
            ),
    decreases items.len() - from,
{
    if from < items.len() {
        lemma_tuple_items_parts(types, items, from + 1, defs, lo, hi);
        match tuple_items(types, items, from, defs, lo, hi) {
            Ok(values) => {
                let definition = types[from as int].resolve(defs).unwrap();
                let head = convert(definition, items[from as int], defs, lo, hi)->Ok_0;
                let rest = tuple_items(types, items, from + 1, defs, lo, hi)->Ok_0;
                assert(values == seq![head] + rest);
                assert forall|k: int| 0 <= k < values.len() implies tuple_item_converts(
                    types,
                    items,
                    defs,
                    lo,
                    hi,
                    from + k,
                    #[trigger] values[k],
                ) by {
                    if k > 0 {
                        assert(values[k] == rest[k - 1]);
                        assert(from + k == (from + 1) + (k - 1));
                    }
                }
            },
            Err(_) => {},
        }
    }
}

/// Items that each convert into their value under the type of their
/// position convert into the values.
pub proof fn lemma_tuple_items_whole(
    types: Seq<TypeView>,
    items: Seq<JsonView>,
    from: nat,
    defs: DefsView,
    lo: int,
    hi: int,
    values: Seq<NativeView>,
)
    requires
        from <= items.len(),
        types.len() == items.len(),
        values.len() == items.len(),
        forall|k: int|
            from <= k < items.len() ==> types[k].resolve(defs) is Some && convert(
                types[k].resolve(defs).unwrap(),
                #[trigger] items[k],
                defs,
                lo,
                hi,
            ) == Ok::<NativeView, ErrorView>(values[k]),
    ensures
        tuple_items(types, items, from, defs, lo, hi) == Ok::<Seq<NativeView>, ErrorView>(
            values.subrange(from as int, values.len() as int),
        ),
    decreases items.len() - from,
{
    if from < items.len() {
        lemma_tuple_items_whole(types, items, from + 1, defs, lo, hi, values);
        assert(convert(types[from as int].resolve(defs).unwrap(), items[from as int], defs, lo, hi)
            == Ok::<NativeView, ErrorView>(values[from as int]));
        assert(seq![values[from as int]] + values.subrange((from + 1) as int, values.len() as int)
            =~= values.subrange(from as int, values.len() as int));
    } else {
        assert(values.subrange(from as int, values.len() as int) =~= Seq::empty());
    }
}

/// What the members of an object with declared properties were converted into.
pub proof fn lemma_object_entries_parts(
    properties: Seq<(Seq<char>, TypeView)>,
    from: nat,
    members: Seq<(Seq<char>, JsonView)>,
    defs: DefsView,
    lo: int,
    hi: int,
)
    requires
        from <= properties.len(),
    ensures
        object_entries(properties, from, members, defs, lo, hi) matches Ok(entries)
            ==> entries.len() == properties.len() - from && forall|k: int|
            0 <= k < entries.len() ==> {
                let property = properties[from + k];
                &&& (#[trigger] entries[k]).0 == property.0
                &&& key_index(keys_of(members), property.0) matches Some(at)
                &&& 0 <= key_index(keys_of(members), property.0).unwrap() < members.len()
                &&& property.1.resolve(defs) is Some
                &&& convert(
                    property.1.resolve(defs).unwrap(),
                    members[key_index(keys_of(members), property.0).unwrap()].1,
                    defs,
                    lo,
                    hi,
                ) == Ok::<NativeView, ErrorView>(entries[k].1)
            },
    decreases properties.len() - from,
{
    if from < properties.len() {
        lemma_object_entries_parts(properties, from + 1, members, defs, lo, hi);
        match object_entries(properties, from, members, defs, lo, hi) {
            Ok(entries) => {
                let property = properties[from as int];
                let at = key_index(keys_of(members), property.0).unwrap();
                let definition = property.1.resolve(defs).unwrap();
                let head = convert(definition, members[at].1, defs, lo, hi)->Ok_0;
                let rest = object_entries(properties, from + 1, members, defs, lo, hi)->Ok_0;
                assert(entries == seq![(property.0, head)] + rest);
                assert forall|k: int| 0 <= k < entries.len() implies {
                    let property = properties[from + k];
                    &&& (#[trigger] entries[k]).0 == property.0
                    &&& key_index(keys_of(members), property.0) matches Some(at)
                    &&& 0 <= key_index(keys_of(members), property.0).unwrap() < members.len()
                    &&& property.1.resolve(defs) is Some
                    &&& convert(
                        property.1.resolve(defs).unwrap(),
                        members[key_index(keys_of(members), property.0).unwrap()].1,
                        defs,
                        lo,
                        hi,
                    ) == Ok::<NativeView, ErrorView>(entries[k].1)
                } by {
                    if k > 0 {
                        assert(entries[k] == rest[k - 1]);
                    }
                }
            },
            Err(_) => {},
        }
    }
}

/// Members that stand in the order of the declared properties, under
/// their names, and each convert into their value, convert into the values.
pub proof fn lemma_object_entries_whole(
    properties: Seq<(Seq<char>, TypeView)>,
    from: nat,
    members: Seq<(Seq<char>, JsonView)>,
    defs: DefsView,
    lo: int,
    hi: int,
    values: Seq<(Seq<char>, NativeView)>,
)
    requires
        from <= properties.len(),
        unique_keys(properties),
        members.len() == properties.len(),
        values.len() == properties.len(),
        forall|k: int|
            0 <= k < properties.len() ==> (#[trigger] members[k]).0 == properties[k].0,
        forall|k: int|
            from <= k < properties.len() ==> (#[trigger] values[k]).0 == properties[k].0
                && properties[k].1.resolve(defs) is Some && convert(
                properties[k].1.resolve(defs).unwrap(),
                members[k].1,
                defs,
                lo,
                hi,
            ) == Ok::<NativeView, ErrorView>(values[k].1),
    ensures
        object_entries(properties, from, members, defs, lo, hi) == Ok::<
            Seq<(Seq<char>, NativeView)>,
            ErrorView,
        >(values.subrange(from as int, values.len() as int)),
    decreases properties.len() - from,
{
    if from < properties.len() {
        lemma_object_entries_whole(properties, from + 1, members, defs, lo, hi, values);
        let name = properties[from as int].0;
        assert(keys_of(members) =~= keys_of(properties));
        assert forall|j: int| 0 <= j < from implies keys_of(members)[j] != name by {
            assert(keys_of(properties)[j] != keys_of(properties)[from as int]);
        }
        lemma_key_index_is(keys_of(members), name, from as int);
        assert(values[from as int] == (name, values[from as int].1));
        assert(seq![values[from as int]] + values.subrange((from + 1) as int, values.len() as int)
            =~= values.subrange(from as int, values.len() as int));
    } else {
        assert(values.subrange(from as int, values.len() as int) =~= Seq::empty());
    }
}

/// What the members of a class instance were converted into.
pub proof fn lemma_class_members_parts(
    properties: Seq<(Seq<char>, TypeView)>,
    members: Seq<(Seq<char>, JsonView)>,
    from: nat,
    defs: DefsView,
    lo: int,
    hi: int,
)
    requires
        from <= members.len(),
    ensures
        class_members(properties, members, from, defs, lo, hi) matches Ok(entries) ==> entries.len()
            == members.len() - from && forall|k: int|
            0 <= k < entries.len() ==> {
                let member = members[from + k];
                &&& (#[trigger] entries[k]).0 == member.0
                &&& lookup(properties, member.0) is Some
                &&& lookup(properties, member.0).unwrap().resolve(defs) is Some
                &&& convert(
                    lookup(properties, member.0).unwrap().resolve(defs).unwrap(),
                    member.1,
                    defs,
                    lo,
                    hi,
                ) == Ok::<NativeView, ErrorView>(entries[k].1)
            },
    decreases members.len() - from,
{
    if from < members.len() {
        lemma_class_members_parts(properties, members, from + 1, defs, lo, hi);
        match class_members(properties, members, from, defs, lo, hi) {
            Ok(entries) => {
                let member = members[from as int];
                let definition = lookup(properties, member.0).unwrap().resolve(defs).unwrap();
                let head = convert(definition, member.1, defs, lo, hi)->Ok_0;
                let rest = class_members(properties, members, from + 1, defs, lo, hi)->Ok_0;
                assert(entries == seq![(member.0, head)] + rest);
                assert forall|k: int| 0 <= k < entries.len() implies {
                    let member = members[from + k];
                    &&& (#[trigger] entries[k]).0 == member.0
                    &&& lookup(properties, member.0) is Some
                    &&& lookup(properties, member.0).unwrap().resolve(defs) is Some
                    &&& convert(
                        lookup(properties, member.0).unwrap().resolve(defs).unwrap(),
                        member.1,
                        defs,
                        lo,
                        hi,
                    ) == Ok::<NativeView, ErrorView>(entries[k].1)
                } by {
                    if k > 0 {
                        assert(entries[k] == rest[k - 1]);
                    }
                }
            },
            Err(_) => {},
        }
    }
}

/// Members that each name a property and convert into their value convert
/// into the values.
pub proof fn lemma_class_members_whole(
    properties: Seq<(Seq<char>, TypeView)>,
    members: Seq<(Seq<char>, JsonView)>,
    from: nat,
    defs: DefsView,
    lo: int,
    hi: int,
    values: Seq<(Seq<char>, NativeView)>,
)
    requires
        from <= members.len(),
        values.len() == members.len(),
        forall|k: int|
            from <= k < members.len() ==> (#[trigger] values[k]).0 == members[k].0 && lookup(
                properties,
                members[k].0,
            ) is Some && lookup(properties, members[k].0).unwrap().resolve(defs) is Some
                && convert(
                lookup(properties, members[k].0).unwrap().resolve(defs).unwrap(),
                members[k].1,
                defs,
                lo,
                hi,
            ) == Ok::<NativeView, ErrorView>(values[k].1),
    ensures
        class_members(properties, members, from, defs, lo, hi) == Ok::<
            Seq<(Seq<char>, NativeView)>,
            ErrorView,
        >(values.subrange(from as int, values.len() as int)),
    decreases members.len() - from,
{
    if from < members.len() {
        lemma_class_members_whole(properties, members, from + 1, defs, lo, hi, values);
        assert(values[from as int] == (members[from as int].0, values[from as int].1));
        assert(seq![values[from as int]] + values.subrange((from + 1) as int, values.len() as int)
            =~= values.subrange(from as int, values.len() as int));
    } else {
        assert(values.subrange(from as int, values.len() as int) =~= Seq::empty());
    }
}

/// Which property is first found missing depends on the names of the
/// members only.
pub proof fn lemma_first_missing_by_names(
    properties: Seq<(Seq<char>, TypeView)>,
    from: nat,
    members: Seq<(Seq<char>, JsonView)>,
    others: Seq<(Seq<char>, JsonView)>,
)
    requires
        keys_of(members) == keys_of(others),
    ensures
        first_missing(properties, from, members) == first_missing(properties, from, others),
    decreases properties.len() - from,
{
    if from < properties.len() {
        lemma_first_missing_by_names(properties, from + 1, members, others);
    }
}

/// Round trip: what was instantiated from JSON under a well-formed node,
/// written back as JSON under that node and instantiated again, is the
/// same native value.
pub proof fn law_round_trip(
    definition: DefinitionView,
    json: JsonView,
    defs: DefsView,
    lo: int,
    hi: int,
)
    requires
        definition.wf(),
        defs_wf(defs),
    ensures
        convert(definition, json, defs, lo, hi) matches Ok(value) ==> convert(
            definition,
            json_of(definition, value, defs),
            defs,
            lo,
            hi,
        ) == Ok::<NativeView, ErrorView>(value),
    decreases json, composite_step(definition), 0nat,
{
    let outcome = convert(definition, json, defs, lo, hi);
    if outcome is Ok {
        let value = outcome->Ok_0;
        let written = json_of(definition, value, defs);
        match (definition.kind, json) {
            (DefinitionKind::Variant(tag), _) => {
                let source = spec_source_definition(tag);
                lemma_source_definition_wf(tag);
                law_round_trip(source, json, defs, spec_int_bounds(tag).0, spec_int_bounds(tag).1);
            },
            (DefinitionKind::Object(properties), JsonView::Object(members)) => {
                if properties.len() == 0 {
                    lemma_raw_round_trip(json);
                } else {
                    lemma_object_entries_parts(properties, 0, members, defs, lo, hi);
                    let entries = object_entries(properties, 0, members, defs, lo, hi)->Ok_0;
                    let again = written->Object_0;
                    assert forall|k: int| 0 <= k < properties.len() implies (
                    #[trigger] entries[k]).0 == properties[k].0 && properties[k].1.resolve(defs)
                        is Some && convert(
                        properties[k].1.resolve(defs).unwrap(),
                        again[k].1,
                        defs,
                        lo,
                        hi,
                    ) == Ok::<NativeView, ErrorView>(entries[k].1) by {
                        let at = key_index(keys_of(members), properties[k].0).unwrap();
                        assert(again[k].1 == json_under(Some(properties[k].1), entries[k].1, defs));
                        lemma_resolve_wf(properties[k].1, defs);
                        law_round_trip(
                            properties[k].1.resolve(defs).unwrap(),
                            members[at].1,
                            defs,
                            lo,
                            hi,
                        );
                    }
                    assert forall|k: int| 0 <= k < properties.len() implies (#[trigger] again[k]).0
                        == properties[k].0 by {}
                    lemma_object_entries_whole(properties, 0, again, defs, lo, hi, entries);
                    assert(entries.subrange(0, entries.len() as int) =~= entries);
                }
            },
            (DefinitionKind::Array(Some(item)), JsonView::Array(items)) => {
                let item_definition = item.resolve(defs).unwrap();
                lemma_resolve_wf(*item, defs);
                lemma_array_items_parts(item_definition, items, 0, defs, lo, hi);
                let values = array_items(item_definition, items, 0, defs, lo, hi)->Ok_0;
                let again = written->Array_0;
                assert forall|k: int| 0 <= k < again.len() implies convert(
                    item_definition,
                    #[trigger] again[k],
                    defs,
                    lo,
                    hi,
                ) == Ok::<NativeView, ErrorView>(values[k]) by {
                    assert(again[k] == json_under(Some(*item), values[k], defs));
                    law_round_trip(item_definition, items[k], defs, lo, hi);
                }
                lemma_array_items_whole(item_definition, again, 0, defs, lo, hi, values);
                assert(values.subrange(0, values.len() as int) =~= values);
            },
            (DefinitionKind::Array(None), JsonView::Array(items)) => {
                lemma_raw_round_trip(json);
            },
            (DefinitionKind::Tuple(types), JsonView::Array(items)) => {
                lemma_tuple_items_parts(types, items, 0, defs, lo, hi);
                let values = tuple_items(types, items, 0, defs, lo, hi)->Ok_0;
                let again = written->Array_0;
                assert forall|k: int| 0 <= k < again.len() implies types[k].resolve(defs) is Some
                    && convert(
                    types[k].resolve(defs).unwrap(),
                    #[trigger] again[k],
                    defs,
                    lo,
                    hi,
                ) == Ok::<NativeView, ErrorView>(values[k]) by {
                    assert(again[k] == json_under(Some(types[k]), values[k], defs));
                    lemma_resolve_wf(types[k], defs);
                    law_round_trip(types[k].resolve(defs).unwrap(), items[k], defs, lo, hi);
                }
                lemma_tuple_items_whole(types, again, 0, defs, lo, hi, values);
                assert(values.subrange(0, values.len() as int) =~= values);
            },
            (DefinitionKind::Class(source, properties), JsonView::Object(members)) => {
                lemma_class_members_parts(properties, members, 0, defs, lo, hi);
                let entries = class_members(properties, members, 0, defs, lo, hi)->Ok_0;
                let again = written->Object_0;
                assert forall|k: int| 0 <= k < again.len() implies (#[trigger] entries[k]).0
                    == again[k].0 && lookup(properties, again[k].0) is Some && lookup(
                    properties,
                    again[k].0,
                ).unwrap().resolve(defs) is Some && convert(
                    lookup(properties, again[k].0).unwrap().resolve(defs).unwrap(),
                    again[k].1,
                    defs,
                    lo,
                    hi,
                ) == Ok::<NativeView, ErrorView>(entries[k].1) by {
                    let ty = lookup(properties, members[k].0).unwrap();
                    lemma_key_index(keys_of(properties), members[k].0);
                    assert(again[k].1 == json_under(Some(ty), entries[k].1, defs));
                    lemma_resolve_wf(ty, defs);
                    law_round_trip(ty.resolve(defs).unwrap(), members[k].1, defs, lo, hi);
                }
                lemma_class_members_whole(properties, again, 0, defs, lo, hi, entries);
                assert(entries.subrange(0, entries.len() as int) =~= entries);
                assert(keys_of(again) =~= keys_of(members)) by {
                    assert forall|k: int| 0 <= k < again.len() implies keys_of(again)[k] == keys_of(
                        members,
                    )[k] by {}
                }
                lemma_first_missing_by_names(properties, 0, again, members);
            },
            (DefinitionKind::Enum(variants), JsonView::String(s)) => {},
            _ => {},
        }
    }
}

/// Round trip for a schema: see [`law_round_trip`].
pub proof fn law_schema_round_trip(base: DefinitionView, defs: DefsView, json: JsonView)
    requires
        base.wf(),
        defs_wf(defs),
    ensures
        instantiate(base, json, defs) matches Ok(value) ==> instantiate(
            base,
            json_of(base, value, defs),
            defs,
        ) == Ok::<NativeView, ErrorView>(value),
{
    law_round_trip(
        base,
        json,
        defs,
        crate::schema::conversion::full_range().0,
        crate::schema::conversion::full_range().1,
    );
}

} // verus!
