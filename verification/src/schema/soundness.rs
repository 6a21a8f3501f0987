//! Generation leaves a sound schema behind: well formed, and with every
//! reference that stands in it leading to a node of its table.

use crate::host::{lemma_source_index_in_range, source_index, ClassView, PropertyView, RegistryView};
use crate::kinds::{PropertyHint, VariantType};
use crate::names::{
    key_index, keys_of, lemma_from_pairs_unique, lemma_key_index, lemma_upsert_unique, lookup,
    unique_keys, upsert, without,
};
use crate::schema::catalog::{
    in_place, list_of, record, repeated, spec_source_definition, spec_try_from_name, uniform,
};
use crate::schema::model::{
    defs_wf, ClassSourceView, DefinitionKind, DefinitionView, DefsView, TypeView,
};
use crate::schema::references::{
    definition_mentions, defs_mention, items_mention, properties_mention, schema_mentions,
    type_mentions,
};
use crate::schema::resolution::{
    class_properties, class_ref, enum_from_path, eval_hint, eval_type, free_count,
    generated_properties, idle, lemma_free_count_update, named_definition, property_type,
    raw_definition,
};
use crate::schema::root_schema::{class_schema, close_over, type_schema};
use crate::schema::variant::VariantDefinition;
use crate::schema::wellformed::lemma_source_definition_wf;
use crate::text::enum_path_parts;
use vstd::prelude::*;

verus! {

/// `name` is the name of a class that is busy.
pub open spec fn busy_name(registry: RegistryView, busy: Seq<bool>, name: Seq<char>) -> bool {
    exists|i: int|
        0 <= i < registry.len() && i < busy.len() && busy[i] && (
        #[trigger] registry[i]).source.definition_name() == name
}

/// `name` leads somewhere: to a node of the table, or to a class that is
/// being generated and will be put into the table.
pub open spec fn known(defs: DefsView, registry: RegistryView, busy: Seq<bool>, name: Seq<char>) -> bool {
    keys_of(defs).contains(name) || busy_name(registry, busy, name)
}

/// The table is well formed and every reference in it leads somewhere.
pub open spec fn table_sound(defs: DefsView, registry: RegistryView, busy: Seq<bool>) -> bool {
    &&& defs_wf(defs)
    &&& forall|n: Seq<char>| #[trigger] defs_mention(defs, n) ==> known(defs, registry, busy, n)
}

/// The type is well formed and every reference in it leads somewhere.
pub open spec fn type_sound(
    ty: TypeView,
    defs: DefsView,
    registry: RegistryView,
    busy: Seq<bool>,
) -> bool {
    &&& ty.wf()
    &&& forall|n: Seq<char>| #[trigger] type_mentions(ty, n) ==> known(defs, registry, busy, n)
}

/// The properties are well formed and every reference in them leads
/// somewhere.
pub open spec fn properties_sound(
    properties: Seq<(Seq<char>, TypeView)>,
    defs: DefsView,
    registry: RegistryView,
    busy: Seq<bool>,
) -> bool {
    &&& unique_keys(properties)
    &&& forall|i: int| 0 <= i < properties.len() ==> (#[trigger] properties[i]).1.wf()
    &&& forall|n: Seq<char>| #[trigger]
        properties_mention(properties, n) ==> known(defs, registry, busy, n)
}

/// Every name of `before` is a name of `after`.
pub open spec fn grows(before: DefsView, after: DefsView) -> bool {
    forall|n: Seq<char>| keys_of(before).contains(n) ==> #[trigger] keys_of(after).contains(n)
}

/// Every reference of the schema leads to a node of its table.
pub open spec fn refs_closed(base: DefinitionView, defs: DefsView) -> bool {
    forall|n: Seq<char>| #[trigger] schema_mentions(base, defs, n) ==> keys_of(defs).contains(n)
}

/// The names of a table after a node was set: those before, and the new one.
pub proof fn lemma_upsert_keys<V>(entries: Seq<(Seq<char>, V)>, key: Seq<char>, value: V)
    ensures
        keys_of(upsert(entries, key, value)).contains(key),
        forall|n: Seq<char>|
            keys_of(entries).contains(n) ==> #[trigger] keys_of(upsert(entries, key, value)).contains(
                n,
            ),
        forall|i: int|
            0 <= i < upsert(entries, key, value).len() ==> (#[trigger] upsert(entries, key, value)[i]
                == (key, value)) || (exists|j: int|
                0 <= j < entries.len() && entries[j] == upsert(entries, key, value)[i]),
{
    let keys = keys_of(entries);
    let after = upsert(entries, key, value);
    lemma_key_index(keys, key);
    match key_index(keys, key) {
        Some(at) => {
            assert(keys_of(after) =~= keys);
            assert(keys_of(after)[at] == key);
            assert forall|i: int| 0 <= i < after.len() implies (#[trigger] after[i] == (key, value))
                || (exists|j: int| 0 <= j < entries.len() && entries[j] == after[i]) by {
                if i != at {
                    assert(entries[i] == after[i]);
                }
            }
        },
        None => {
            assert(keys_of(after) =~= keys.push(key));
            assert(keys_of(after)[keys.len() as int] == key);
            assert forall|n: Seq<char>| keys.contains(n) implies #[trigger] keys_of(after).contains(
                n,
            ) by {
                let j = choose|j: int| 0 <= j < keys.len() && keys[j] == n;
                assert(keys_of(after)[j] == n);
            }
            assert forall|i: int| 0 <= i < after.len() implies (#[trigger] after[i] == (key, value))
                || (exists|j: int| 0 <= j < entries.len() && entries[j] == after[i]) by {
                if i < entries.len() {
                    assert(entries[i] == after[i]);
                }
            }
        },
    }
}

/// A node whose references lead somewhere, set in a sound table, leaves a
/// sound table.
pub proof fn lemma_upsert_sound(
    defs: DefsView,
    key: Seq<char>,
    definition: DefinitionView,
    registry: RegistryView,
    busy: Seq<bool>,
)
    requires
        table_sound(defs, registry, busy),
        definition.wf(),
        forall|n: Seq<char>| #[trigger]
            definition_mentions(definition, n) ==> known(
                upsert(defs, key, definition),
                registry,
                busy,
                n,
            ),
    ensures
        table_sound(upsert(defs, key, definition), registry, busy),
        grows(defs, upsert(defs, key, definition)),
        keys_of(upsert(defs, key, definition)).contains(key),
{
    let after = upsert(defs, key, definition);
    lemma_upsert_keys(defs, key, definition);
    crate::schema::definition::lemma_upsert_defs_wf(defs, key, definition);
    assert forall|n: Seq<char>| #[trigger] defs_mention(after, n) implies known(
        after,
        registry,
        busy,
        n,
    ) by {
        let i = choose|i: int| 0 <= i < after.len() && definition_mentions((#[trigger] after[i]).1, n);
        if after[i] == (key, definition) {
        } else {
            let j = choose|j: int| 0 <= j < defs.len() && defs[j] == after[i];
            assert(definition_mentions(defs[j].1, n));
            assert(defs_mention(defs, n));
        }
    }
}

/// A sound type set among sound properties leaves sound properties.
pub proof fn lemma_upsert_properties_sound(
    properties: Seq<(Seq<char>, TypeView)>,
    key: Seq<char>,
    ty: TypeView,
    defs: DefsView,
    registry: RegistryView,
    busy: Seq<bool>,
)
    requires
        properties_sound(properties, defs, registry, busy),
        type_sound(ty, defs, registry, busy),
    ensures
        properties_sound(upsert(properties, key, ty), defs, registry, busy),
{
    let after = upsert(properties, key, ty);
    lemma_upsert_keys(properties, key, ty);
    lemma_upsert_unique(properties, key, ty);
    assert forall|i: int| 0 <= i < after.len() implies (#[trigger] after[i]).1.wf() by {
        if after[i] == (key, ty) {
        } else {
            let j = choose|j: int| 0 <= j < properties.len() && properties[j] == after[i];
        }
    }
    assert forall|n: Seq<char>| #[trigger] properties_mention(after, n) implies known(
        defs,
        registry,
        busy,
        n,
    ) by {
        let i = choose|i: int| 0 <= i < after.len() && type_mentions((#[trigger] after[i]).1, n);
        if after[i] == (key, ty) {
        } else {
            let j = choose|j: int| 0 <= j < properties.len() && properties[j] == after[i];
            assert(type_mentions(properties[j].1, n));
            assert(properties_mention(properties, n));
        }
    }
}

/// What is sound over a table is sound over a table that has grown.
pub proof fn lemma_sound_grows(
    defs: DefsView,
    after: DefsView,
    registry: RegistryView,
    busy: Seq<bool>,
)
    requires
        grows(defs, after),
    ensures
        forall|ty: TypeView| #[trigger]
            type_sound(ty, defs, registry, busy) ==> type_sound(ty, after, registry, busy),
        forall|properties: Seq<(Seq<char>, TypeView)>| #[trigger]
            properties_sound(properties, defs, registry, busy) ==> properties_sound(
                properties,
                after,
                registry,
                busy,
            ),
{
    assert forall|ty: TypeView| #[trigger] type_sound(ty, defs, registry, busy) implies type_sound(
        ty,
        after,
        registry,
        busy,
    ) by {
        assert forall|n: Seq<char>| #[trigger] type_mentions(ty, n) implies known(
            after,
            registry,
            busy,
            n,
        ) by {
            assert(known(defs, registry, busy, n));
        }
    }
    assert forall|properties: Seq<(Seq<char>, TypeView)>| #[trigger]
        properties_sound(properties, defs, registry, busy) implies properties_sound(
        properties,
        after,
        registry,
        busy,
    ) by {
        assert forall|n: Seq<char>| #[trigger] properties_mention(properties, n) implies known(
            after,
            registry,
            busy,
            n,
        ) by {
            assert(known(defs, registry, busy, n));
        }
    }
}

/// An enum that is found is well formed and refers to nothing.
pub proof fn lemma_enum_sound(path: Seq<char>, registry: RegistryView)
    ensures
        enum_from_path(path, registry) matches Ok((definition, name)) ==> definition.wf()
            && forall|n: Seq<char>| !definition_mentions(definition, n),
{
    match enum_from_path(path, registry) {
        Ok((definition, name)) => {
            let parts = enum_path_parts(path).unwrap();
            let i = crate::host::class_index(registry, parts.0).unwrap();
            let variants = lookup(registry[i].enums, parts.1).unwrap();
            lemma_from_pairs_unique(variants);
        },
        Err(_) => {},
    }
}

/// A node without a hint is well formed and refers to nothing.
pub proof fn lemma_plain_sound(definition: DefinitionView)
    requires
        definition.kind is Null || definition.kind is Boolean || definition.kind is Integer
            || definition.kind is Number || definition.kind is String || definition.kind
            is Variant || definition.kind == DefinitionKind::Object(Seq::empty())
            || definition.kind == DefinitionKind::Array(None),
    ensures
        definition.wf(),
        forall|n: Seq<char>| !definition_mentions(definition, n),
{
    let none: Seq<(Seq<char>, TypeView)> = Seq::empty();
    assert(keys_of(none) =~= Seq::empty());
}

/// A well-formed node that refers to nothing is sound where it is written.
pub proof fn lemma_in_place_sound(
    definition: DefinitionView,
    defs: DefsView,
    registry: RegistryView,
    busy: Seq<bool>,
)
    requires
        definition.wf(),
        forall|n: Seq<char>| !definition_mentions(definition, n),
    ensures
        type_sound(TypeView::Definition(definition), defs, registry, busy),
        grows(defs, defs),
{
    assert forall|n: Seq<char>| #[trigger]
        type_mentions(TypeView::Definition(definition), n) implies known(
        defs,
        registry,
        busy,
        n,
    ) by {
        assert(definition_mentions(definition, n));
    }
}

/// The type of a descriptor is sound over the table that it leaves behind,
/// and the table is sound and has grown.
pub proof fn lemma_eval_type_sound(
    info: PropertyView,
    registry: RegistryView,
    defs: DefsView,
    busy: Seq<bool>,
)
    requires
        table_sound(defs, registry, busy),
    ensures
        eval_type(info, registry, defs, busy) matches Ok((ty, table)) ==> table_sound(
            table,
            registry,
            busy,
        ) && type_sound(ty, table, registry, busy) && grows(defs, table),
    decreases free_count(busy), 2nat, 0nat,
{
    if (info.variant_type == VariantType::Int && info.usage.spec_is_enum()) || info.variant_type
        == VariantType::Object {
        lemma_eval_hint_sound(
            info.class_name,
            info.hint_string,
            info.usage.spec_is_enum(),
            registry,
            defs,
            busy,
        );
    } else if info.variant_type == VariantType::Array {
        if info.hint == PropertyHint::ArrayType {
            lemma_eval_hint_sound(
                info.class_name,
                info.hint_string,
                info.usage.spec_is_enum(),
                registry,
                defs,
                busy,
            );
            match eval_hint(
                info.class_name,
                info.hint_string,
                info.usage.spec_is_enum(),
                registry,
                defs,
                busy,
            ) {
                Ok((item, table)) => {
                    let array = in_place(DefinitionKind::Array(Some(Box::new(item))));
                    assert(array.wf());
                    assert forall|n: Seq<char>| #[trigger] type_mentions(array, n) implies known(
                        table,
                        registry,
                        busy,
                        n,
                    ) by {
                        assert(type_mentions(item, n));
                    }
                },
                Err(_) => {},
            }
        } else {
            lemma_plain_sound(DefinitionView::plain(DefinitionKind::Array(None)));
            lemma_in_place_sound(
                DefinitionView::plain(DefinitionKind::Array(None)),
                defs,
                registry,
                busy,
            );
        }
    } else {
        match raw_definition(info.variant_type) {
            Some(definition) => {
                lemma_plain_sound(definition);
                lemma_in_place_sound(definition, defs, registry, busy);
            },
            None => {},
        }
    }
}

/// What a second name and a hint payload give is sound.
pub proof fn lemma_eval_hint_sound(
    class_name: Seq<char>,
    hint_string: Seq<char>,
    is_enum: bool,
    registry: RegistryView,
    defs: DefsView,
    busy: Seq<bool>,
)
    requires
        table_sound(defs, registry, busy),
    ensures
        eval_hint(class_name, hint_string, is_enum, registry, defs, busy) matches Ok(
            (ty, table),
        ) ==> table_sound(table, registry, busy) && type_sound(ty, table, registry, busy) && grows(
            defs,
            table,
        ),
    decreases free_count(busy), 1nat, 0nat,
{
    if is_enum {
        lemma_enum_registered(class_name, registry, defs, busy);
    } else if class_name.len() > 0 {
        if crate::host::class_index(registry, class_name) is Some {
            lemma_class_ref_sound(
                crate::host::class_index(registry, class_name).unwrap(),
                registry,
                defs,
                busy,
            );
        }
    } else if hint_string.len() == 0 {
        lemma_plain_sound(DefinitionView::plain(DefinitionKind::Null));
        lemma_in_place_sound(DefinitionView::plain(DefinitionKind::Null), defs, registry, busy);
    } else if spec_try_from_name(hint_string) is Some {
        let found = DefinitionView::plain(
            DefinitionKind::Variant(spec_try_from_name(hint_string).unwrap()),
        );
        lemma_plain_sound(found);
        lemma_in_place_sound(found, defs, registry, busy);
    } else if named_definition(hint_string) is Some {
        lemma_plain_sound(named_definition(hint_string).unwrap());
        lemma_in_place_sound(named_definition(hint_string).unwrap(), defs, registry, busy);
    } else if crate::host::class_index(registry, hint_string) is Some {
        lemma_class_ref_sound(
            crate::host::class_index(registry, hint_string).unwrap(),
            registry,
            defs,
            busy,
        );
    } else {
        lemma_enum_registered(hint_string, registry, defs, busy);
    }
}

/// An enum put into a sound table and referred to leaves a sound table and
/// a sound reference.
pub proof fn lemma_enum_registered(
    path: Seq<char>,
    registry: RegistryView,
    defs: DefsView,
    busy: Seq<bool>,
)
    requires
        table_sound(defs, registry, busy),
    ensures
        enum_from_path(path, registry) matches Ok((definition, name)) ==> table_sound(
            upsert(defs, name, definition),
            registry,
            busy,
        ) && type_sound(
            TypeView::Ref(None, name),
            upsert(defs, name, definition),
            registry,
            busy,
        ) && grows(defs, upsert(defs, name, definition)),
{
    lemma_enum_sound(path, registry);
    match enum_from_path(path, registry) {
        Ok((definition, name)) => {
            lemma_upsert_sound(defs, name, definition, registry, busy);
        },
        Err(_) => {},
    }
}

/// The reference to a class is sound over the table that it leaves behind.
pub proof fn lemma_class_ref_sound(
    index: int,
    registry: RegistryView,
    defs: DefsView,
    busy: Seq<bool>,
)
    requires
        table_sound(defs, registry, busy),
    ensures
        class_ref(index, registry, defs, busy) matches Ok((ty, table)) ==> table_sound(
            table,
            registry,
            busy,
        ) && type_sound(ty, table, registry, busy) && grows(defs, table),
    decreases free_count(busy), 0nat, 0nat,
{
    if 0 <= index < registry.len() && busy.len() == registry.len() {
        let class = registry[index];
        let name = class.source.definition_name();
        if busy[index] {
            assert(busy_name(registry, busy, name));
        } else {
            lemma_free_count_update(busy, index);
            let inside = busy.update(index, true);
            assert(table_sound(defs, registry, inside)) by {
                assert forall|n: Seq<char>| #[trigger] defs_mention(defs, n) implies known(
                    defs,
                    registry,
                    inside,
                    n,
                ) by {
                    if busy_name(registry, busy, n) {
                        lemma_busy_more(registry, busy, index, n);
                    }
                }
            }
            let none: Seq<(Seq<char>, TypeView)> = Seq::empty();
            assert(keys_of(none) =~= Seq::empty());
            assert(properties_sound(none, defs, registry, inside));
            lemma_class_properties_sound(class, 0, registry, defs, inside, none);
            match class_properties(class, 0, registry, defs, inside, none) {
                Ok((properties, table)) => {
                    let generated = DefinitionView::plain(
                        DefinitionKind::Class(class.source, properties),
                    );
                    let after = upsert(table, name, generated);
                    lemma_upsert_keys(table, name, generated);
                    crate::schema::definition::lemma_upsert_defs_wf(table, name, generated);
                    assert forall|n: Seq<char>| known(table, registry, inside, n) implies known(
                        after,
                        registry,
                        busy,
                        n,
                    ) by {
                        if busy_name(registry, inside, n) {
                            lemma_busy_less(registry, busy, index, n);
                        }
                    }
                    assert forall|n: Seq<char>| #[trigger] defs_mention(after, n) implies known(
                        after,
                        registry,
                        busy,
                        n,
                    ) by {
                        let i = choose|i: int|
                            0 <= i < after.len() && definition_mentions((#[trigger] after[i]).1, n);
                        if after[i] == (name, generated) {
                            assert(properties_mention(properties, n));
                            assert(known(table, registry, inside, n));
                        } else {
                            let j = choose|j: int| 0 <= j < table.len() && table[j] == after[i];
                            assert(definition_mentions(table[j].1, n));
                            assert(defs_mention(table, n));
                            assert(known(table, registry, inside, n));
                        }
                    }
                    assert(grows(defs, after)) by {
                        assert forall|n: Seq<char>| keys_of(defs).contains(n) implies #[trigger] keys_of(
                            after,
                        ).contains(n) by {
                            assert(keys_of(table).contains(n));
                        }
                    }
                },
                Err(_) => {},
            }
        }
    }
}

/// A name that was busy is busy when one more class is.
pub proof fn lemma_busy_more(registry: RegistryView, busy: Seq<bool>, index: int, name: Seq<char>)
    requires
        0 <= index < busy.len(),
        busy_name(registry, busy, name),
    ensures
        busy_name(registry, busy.update(index, true), name),
{
    let i = choose|i: int|
        0 <= i < registry.len() && i < busy.len() && busy[i] && (
        #[trigger] registry[i]).source.definition_name() == name;
    assert(busy.update(index, true)[i]);
}

/// A name that is busy with one more class was busy before, or is the
/// name of that class.
pub proof fn lemma_busy_less(registry: RegistryView, busy: Seq<bool>, index: int, name: Seq<char>)
    requires
        0 <= index < busy.len(),
        index < registry.len(),
        busy_name(registry, busy.update(index, true), name),
    ensures
        busy_name(registry, busy, name) || registry[index].source.definition_name() == name,
{
    let after = busy.update(index, true);
    let i = choose|i: int|
        0 <= i < registry.len() && i < after.len() && after[i] && (
        #[trigger] registry[i]).source.definition_name() == name;
    if i != index {
        assert(busy[i]);
    }
}

/// The properties of a class are sound over the table that their
/// generation leaves behind.
pub proof fn lemma_class_properties_sound(
    class: ClassView,
    from: nat,
    registry: RegistryView,
    defs: DefsView,
    busy: Seq<bool>,
    done: Seq<(Seq<char>, TypeView)>,
)
    requires
        table_sound(defs, registry, busy),
        properties_sound(done, defs, registry, busy),
    ensures
        class_properties(class, from, registry, defs, busy, done) matches Ok(
            (properties, table),
        ) ==> table_sound(table, registry, busy) && properties_sound(
            properties,
            table,
            registry,
            busy,
        ) && grows(defs, table),
    decreases free_count(busy), 3nat, class.properties.len() - from,
{
    if from < class.properties.len() {
        let info = class.properties[from as int];
        if crate::schema::resolution::is_bookkeeping(class.source, info.property_name) {
            lemma_class_properties_sound(class, from + 1, registry, defs, busy, done);
        } else {
            lemma_eval_type_sound(info, registry, defs, busy);
            match eval_type(info, registry, defs, busy) {
                Ok((ty, table)) => {
                    lemma_sound_grows(defs, table, registry, busy);
                    assert(properties_sound(done, table, registry, busy));
                    lemma_upsert_properties_sound(
                        done,
                        info.property_name,
                        ty,
                        table,
                        registry,
                        busy,
                    );
                    let next = upsert(done, info.property_name, ty);
                    lemma_class_properties_sound(class, from + 1, registry, table, busy, next);
                    match class_properties(class, from + 1, registry, table, busy, next) {
                        Ok((properties, last)) => {
                            assert(grows(defs, last)) by {
                                assert forall|n: Seq<char>| keys_of(defs).contains(
                                    n,
                                ) implies #[trigger] keys_of(last).contains(n) by {
                                    assert(keys_of(table).contains(n));
                                }
                            }
                        },
                        Err(_) => {},
                    }
                },
                Err(_) => {},
            }
        }
    }
}

/// The only class that is busy at the start of the generation of a class
/// is the class itself.
pub proof fn lemma_busy_root(registry: RegistryView, index: int, name: Seq<char>)
    requires
        0 <= index < registry.len(),
        busy_name(registry, idle(registry.len()).update(index, true), name),
    ensures
        registry[index].source.definition_name() == name,
{
    let busy = idle(registry.len()).update(index, true);
    let i = choose|i: int|
        0 <= i < registry.len() && i < busy.len() && busy[i] && (
        #[trigger] registry[i]).source.definition_name() == name;
    assert(i == index);
}

/// A base whose references lead to the table or to `name`, over a sound
/// table, is closed once the table is closed over `name`.
pub proof fn lemma_close_over(base: DefinitionView, defs: DefsView, name: Seq<char>)
    requires
        base.wf(),
        defs_wf(defs),
        forall|n: Seq<char>| #[trigger]
            schema_mentions(base, defs, n) ==> keys_of(defs).contains(n) || n == name,
    ensures
        defs_wf(close_over(base, defs, name)),
        refs_closed(base, close_over(base, defs, name)),
{
    let after = close_over(base, defs, name);
    if schema_mentions(base, defs, name) {
        lemma_upsert_keys(defs, name, base);
        crate::schema::definition::lemma_upsert_defs_wf(defs, name, base);
        assert forall|n: Seq<char>| #[trigger] schema_mentions(base, after, n) implies keys_of(
            after,
        ).contains(n) by {
            if definition_mentions(base, n) {
                assert(schema_mentions(base, defs, n));
            } else {
                let i = choose|i: int|
                    0 <= i < after.len() && definition_mentions((#[trigger] after[i]).1, n);
                if after[i] == (name, base) {
                } else {
                    let j = choose|j: int| 0 <= j < defs.len() && defs[j] == after[i];
                    assert(definition_mentions(defs[j].1, n));
                    assert(defs_mention(defs, n));
                    assert(schema_mentions(base, defs, n));
                }
            }
        }
    } else {
        assert forall|n: Seq<char>| #[trigger] schema_mentions(base, after, n) implies keys_of(
            after,
        ).contains(n) by {}
    }
}

/// The schema that is generated for a class is well formed, and every
/// reference that stands in its base or in its table leads to a node of
/// the table.
pub proof fn lemma_class_schema_sound(source: ClassSourceView, registry: RegistryView)
    ensures
        class_schema(source, registry) matches Ok((base, defs)) ==> base.wf() && defs_wf(defs)
            && refs_closed(base, defs),
{
    lemma_source_index_in_range(registry, source, 0);
    match source_index(registry, source, 0) {
        Some(i) => {
            let busy = idle(registry.len()).update(i, true);
            let empty: DefsView = Seq::empty();
            let none: Seq<(Seq<char>, TypeView)> = Seq::empty();
            let name = source.definition_name();
            assert(keys_of(empty) =~= Seq::empty());
            assert(keys_of(none) =~= Seq::empty());
            assert(table_sound(empty, registry, busy));
            assert(properties_sound(none, empty, registry, busy));
            lemma_class_properties_sound(registry[i], 0, registry, empty, busy, none);
            match generated_properties(i, registry, empty) {
                Ok((properties, defs)) => {
                    let base = DefinitionView::plain(DefinitionKind::Class(source, properties));
                    assert forall|n: Seq<char>| #[trigger]
                        schema_mentions(base, defs, n) implies keys_of(defs).contains(n) || n
                        == name by {
                        if definition_mentions(base, n) {
                            assert(properties_mention(properties, n));
                        }
                        assert(known(defs, registry, busy, n));
                        if busy_name(registry, busy, n) {
                            lemma_busy_root(registry, i, n);
                        }
                    }
                    lemma_close_over(base, defs, name);
                },
                Err(_) => {},
            }
        },
        None => {},
    }
}

/// An object whose properties refer to nothing refers to nothing.
pub proof fn lemma_record_plain(properties: Seq<(Seq<char>, TypeView)>, name: Seq<char>)
    requires
        forall|i: int| 0 <= i < properties.len() ==> !type_mentions(
            (#[trigger] properties[i]).1,
            name,
        ),
    ensures
        !definition_mentions(record(properties), name),
{
}

/// A node of a kind that holds no other type, written in place, refers to
/// nothing.
pub proof fn lemma_in_place_plain(kind: DefinitionKind, name: Seq<char>)
    requires
        kind is Number || kind is Integer || kind is String || kind is Variant,
    ensures
        !type_mentions(in_place(kind), name),
        !definition_mentions(list_of(kind), name),
        forall|count: nat| !definition_mentions(#[trigger] repeated(count, kind), name),
        forall|names: Seq<Seq<char>>| !definition_mentions(
            #[trigger] record(uniform(names, kind)),
            name,
        ),
{
    assert(!definition_mentions(DefinitionView::plain(kind), name));
    assert forall|count: nat| !definition_mentions(#[trigger] repeated(count, kind), name) by {
        let items = Seq::new(count, |i: int| in_place(kind));
        assert(repeated(count, kind).kind == DefinitionKind::Tuple(items));
        assert(!items_mention(items, name));
    }
    assert forall|names: Seq<Seq<char>>| !definition_mentions(
        #[trigger] record(uniform(names, kind)),
        name,
    ) by {
        lemma_record_plain(uniform(names, kind), name);
    }
}

/// The structure of a type of the catalog refers to nothing.
pub proof fn lemma_source_definition_plain(tag: VariantDefinition, name: Seq<char>)
    ensures
        !definition_mentions(spec_source_definition(tag), name),
{
    lemma_in_place_plain(DefinitionKind::Number, name);
    lemma_in_place_plain(DefinitionKind::Integer, name);
    lemma_in_place_plain(DefinitionKind::String, name);
    lemma_in_place_plain(DefinitionKind::Variant(VariantDefinition::Vector2), name);
    lemma_in_place_plain(DefinitionKind::Variant(VariantDefinition::Vector2i), name);
    lemma_in_place_plain(DefinitionKind::Variant(VariantDefinition::Vector3), name);
    lemma_in_place_plain(DefinitionKind::Variant(VariantDefinition::Vector4), name);
    lemma_in_place_plain(DefinitionKind::Variant(VariantDefinition::Color), name);
    lemma_in_place_plain(DefinitionKind::Variant(VariantDefinition::Basis), name);
    match tag {
        VariantDefinition::Transform3D => {
            lemma_record_plain(
                seq![
                    ("basis"@, in_place(DefinitionKind::Variant(VariantDefinition::Basis))),
                    ("origin"@, in_place(DefinitionKind::Variant(VariantDefinition::Vector3))),
                ],
                name,
            );
        },
        VariantDefinition::Plane => {
            lemma_record_plain(
                seq![
                    ("normal"@, in_place(DefinitionKind::Variant(VariantDefinition::Vector3))),
                    ("d"@, in_place(DefinitionKind::Number)),
                ],
                name,
            );
        },
        VariantDefinition::Basis => {
            let rows = repeated(3, DefinitionKind::Variant(VariantDefinition::Vector3));
            lemma_record_plain(seq![("rows"@, TypeView::Definition(rows))], name);
        },
        VariantDefinition::Projection => {
            let cols = repeated(4, DefinitionKind::Variant(VariantDefinition::Vector4));
            lemma_record_plain(seq![("cols"@, TypeView::Definition(cols))], name);
        },
        _ => {},
    }
}

/// A table without one of its nodes is well formed, holds the other names,
/// and refers to nothing that the whole table did not refer to.
pub proof fn lemma_without(defs: DefsView, name: Seq<char>)
    requires
        defs_wf(defs),
    ensures
        defs_wf(without(defs, name)),
        forall|n: Seq<char>|
            keys_of(defs).contains(n) ==> n == name || #[trigger] keys_of(
                without(defs, name),
            ).contains(n),
        forall|n: Seq<char>| #[trigger]
            defs_mention(without(defs, name), n) ==> defs_mention(defs, n),
        lookup(defs, name) matches Some(base) ==> base.wf() && forall|n: Seq<char>| #[trigger]
            definition_mentions(base, n) ==> defs_mention(defs, n),
{
    let keys = keys_of(defs);
    let rest = without(defs, name);
    lemma_key_index(keys, name);
    match key_index(keys, name) {
        Some(at) => {
            assert(keys_of(rest) =~= keys.remove(at));
            assert forall|i: int, j: int|
                0 <= i < keys_of(rest).len() && 0 <= j < keys_of(rest).len() && i
                    != j implies keys_of(rest)[i] != keys_of(rest)[j] by {
                let a = if i < at {
                    i
                } else {
                    i + 1
                };
                let b = if j < at {
                    j
                } else {
                    j + 1
                };
                assert(keys_of(rest)[i] == keys[a] && keys_of(rest)[j] == keys[b]);
            }
            assert forall|i: int| 0 <= i < rest.len() implies (#[trigger] rest[i]).1.wf() by {
                let a = if i < at {
                    i
                } else {
                    i + 1
                };
                assert(rest[i] == defs[a]);
            }
            assert forall|n: Seq<char>| keys.contains(n) implies n == name || #[trigger] keys_of(
                rest,
            ).contains(n) by {
                let j = choose|j: int| 0 <= j < keys.len() && keys[j] == n;
                if j != at {
                    let b = if j < at {
                        j
                    } else {
                        j - 1
                    };
                    assert(keys_of(rest)[b] == n);
                }
            }
            assert forall|n: Seq<char>| #[trigger] defs_mention(rest, n) implies defs_mention(
                defs,
                n,
            ) by {
                let i = choose|i: int|
                    0 <= i < rest.len() && definition_mentions((#[trigger] rest[i]).1, n);
                let a = if i < at {
                    i
                } else {
                    i + 1
                };
                assert(rest[i] == defs[a]);
                assert(definition_mentions(defs[a].1, n));
            }
            assert forall|n: Seq<char>| #[trigger]
                definition_mentions(defs[at].1, n) implies defs_mention(defs, n) by {}
        },
        None => {},
    }
}

/// The schema that is generated for the type of a property descriptor is
/// well formed, and every reference that stands in its base or in its
/// table leads to a node of the table.
pub proof fn lemma_type_schema_sound(info: PropertyView, registry: RegistryView)
    ensures
        type_schema(info, registry) matches Ok((base, defs)) ==> base.wf() && defs_wf(defs)
            && refs_closed(base, defs),
{
    let busy = idle(registry.len());
    let empty: DefsView = Seq::empty();
    assert(keys_of(empty) =~= Seq::empty());
    assert(table_sound(empty, registry, busy));
    lemma_eval_type_sound(info, registry, empty, busy);
    match property_type(info, registry, empty) {
        Ok((ty, defs)) => {
            assert forall|n: Seq<char>| known(defs, registry, busy, n) implies keys_of(
                defs,
            ).contains(n) by {
                if busy_name(registry, busy, n) {
                    let i = choose|i: int|
                        0 <= i < registry.len() && i < busy.len() && busy[i] && (
                        #[trigger] registry[i]).source.definition_name() == n;
                    assert(false);
                }
            }
            match ty {
                TypeView::Definition(definition) => match definition.kind {
                    DefinitionKind::Variant(tag) => {
                        lemma_source_definition_wf(tag);
                        let base = spec_source_definition(tag);
                        assert forall|n: Seq<char>| #[trigger]
                            schema_mentions(base, defs, n) implies keys_of(defs).contains(n) by {
                            lemma_source_definition_plain(tag, n);
                            assert(defs_mention(defs, n));
                            assert(known(defs, registry, busy, n));
                        }
                    },
                    _ => {
                        assert forall|n: Seq<char>| #[trigger]
                            schema_mentions(definition, defs, n) implies keys_of(defs).contains(
                            n,
                        ) by {
                            if definition_mentions(definition, n) {
                                assert(type_mentions(ty, n));
                            } else {
                                assert(defs_mention(defs, n));
                            }
                            assert(known(defs, registry, busy, n));
                        }
                    },
                },
                TypeView::Ref(_, name) => {
                    lemma_without(defs, name);
                    match lookup(defs, name) {
                        Some(base) => {
                            let rest = without(defs, name);
                            assert forall|n: Seq<char>| #[trigger]
                                schema_mentions(base, rest, n) implies keys_of(rest).contains(n)
                                || n == name by {
                                assert(defs_mention(defs, n));
                                assert(known(defs, registry, busy, n));
                            }
                            lemma_close_over(base, rest, name);
                        },
                        None => {},
                    }
                },
            }
        },
        Err(_) => {},
    }
}

} // verus!
