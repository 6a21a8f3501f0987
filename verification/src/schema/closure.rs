//! The built-in composite types that a schema graph reaches.
//!
//! A graph reaches a built-in composite type where a node of that type is
//! written in it, and reaches with it all that the type depends on. A
//! reference is not followed: the node behind it stands in the definitions
//! table and is walked there.

use crate::names::{find_name, key_index, keys_of, names_of};
use crate::schema::definition::Definitions;
use crate::schema::model::{DefinitionKind, DefinitionView, DefsView, TypeView};
use crate::schema::types::{
    defs_view, property_views, type_views, Definition, JArray, JClass, JObject, JTuple, Type,
};
use crate::schema::variant::VariantDefinition;
use vstd::prelude::*;
use vstd::string::StringExecFns;

verus! {

/// The built-in composite types that `ty` reaches, in the order of the walk.
pub open spec fn type_tags(ty: TypeView) -> Seq<VariantDefinition>
    decreases ty, 0nat,
{
    match ty {
        TypeView::Definition(definition) => definition_tags(definition),
        TypeView::Ref(_, _) => seq![],
    }
}

/// The built-in composite types that `definition` reaches, in the order of
/// the walk.
pub open spec fn definition_tags(definition: DefinitionView) -> Seq<VariantDefinition>
    decreases definition, 0nat,
{
    match definition.kind {
        DefinitionKind::Object(properties) => properties_tags(properties, 0),
        DefinitionKind::Array(Some(item)) => type_tags(*item),
        DefinitionKind::Tuple(items) => items_tags(items, 0),
        DefinitionKind::Class(_, properties) => properties_tags(properties, 0),
        DefinitionKind::Variant(tag) => tag.closure(),
        _ => seq![],
    }
}

/// What the properties from position `from` on reach.
pub open spec fn properties_tags(properties: Seq<(Seq<char>, TypeView)>, from: nat) -> Seq<
    VariantDefinition,
>
    decreases properties, properties.len() - from,
{
    if from < properties.len() {
        type_tags(properties[from as int].1) + properties_tags(properties, from + 1)
    } else {
        seq![]
    }
}

/// What the types from position `from` on reach.
pub open spec fn items_tags(items: Seq<TypeView>, from: nat) -> Seq<VariantDefinition>
    decreases items, items.len() - from,
{
    if from < items.len() {
        type_tags(items[from as int]) + items_tags(items, from + 1)
    } else {
        seq![]
    }
}

/// What the nodes of a table from position `from` on reach.
pub open spec fn defs_tags(defs: DefsView, from: nat) -> Seq<VariantDefinition>
    decreases defs.len() - from,
{
    if from < defs.len() {
        definition_tags(defs[from as int].1) + defs_tags(defs, from + 1)
    } else {
        seq![]
    }
}

/// What a schema reaches: its base first, then the nodes of its table.
pub open spec fn schema_tags(base: DefinitionView, defs: DefsView) -> Seq<VariantDefinition> {
    definition_tags(base) + defs_tags(defs, 0)
}

/// The types of `tags` that are to be emitted beside a table with the names
/// `taken`: each type once, where it is first seen, and none whose name the
/// table holds.
pub open spec fn emitted(tags: Seq<VariantDefinition>, taken: Seq<Seq<char>>) -> Seq<
    VariantDefinition,
>
    decreases tags.len(),
{
    if tags.len() == 0 {
        seq![]
    } else {
        let front = emitted(tags.drop_last(), taken);
        let tag = tags.last();
        if key_index(taken, tag.spec_name()) is Some || front.contains(tag) {
            front
        } else {
            front.push(tag)
        }
    }
}

/// The built-in composite types whose definitions a schema is emitted with,
/// beside those of its table.
pub open spec fn implicit_definitions(base: DefinitionView, defs: DefsView) -> Seq<
    VariantDefinition,
> {
    emitted(schema_tags(base, defs), keys_of(defs))
}

impl Type {
    /// Appends to `fill_me` the built-in composite types that the type
    /// reaches.
    pub fn insert_variant_definitions(&self, fill_me: &mut Vec<VariantDefinition>)
        ensures
            final(fill_me)@ == old(fill_me)@ + type_tags(self@),
        decreases self,
    {
        match self {
            Type::Definition(definition) => definition.insert_variant_definitions(fill_me),
            Type::Ref(_) => {
                assert(fill_me@ + seq![] =~= fill_me@);
            },
        }
    }
}

impl JObject {
    /// Appends to `fill_me` the built-in composite types that the
    /// properties reach.
    pub fn insert_variant_definitions(&self, fill_me: &mut Vec<VariantDefinition>)
        ensures
            final(fill_me)@ == old(fill_me)@ + definition_tags(self@),
        decreases self,
    {
        let ghost views = property_views(self.properties@);
        let mut i: usize = 0;
        while i < self.properties.len()
            invariant
                i <= self.properties.len(),
                views == property_views(self.properties@),
                fill_me@ + properties_tags(views, i as nat) == old(fill_me)@ + properties_tags(
                    views,
                    0,
                ),
            decreases self.properties.len() - i,
        {
            let ghost before = fill_me@;
            self.properties[i].1.insert_variant_definitions(fill_me);
            assert(fill_me@ + properties_tags(views, (i + 1) as nat) =~= before + properties_tags(
                views,
                i as nat,
            ));
            i += 1;
        }
        assert(fill_me@ + seq![] =~= fill_me@);
    }
}

impl JClass {
    /// Appends to `fill_me` the built-in composite types that the
    /// properties reach.
    pub fn insert_variant_definitions(&self, fill_me: &mut Vec<VariantDefinition>)
        ensures
            final(fill_me)@ == old(fill_me)@ + definition_tags(self@),
        decreases self,
    {
        let ghost views = property_views(self.properties@);
        let mut i: usize = 0;
        while i < self.properties.len()
            invariant
                i <= self.properties.len(),
                views == property_views(self.properties@),
                fill_me@ + properties_tags(views, i as nat) == old(fill_me)@ + properties_tags(
                    views,
                    0,
                ),
            decreases self.properties.len() - i,
        {
            let ghost before = fill_me@;
            self.properties[i].1.insert_variant_definitions(fill_me);
            assert(fill_me@ + properties_tags(views, (i + 1) as nat) =~= before + properties_tags(
                views,
                i as nat,
            ));
            i += 1;
        }
        assert(fill_me@ + seq![] =~= fill_me@);
    }
}

impl JTuple {
    /// Appends to `fill_me` the built-in composite types that the items
    /// reach.
    pub fn insert_variant_definitions(&self, fill_me: &mut Vec<VariantDefinition>)
        ensures
            final(fill_me)@ == old(fill_me)@ + definition_tags(self@),
        decreases self,
    {
        let ghost views = type_views(self.items@);
        let mut i: usize = 0;
        while i < self.items.len()
            invariant
                i <= self.items.len(),
                views == type_views(self.items@),
                fill_me@ + items_tags(views, i as nat) == old(fill_me)@ + items_tags(views, 0),
            decreases self.items.len() - i,
        {
            let ghost before = fill_me@;
            self.items[i].insert_variant_definitions(fill_me);
            assert(fill_me@ + items_tags(views, (i + 1) as nat) =~= before + items_tags(
                views,
                i as nat,
            ));
            i += 1;
        }
        assert(fill_me@ + seq![] =~= fill_me@);
    }
}

impl JArray {
    /// Appends to `fill_me` the built-in composite types that the item type
    /// reaches.
    pub fn insert_variant_definitions(&self, fill_me: &mut Vec<VariantDefinition>)
        ensures
            final(fill_me)@ == old(fill_me)@ + definition_tags(self@),
        decreases self,
    {
        match &self.items_ty {
            Some(item) => item.insert_variant_definitions(fill_me),
            None => {
                assert(fill_me@ + seq![] =~= fill_me@);
            },
        }
    }
}

impl Definition {
    /// Appends to `fill_me` the built-in composite types that the node
    /// reaches: each one where the walk meets it, followed by all that it
    /// depends on.
    pub fn insert_variant_definitions(&self, fill_me: &mut Vec<VariantDefinition>)
        ensures
            final(fill_me)@ == old(fill_me)@ + definition_tags(self@),
        decreases self,
    {
        match self {
            Definition::Object(object) => object.insert_variant_definitions(fill_me),
            Definition::Array(array) => array.insert_variant_definitions(fill_me),
            Definition::Tuple(tuple) => tuple.insert_variant_definitions(fill_me),
            Definition::Class(class) => class.insert_variant_definitions(fill_me),
            Definition::Variant(tag) => tag.insert_variant_definitions(fill_me),
            _ => {
                assert(fill_me@ + seq![] =~= fill_me@);
            },
        }
    }
}

/// The built-in composite types that the schema of `base` and `defs` is
/// emitted with beside the nodes of `defs`: what the schema reaches, each
/// type once, in the order in which the walk first meets it, without the
/// types whose name `defs` holds.
pub fn collect_variant_definitions(base: &Definition, defs: &Definitions) -> (r: Vec<
    VariantDefinition,
>)
    ensures
        r@ == implicit_definitions(base@, defs_view(defs@)),
{
    let mut reached: Vec<VariantDefinition> = Vec::new();
    base.insert_variant_definitions(&mut reached);
    let ghost views = defs_view(defs@);
    let mut i: usize = 0;
    assert(seq![] + definition_tags(base@) =~= definition_tags(base@));
    while i < defs.len()
        invariant
            i <= defs.len(),
            views == defs_view(defs@),
            reached@ + defs_tags(views, i as nat) == schema_tags(base@, views),
        decreases defs.len() - i,
    {
        let ghost before = reached@;
        defs[i].1.insert_variant_definitions(&mut reached);
        assert(reached@ + defs_tags(views, (i + 1) as nat) =~= before + defs_tags(views, i as nat));
        i += 1;
    }
    assert(reached@ + seq![] =~= reached@);
    proof {
        assert(keys_of(views) =~= names_of(defs@));
    }
    let mut kept: Vec<VariantDefinition> = Vec::new();
    let mut k: usize = 0;
    assert(reached@.take(0) =~= seq![]);
    while k < reached.len()
        invariant
            k <= reached.len(),
            keys_of(views) == names_of(defs@),
            kept@ == emitted(reached@.take(k as int), keys_of(views)),
        decreases reached.len() - k,
    {
        let tag = reached[k];
        assert(reached@.take(k + 1).drop_last() =~= reached@.take(k as int));
        assert(reached@.take(k + 1).last() == tag);
        let name = String::from_str(tag.name());
        if find_name(defs, &name).is_none() && !contains_tag(&kept, tag) {
            kept.push(tag);
        }
        k += 1;
    }
    assert(reached@.take(reached@.len() as int) =~= reached@);
    kept
}

/// Whether `tag` occurs in `list`.
pub fn contains_tag(list: &Vec<VariantDefinition>, tag: VariantDefinition) -> (r: bool)
    ensures
        r == list@.contains(tag),
{
    let mut i: usize = 0;
    while i < list.len()
        invariant
            i <= list.len(),
            forall|j: int| 0 <= j < i ==> list@[j] != tag,
        decreases list.len() - i,
    {
        if list[i] == tag {
            return true;
        }
        i += 1;
    }
    false
}

} // verus!
