//! The references of a schema graph: which names it refers to.

use crate::schema::definition::Definitions;
use crate::schema::model::{DefinitionKind, DefinitionView, DefsView, TypeView};
use crate::schema::types::{defs_view, property_views, type_views, Definition, Type};
use vstd::prelude::*;

verus! {

/// A reference to `name` stands in the type.
pub open spec fn type_mentions(ty: TypeView, name: Seq<char>) -> bool
    decreases ty,
{
    match ty {
        TypeView::Definition(definition) => definition_mentions(definition, name),
        TypeView::Ref(_, target) => target == name,
    }
}

/// A reference to `name` stands in the node.
pub open spec fn definition_mentions(definition: DefinitionView, name: Seq<char>) -> bool
    decreases definition,
{
    match definition.kind {
        DefinitionKind::Object(properties) => properties_mention(properties, name),
        DefinitionKind::Class(_, properties) => properties_mention(properties, name),
        DefinitionKind::Array(Some(item)) => type_mentions(*item, name),
        DefinitionKind::Tuple(items) => items_mention(items, name),
        _ => false,
    }
}

/// A reference to `name` stands in the type of a property.
pub open spec fn properties_mention(properties: Seq<(Seq<char>, TypeView)>, name: Seq<char>) -> bool
    decreases properties,
{
    exists|i: int| 0 <= i < properties.len() && type_mentions((#[trigger] properties[i]).1, name)
}

/// A reference to `name` stands in a type of the list.
pub open spec fn items_mention(items: Seq<TypeView>, name: Seq<char>) -> bool
    decreases items,
{
    exists|i: int| 0 <= i < items.len() && type_mentions(#[trigger] items[i], name)
}

/// A reference to `name` stands in a node of the table.
pub open spec fn defs_mention(defs: DefsView, name: Seq<char>) -> bool {
    exists|i: int| 0 <= i < defs.len() && definition_mentions((#[trigger] defs[i]).1, name)
}

/// A reference to `name` stands in the base or in the table of a schema.
pub open spec fn schema_mentions(base: DefinitionView, defs: DefsView, name: Seq<char>) -> bool {
    definition_mentions(base, name) || defs_mention(defs, name)
}

impl Type {
    /// Whether a reference to `name` stands in the type.
    pub fn mentions(&self, name: &String) -> (r: bool)
        ensures
            r == type_mentions(self@, name@),
        decreases self,
    {
        match self {
            Type::Definition(definition) => definition.mentions(name),
            Type::Ref(reference) => reference.name == *name,
        }
    }
}

fn properties_mentioning(properties: &Vec<(String, Type)>, name: &String) -> (r: bool)
    ensures
        r == properties_mention(property_views(properties@), name@),
    decreases properties,
{
    let mut i: usize = 0;
    while i < properties.len()
        invariant
            i <= properties.len(),
            forall|k: int| 0 <= k < i ==> !type_mentions(#[trigger] properties@[k].1@, name@),
        decreases properties.len() - i,
    {
        if properties[i].1.mentions(name) {
            assert(type_mentions(property_views(properties@)[i as int].1, name@));
            return true;
        }
        i += 1;
    }
    assert forall|k: int| 0 <= k < property_views(properties@).len() implies !type_mentions(
        (#[trigger] property_views(properties@)[k]).1,
        name@,
    ) by {
        assert(!type_mentions(properties@[k].1@, name@));
    }
    false
}

fn items_mentioning(items: &Vec<Type>, name: &String) -> (r: bool)
    ensures
        r == items_mention(type_views(items@), name@),
    decreases items,
{
    let mut i: usize = 0;
    while i < items.len()
        invariant
            i <= items.len(),
            forall|k: int| 0 <= k < i ==> !type_mentions(#[trigger] items@[k]@, name@),
        decreases items.len() - i,
    {
        if items[i].mentions(name) {
            assert(type_mentions(type_views(items@)[i as int], name@));
            return true;
        }
        i += 1;
    }
    assert forall|k: int| 0 <= k < type_views(items@).len() implies !type_mentions(
        #[trigger] type_views(items@)[k],
        name@,
    ) by {
        assert(!type_mentions(items@[k]@, name@));
    }
    false
}

impl Definition {
    /// Whether a reference to `name` stands in the node.
    pub fn mentions(&self, name: &String) -> (r: bool)
        ensures
            r == definition_mentions(self@, name@),
        decreases self,
    {
        match self {
            Definition::Object(object) => properties_mentioning(&object.properties, name),
            Definition::Class(class) => properties_mentioning(&class.properties, name),
            Definition::Array(array) => match &array.items_ty {
                Some(item) => item.mentions(name),
                None => false,
            },
            Definition::Tuple(tuple) => items_mentioning(&tuple.items, name),
            _ => false,
        }
    }
}

/// Whether a reference to `name` stands in a node of the table.
pub fn table_mentions(defs: &Definitions, name: &String) -> (r: bool)
    ensures
        r == defs_mention(defs_view(defs@), name@),
{
    let mut i: usize = 0;
    while i < defs.len()
        invariant
            i <= defs.len(),
            forall|k: int| 0 <= k < i ==> !definition_mentions(#[trigger] defs@[k].1@, name@),
        decreases defs.len() - i,
    {
        if defs[i].1.mentions(name) {
            assert(definition_mentions(defs_view(defs@)[i as int].1, name@));
            return true;
        }
        i += 1;
    }
    assert forall|k: int| 0 <= k < defs_view(defs@).len() implies !definition_mentions(
        (#[trigger] defs_view(defs@)[k]).1,
        name@,
    ) by {
        assert(!definition_mentions(defs@[k].1@, name@));
    }
    false
}

} // verus!
