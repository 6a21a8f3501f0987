//! The node types of the schema graph.

use crate::names::{
    keys_of, key_index, lemma_key_index, lemma_upsert_unique, names_of, unique_keys, upsert,
};
use crate::schema::model::{DefinitionKind, DefinitionView, DefsView, TypeView};
use crate::schema::variant::VariantDefinition;
use crate::source::ClassSource;
use vstd::prelude::*;

verus! {

/// The JSON `null`.
#[derive(Clone, Debug, PartialEq, Eq)]
pub struct Null {
    pub description: Option<String>,
}

/// A JSON boolean.
#[derive(Clone, Debug, PartialEq, Eq)]
pub struct Boolean {
    pub description: Option<String>,
}

/// A JSON number without a fraction.
#[derive(Clone, Debug, PartialEq, Eq)]
pub struct Integer {
    pub description: Option<String>,
}

/// A JSON number.
#[derive(Clone, Debug, PartialEq, Eq)]
pub struct Number {
    pub description: Option<String>,
}

/// A JSON string.
#[derive(Clone, Debug, PartialEq, Eq)]
pub struct JString {
    pub description: Option<String>,
}

/// The name of a node of the definitions table.
#[derive(Clone, Debug, PartialEq, Eq)]
pub struct JRef {
    pub description: Option<String>,
    pub name: String,
}

/// A JSON array. Without an item type, each item can be of any type.
#[derive(Clone, Debug, PartialEq, Eq)]
pub struct JArray {
    pub description: Option<String>,
    pub items_ty: Option<Box<Type>>,
}

/// A JSON array of fixed length with a type for each position.
#[derive(Clone, Debug, PartialEq, Eq)]
pub struct JTuple {
    pub description: Option<String>,
    pub items: Vec<Type>,
}

/// A JSON object. Without properties, it is a dictionary with any number of
/// members of any type.
#[derive(Clone, Debug, PartialEq, Eq)]
pub struct JObject {
    pub description: Option<String>,
    pub properties: Vec<(String, Type)>,
}

/// A JSON string that is the name of one of the variants.
#[derive(Clone, Debug, PartialEq, Eq)]
pub struct JEnum {
    pub description: Option<String>,
    pub variants: Vec<(String, i64)>,
}

/// An instance of a class of the host, with its properties in the order in
/// which the host lists them.
#[derive(Clone, Debug, PartialEq, Eq)]
pub struct JClass {
    pub description: Option<String>,
    pub properties: Vec<(String, Type)>,
    pub source: ClassSource,
}

/// A schema node.
#[derive(Debug, PartialEq, Eq)]
pub enum Definition {
    Null(Null),
    Boolean(Boolean),
    Integer(Integer),
    Number(Number),
    String(JString),
    Object(JObject),
    Array(JArray),
    Tuple(JTuple),
    Enum(JEnum),
    Class(JClass),
    Variant(VariantDefinition),
}

/// A node written in place, or the name of one in the definitions table.
#[derive(Debug, PartialEq, Eq)]
pub enum Type {
    Definition(Definition),
    Ref(JRef),
}

/// The text of an optional string.
pub open spec fn text_view(text: Option<String>) -> Option<Seq<char>> {
    match text {
        Some(s) => Some(s@),
        None => None,
    }
}

/// The model of a type.
pub open spec fn type_view(ty: Type) -> TypeView
    decreases ty,
{
    match ty {
        Type::Definition(definition) => TypeView::Definition(definition_view(definition)),
        Type::Ref(reference) => TypeView::Ref(text_view(reference.description), reference.name@),
    }
}

/// The models of a list of types.
pub open spec fn type_views(items: Seq<Type>) -> Seq<TypeView>
    decreases items,
{
    Seq::new(
        items.len(),
        |i: int|
            if 0 <= i < items.len() {
                type_view(items[i])
            } else {
                TypeView::Ref(None, Seq::empty())
            },
    )
}

/// The model of a property list.
pub open spec fn property_views(properties: Seq<(String, Type)>) -> Seq<(Seq<char>, TypeView)>
    decreases properties,
{
    Seq::new(
        properties.len(),
        |i: int|
            if 0 <= i < properties.len() {
                (properties[i].0@, type_view(properties[i].1))
            } else {
                (Seq::empty(), TypeView::Ref(None, Seq::empty()))
            },
    )
}

/// The model of a variant list.
pub open spec fn variant_views(variants: Seq<(String, i64)>) -> Seq<(Seq<char>, i64)> {
    Seq::new(variants.len(), |i: int| (variants[i].0@, variants[i].1))
}

/// The model of a node.
pub open spec fn definition_view(definition: Definition) -> DefinitionView
    decreases definition,
{
    match definition {
        Definition::Null(d) => DefinitionView {
            description: text_view(d.description),
            kind: DefinitionKind::Null,
        },
        Definition::Boolean(d) => DefinitionView {
            description: text_view(d.description),
            kind: DefinitionKind::Boolean,
        },
        Definition::Integer(d) => DefinitionView {
            description: text_view(d.description),
            kind: DefinitionKind::Integer,
        },
        Definition::Number(d) => DefinitionView {
            description: text_view(d.description),
            kind: DefinitionKind::Number,
        },
        Definition::String(d) => DefinitionView {
            description: text_view(d.description),
            kind: DefinitionKind::String,
        },
        Definition::Object(d) => DefinitionView {
            description: text_view(d.description),
            kind: DefinitionKind::Object(property_views(d.properties@)),
        },
        Definition::Array(d) => DefinitionView {
            description: text_view(d.description),
            kind: DefinitionKind::Array(
                match d.items_ty {
                    Some(item) => Some(Box::new(type_view(*item))),
                    None => None,
                },
            ),
        },
        Definition::Tuple(d) => DefinitionView {
            description: text_view(d.description),
            kind: DefinitionKind::Tuple(type_views(d.items@)),
        },
        Definition::Enum(d) => DefinitionView {
            description: text_view(d.description),
            kind: DefinitionKind::Enum(variant_views(d.variants@)),
        },
        Definition::Class(d) => DefinitionView {
            description: text_view(d.description),
            kind: DefinitionKind::Class(d.source@, property_views(d.properties@)),
        },
        Definition::Variant(tag) => DefinitionView {
            description: None,
            kind: DefinitionKind::Variant(tag),
        },
    }
}

/// The model of a definitions table.
pub open spec fn defs_view(defs: Seq<(String, Definition)>) -> DefsView {
    Seq::new(defs.len(), |i: int| (defs[i].0@, definition_view(defs[i].1)))
}

impl View for Type {
    type V = TypeView;

    open spec fn view(&self) -> TypeView {
        type_view(*self)
    }
}

impl View for Definition {
    type V = DefinitionView;

    open spec fn view(&self) -> DefinitionView {
        definition_view(*self)
    }
}

impl View for JRef {
    type V = TypeView;

    open spec fn view(&self) -> TypeView {
        TypeView::Ref(text_view(self.description), self.name@)
    }
}

impl View for Null {
    type V = DefinitionView;

    open spec fn view(&self) -> DefinitionView {
        DefinitionView { description: text_view(self.description), kind: DefinitionKind::Null }
    }
}

impl View for Boolean {
    type V = DefinitionView;

    open spec fn view(&self) -> DefinitionView {
        DefinitionView { description: text_view(self.description), kind: DefinitionKind::Boolean }
    }
}

impl View for Integer {
    type V = DefinitionView;

    open spec fn view(&self) -> DefinitionView {
        DefinitionView { description: text_view(self.description), kind: DefinitionKind::Integer }
    }
}

impl View for Number {
    type V = DefinitionView;

    open spec fn view(&self) -> DefinitionView {
        DefinitionView { description: text_view(self.description), kind: DefinitionKind::Number }
    }
}

impl View for JString {
    type V = DefinitionView;

    open spec fn view(&self) -> DefinitionView {
        DefinitionView { description: text_view(self.description), kind: DefinitionKind::String }
    }
}

impl View for JArray {
    type V = DefinitionView;

    open spec fn view(&self) -> DefinitionView {
        DefinitionView {
            description: text_view(self.description),
            kind: DefinitionKind::Array(
                match self.items_ty {
                    Some(item) => Some(Box::new(type_view(*item))),
                    None => None,
                },
            ),
        }
    }
}

impl View for JTuple {
    type V = DefinitionView;

    open spec fn view(&self) -> DefinitionView {
        DefinitionView {
            description: text_view(self.description),
            kind: DefinitionKind::Tuple(type_views(self.items@)),
        }
    }
}

impl View for JObject {
    type V = DefinitionView;

    open spec fn view(&self) -> DefinitionView {
        DefinitionView {
            description: text_view(self.description),
            kind: DefinitionKind::Object(property_views(self.properties@)),
        }
    }
}

impl View for JEnum {
    type V = DefinitionView;

    open spec fn view(&self) -> DefinitionView {
        DefinitionView {
            description: text_view(self.description),
            kind: DefinitionKind::Enum(variant_views(self.variants@)),
        }
    }
}

impl View for JClass {
    type V = DefinitionView;

    open spec fn view(&self) -> DefinitionView {
        DefinitionView {
            description: text_view(self.description),
            kind: DefinitionKind::Class(self.source@, property_views(self.properties@)),
        }
    }
}

/// The names of a property list are the names of its model.
pub proof fn lemma_property_names(properties: Seq<(String, Type)>)
    ensures
        keys_of(property_views(properties)) == names_of(properties),
{
    assert(keys_of(property_views(properties)) =~= names_of(properties));
}

/// The names of a variant list are the names of its model.
pub proof fn lemma_variant_names(variants: Seq<(String, i64)>)
    ensures
        keys_of(variant_views(variants)) == names_of(variants),
{
    assert(keys_of(variant_views(variants)) =~= names_of(variants));
}

/// Setting a property of an executable list sets it in the model.
pub proof fn lemma_property_set(properties: Seq<(String, Type)>, key: String, ty: Type)
    ensures
        keys_of(property_views(properties)) == names_of(properties),
        match key_index(names_of(properties), key@) {
            Some(i) => property_views(properties.update(i, (key, ty))) == upsert(
                property_views(properties),
                key@,
                ty@,
            ),
            None => property_views(properties.push((key, ty))) == upsert(
                property_views(properties),
                key@,
                ty@,
            ),
        },
{
    assert(keys_of(property_views(properties)) =~= names_of(properties));
    lemma_key_index(names_of(properties), key@);
    match key_index(names_of(properties), key@) {
        Some(i) => {
            assert(property_views(properties.update(i, (key, ty))) =~= property_views(
                properties,
            ).update(i, (key@, ty@)));
        },
        None => {
            assert(property_views(properties.push((key, ty))) =~= property_views(properties).push(
                (key@, ty@),
            ));
        },
    }
}

/// Setting a variant of an executable list sets it in the model.
pub proof fn lemma_variant_set(variants: Seq<(String, i64)>, key: String, value: i64)
    ensures
        keys_of(variant_views(variants)) == names_of(variants),
        match key_index(names_of(variants), key@) {
            Some(i) => variant_views(variants.update(i, (key, value))) == upsert(
                variant_views(variants),
                key@,
                value,
            ),
            None => variant_views(variants.push((key, value))) == upsert(
                variant_views(variants),
                key@,
                value,
            ),
        },
{
    assert(keys_of(variant_views(variants)) =~= names_of(variants));
    lemma_key_index(names_of(variants), key@);
    match key_index(names_of(variants), key@) {
        Some(i) => {
            assert(variant_views(variants.update(i, (key, value))) =~= variant_views(
                variants,
            ).update(i, (key@, value)));
        },
        None => {
            assert(variant_views(variants.push((key, value))) =~= variant_views(variants).push(
                (key@, value),
            ));
        },
    }
}

/// Setting a well-formed type in a well-formed property list leaves it so.
pub proof fn lemma_upsert_types_wf(
    properties: Seq<(Seq<char>, TypeView)>,
    key: Seq<char>,
    ty: TypeView,
)
    requires
        unique_keys(properties),
        forall|i: int| 0 <= i < properties.len() ==> (#[trigger] properties[i]).1.wf(),
        ty.wf(),
    ensures
        unique_keys(upsert(properties, key, ty)),
        forall|i: int|
            0 <= i < upsert(properties, key, ty).len() ==> (#[trigger] upsert(
                properties,
                key,
                ty,
            )[i]).1.wf(),
{
    lemma_upsert_unique(properties, key, ty);
    lemma_key_index(keys_of(properties), key);
}

/// A copy of an optional text.
pub fn clone_text(text: &Option<String>) -> (r: Option<String>)
    ensures
        text_view(r) == text_view(*text),
{
    match text {
        Some(s) => Some(s.clone()),
        None => None,
    }
}

/// A copy of a type.
pub fn clone_type(ty: &Type) -> (r: Type)
    ensures
        r@ == ty@,
    decreases ty,
{
    match ty {
        Type::Definition(definition) => Type::Definition(clone_definition(definition)),
        Type::Ref(reference) => Type::Ref(
            JRef { description: clone_text(&reference.description), name: reference.name.clone() },
        ),
    }
}

fn clone_types(items: &Vec<Type>) -> (r: Vec<Type>)
    ensures
        type_views(r@) == type_views(items@),
    decreases items,
{
    let mut copy: Vec<Type> = Vec::new();
    let mut i: usize = 0;
    while i < items.len()
        invariant
            i <= items.len(),
            copy@.len() == i,
            forall|k: int| 0 <= k < i ==> type_view(#[trigger] copy@[k]) == type_view(items@[k]),
        decreases items.len() - i,
    {
        copy.push(clone_type(&items[i]));
        i += 1;
    }
    assert(type_views(copy@) =~= type_views(items@));
    copy
}

fn clone_properties(properties: &Vec<(String, Type)>) -> (r: Vec<(String, Type)>)
    ensures
        property_views(r@) == property_views(properties@),
    decreases properties,
{
    let mut copy: Vec<(String, Type)> = Vec::new();
    let mut i: usize = 0;
    while i < properties.len()
        invariant
            i <= properties.len(),
            copy@.len() == i,
            forall|k: int|
                0 <= k < i ==> (#[trigger] copy@[k]).0@ == properties@[k].0@ && type_view(
                    copy@[k].1,
                ) == type_view(properties@[k].1),
        decreases properties.len() - i,
    {
        copy.push((properties[i].0.clone(), clone_type(&properties[i].1)));
        i += 1;
    }
    assert(property_views(copy@) =~= property_views(properties@));
    copy
}

pub fn clone_variants(variants: &Vec<(String, i64)>) -> (r: Vec<(String, i64)>)
    ensures
        variant_views(r@) == variant_views(variants@),
{
    let mut copy: Vec<(String, i64)> = Vec::new();
    let mut i: usize = 0;
    while i < variants.len()
        invariant
            i <= variants.len(),
            copy@.len() == i,
            forall|k: int|
                0 <= k < i ==> (#[trigger] copy@[k]).0@ == variants@[k].0@ && copy@[k].1
                    == variants@[k].1,
        decreases variants.len() - i,
    {
        copy.push((variants[i].0.clone(), variants[i].1));
        i += 1;
    }
    assert(variant_views(copy@) =~= variant_views(variants@));
    copy
}

/// A copy of a node.
pub fn clone_definition(definition: &Definition) -> (r: Definition)
    ensures
        r@ == definition@,
    decreases definition,
{
    match definition {
        Definition::Null(d) => Definition::Null(Null { description: clone_text(&d.description) }),
        Definition::Boolean(d) => Definition::Boolean(
            Boolean { description: clone_text(&d.description) },
        ),
        Definition::Integer(d) => Definition::Integer(
            Integer { description: clone_text(&d.description) },
        ),
        Definition::Number(d) => Definition::Number(
            Number { description: clone_text(&d.description) },
        ),
        Definition::String(d) => Definition::String(
            JString { description: clone_text(&d.description) },
        ),
        Definition::Object(d) => Definition::Object(
            JObject {
                description: clone_text(&d.description),
                properties: clone_properties(&d.properties),
            },
        ),
        Definition::Array(d) => Definition::Array(
            JArray {
                description: clone_text(&d.description),
                items_ty: match &d.items_ty {
                    Some(item) => Some(Box::new(clone_type(item))),
                    None => None,
                },
            },
        ),
        Definition::Tuple(d) => Definition::Tuple(
            JTuple { description: clone_text(&d.description), items: clone_types(&d.items) },
        ),
        Definition::Enum(d) => Definition::Enum(
            JEnum {
                description: clone_text(&d.description),
                variants: clone_variants(&d.variants),
            },
        ),
        Definition::Class(d) => Definition::Class(
            JClass {
                description: clone_text(&d.description),
                properties: clone_properties(&d.properties),
                source: d.source.clone(),
            },
        ),
        Definition::Variant(tag) => Definition::Variant(*tag),
    }
}

impl Clone for Type {
    fn clone(&self) -> (r: Self)
        ensures
            r@ == self@,
    {
        clone_type(self)
    }
}

impl Clone for Definition {
    fn clone(&self) -> (r: Self)
        ensures
            r@ == self@,
    {
        clone_definition(self)
    }
}

} // verus!
