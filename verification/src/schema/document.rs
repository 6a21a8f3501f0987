//! The JSON Schema document of a schema graph.
//!
//! Every node is written as an object: its description, where it has one,
//! and then the members that its kind calls for. A reference, and a node of a
//! built-in composite type, is written as a `$ref` into the definitions of
//! the document.

use crate::json::{json_views, member_views, JsonValue, JsonView};
use crate::names::keys_of;
use crate::schema::catalog::{record, spec_source_definition};
use crate::schema::closure::{collect_variant_definitions, implicit_definitions};
use crate::schema::definition::Definitions;
use crate::schema::model::{DefinitionKind, DefinitionView, DefsView, TypeView};
use crate::schema::types::{
    defs_view, property_views, text_view, type_views, Definition, JRef, Type,
};
use crate::schema::variant::VariantDefinition;
use vstd::prelude::*;
use vstd::string::StringExecFns;

verus! {

/// A JSON string.
pub open spec fn text(s: Seq<char>) -> JsonView {
    JsonView::String(s)
}

/// The path of the definition called `name` in a document.
pub open spec fn ref_path(name: Seq<char>) -> Seq<char> {
    "#/$defs/"@ + name
}

/// The dialect that the documents are written in.
pub open spec fn dialect() -> Seq<char> {
    "https://json-schema.org/draft/2020-12/schema"@
}

/// The member that holds a description, where there is one.
pub open spec fn description_member(description: Option<Seq<char>>) -> Seq<(Seq<char>, JsonView)> {
    match description {
        Some(d) => seq![("description"@, text(d))],
        None => seq![],
    }
}

/// The names as JSON strings.
pub open spec fn name_list(names: Seq<Seq<char>>) -> Seq<JsonView> {
    Seq::new(names.len(), |i: int| text(names[i]))
}

/// The document of a type.
pub open spec fn type_doc(ty: TypeView) -> JsonView
    decreases ty, 0nat,
{
    match ty {
        TypeView::Definition(definition) => definition_doc(definition),
        TypeView::Ref(description, name) => JsonView::Object(
            description_member(description) + seq![("$ref"@, text(ref_path(name)))],
        ),
    }
}

/// The document of a node: its description, then its members.
pub open spec fn definition_doc(definition: DefinitionView) -> JsonView
    decreases definition, 2nat,
{
    JsonView::Object(description_member(definition.description) + definition_fields(definition))
}

/// The members that the kind of a node calls for.
///
/// - A primitive: its `type`.
/// - An object: `type`, and where it has properties, the `properties`, all
///   of them `required`, and `additionalProperties` false.
/// - A class: as an object, with these members also where it has no property.
/// - An array: `type` and, where the items have a type, `items`.
/// - A tuple: `type` and `prefixItems`.
/// - An enum: `type` string and the names of the variants as `enum`.
/// - A built-in composite type: a `$ref` to the definition of its name.
pub open spec fn definition_fields(definition: DefinitionView) -> Seq<(Seq<char>, JsonView)>
    decreases definition, 1nat,
{
    match definition.kind {
        DefinitionKind::Null => seq![("type"@, text("null"@))],
        DefinitionKind::Boolean => seq![("type"@, text("boolean"@))],
        DefinitionKind::Integer => seq![("type"@, text("integer"@))],
        DefinitionKind::Number => seq![("type"@, text("number"@))],
        DefinitionKind::String => seq![("type"@, text("string"@))],
        DefinitionKind::Object(properties) => if properties.len() == 0 {
            seq![("type"@, text("object"@))]
        } else {
            object_fields(properties)
        },
        DefinitionKind::Class(_, properties) => object_fields(properties),
        DefinitionKind::Array(Some(item)) => seq![
            ("type"@, text("array"@)),
            ("items"@, type_doc(*item)),
        ],
        DefinitionKind::Array(None) => seq![("type"@, text("array"@))],
        DefinitionKind::Tuple(items) => seq![
            ("type"@, text("array"@)),
            ("prefixItems"@, JsonView::Array(items_docs(items))),
        ],
        DefinitionKind::Enum(variants) => seq![
            ("type"@, text("string"@)),
            ("enum"@, JsonView::Array(name_list(keys_of(variants)))),
        ],
        DefinitionKind::Variant(tag) => seq![("$ref"@, text(ref_path(tag.spec_name())))],
    }
}

/// The members of an object with the given properties, all of them required
/// and no other allowed.
pub open spec fn object_fields(properties: Seq<(Seq<char>, TypeView)>) -> Seq<(Seq<char>, JsonView)>
    decreases properties, 1nat,
{
    seq![
        ("type"@, text("object"@)),
        ("properties"@, JsonView::Object(properties_docs(properties))),
        ("required"@, JsonView::Array(name_list(keys_of(properties)))),
        ("additionalProperties"@, JsonView::Bool(false)),
    ]
}

/// The documents of the properties, by name.
pub open spec fn properties_docs(properties: Seq<(Seq<char>, TypeView)>) -> Seq<
    (Seq<char>, JsonView),
>
    decreases properties, 0nat,
{
    Seq::new(
        properties.len(),
        |i: int|
            if 0 <= i < properties.len() {
                (properties[i].0, type_doc(properties[i].1))
            } else {
                (Seq::empty(), JsonView::Null)
            },
    )
}

/// The documents of a list of types.
pub open spec fn items_docs(items: Seq<TypeView>) -> Seq<JsonView>
    decreases items, 0nat,
{
    Seq::new(
        items.len(),
        |i: int|
            if 0 <= i < items.len() {
                type_doc(items[i])
            } else {
                JsonView::Null
            },
    )
}

/// The documents of the nodes of a table, by name.
pub open spec fn defs_docs(defs: DefsView) -> Seq<(Seq<char>, JsonView)> {
    Seq::new(defs.len(), |i: int| (defs[i].0, definition_doc(defs[i].1)))
}

/// The documents of the structures of built-in composite types, by name.
pub open spec fn implicit_docs(tags: Seq<VariantDefinition>) -> Seq<(Seq<char>, JsonView)> {
    Seq::new(
        tags.len(),
        |i: int| (tags[i].spec_name(), definition_doc(spec_source_definition(tags[i]))),
    )
}

/// The definitions of a document: the nodes of the table, then the
/// structures of the built-in composite types that the schema reaches and
/// the table does not hold.
pub open spec fn all_defs_docs(base: DefinitionView, defs: DefsView) -> Seq<(Seq<char>, JsonView)> {
    defs_docs(defs) + implicit_docs(implicit_definitions(base, defs))
}

/// The node that a document is rooted in: the base where it is an object or
/// a class, else an object with the base as its one property `value`, so
/// that the root is always an object.
pub open spec fn root_node(base: DefinitionView) -> DefinitionView {
    match base.kind {
        DefinitionKind::Class(_, _) | DefinitionKind::Object(_) => base,
        _ => record(seq![("value"@, TypeView::Definition(base))]),
    }
}

/// The document of a schema: the description of the base, the dialect, the
/// definitions, and the members of the root node.
pub open spec fn root_doc(base: DefinitionView, defs: DefsView) -> JsonView {
    JsonView::Object(
        description_member(base.description) + seq![
            ("$schema"@, text(dialect())),
            ("$defs"@, JsonView::Object(all_defs_docs(base, defs))),
        ] + definition_fields(root_node(base)),
    )
}

/// A text member.
fn text_member(name: &'static str, value: &'static str) -> (r: (String, JsonValue))
    ensures
        r.0@ == name@,
        r.1@ == text(value@),
{
    (String::from_str(name), JsonValue::String(String::from_str(value)))
}

/// The path of the definition called `name`.
fn ref_member(name: &str) -> (r: (String, JsonValue))
    ensures
        r.0@ == "$ref"@,
        r.1@ == text(ref_path(name@)),
{
    let mut path = String::from_str("#/$defs/");
    path.append(name);
    (String::from_str("$ref"), JsonValue::String(path))
}

/// Starts the members of a node with its description.
fn start_members(description: &Option<String>) -> (r: Vec<(String, JsonValue)>)
    ensures
        member_views(r@) == description_member(text_view(*description)),
{
    let mut members: Vec<(String, JsonValue)> = Vec::new();
    match description {
        Some(d) => {
            members.push((String::from_str("description"), JsonValue::String(d.clone())));
        },
        None => {},
    }
    assert(member_views(members@) =~= description_member(text_view(*description)));
    members
}

/// Appends `more` to `members`.
fn extend_members(members: &mut Vec<(String, JsonValue)>, more: Vec<(String, JsonValue)>)
    ensures
        member_views(final(members)@) == member_views(old(members)@) + member_views(more@),
{
    let mut rest = more;
    members.append(&mut rest);
    assert(member_views(members@) =~= member_views(old(members)@) + member_views(more@));
}

/// The names as JSON strings.
fn name_strings<V>(entries: &Vec<(String, V)>) -> (r: Vec<JsonValue>)
    ensures
        json_views(r@) == name_list(crate::names::names_of(entries@)),
{
    let mut names: Vec<JsonValue> = Vec::new();
    let mut i: usize = 0;
    while i < entries.len()
        invariant
            i <= entries.len(),
            names@.len() == i,
            forall|k: int| 0 <= k < i ==> (#[trigger] names@[k])@ == text(entries@[k].0@),
        decreases entries.len() - i,
    {
        names.push(JsonValue::String(entries[i].0.clone()));
        i += 1;
    }
    assert(json_views(names@) =~= name_list(crate::names::names_of(entries@)));
    names
}

/// The documents of the properties, by name.
fn properties_documents(properties: &Vec<(String, Type)>) -> (r: Vec<(String, JsonValue)>)
    ensures
        member_views(r@) == properties_docs(property_views(properties@)),
    decreases properties, 0nat,
{
    let mut members: Vec<(String, JsonValue)> = Vec::new();
    let mut i: usize = 0;
    while i < properties.len()
        invariant
            i <= properties.len(),
            members@.len() == i,
            forall|k: int|
                0 <= k < i ==> (#[trigger] members@[k]).0@ == properties@[k].0@ && members@[k].1@
                    == type_doc(properties@[k].1@),
        decreases properties.len() - i,
    {
        members.push((properties[i].0.clone(), properties[i].1.to_json_value()));
        i += 1;
    }
    assert(member_views(members@) =~= properties_docs(property_views(properties@)));
    members
}

/// The documents of a list of types.
fn items_documents(items: &Vec<Type>) -> (r: Vec<JsonValue>)
    ensures
        json_views(r@) == items_docs(type_views(items@)),
    decreases items, 0nat,
{
    let mut documents: Vec<JsonValue> = Vec::new();
    let mut i: usize = 0;
    while i < items.len()
        invariant
            i <= items.len(),
            documents@.len() == i,
            forall|k: int| 0 <= k < i ==> (#[trigger] documents@[k])@ == type_doc(items@[k]@),
        decreases items.len() - i,
    {
        documents.push(items[i].to_json_value());
        i += 1;
    }
    assert(json_views(documents@) =~= items_docs(type_views(items@)));
    documents
}

/// The members of an object with the given properties.
fn object_members(properties: &Vec<(String, Type)>) -> (r: Vec<(String, JsonValue)>)
    ensures
        member_views(r@) == object_fields(property_views(properties@)),
    decreases properties, 1nat,
{
    let mut members: Vec<(String, JsonValue)> = Vec::new();
    members.push(text_member("type", "object"));
    members.push(
        (String::from_str("properties"), JsonValue::Object(properties_documents(properties))),
    );
    members.push((String::from_str("required"), JsonValue::Array(name_strings(properties))));
    members.push((String::from_str("additionalProperties"), JsonValue::Bool(false)));
    proof {
        crate::schema::types::lemma_property_names(properties@);
    }
    assert(member_views(members@) =~= object_fields(property_views(properties@)));
    members
}

/// One member.
fn one_member(member: (String, JsonValue)) -> (r: Vec<(String, JsonValue)>)
    ensures
        member_views(r@) == seq![(member.0@, member.1@)],
{
    let mut members: Vec<(String, JsonValue)> = Vec::new();
    members.push(member);
    assert(member_views(members@) =~= seq![(member.0@, member.1@)]);
    members
}

/// Two members.
fn two_members(first: (String, JsonValue), second: (String, JsonValue)) -> (r: Vec<
    (String, JsonValue),
>)
    ensures
        member_views(r@) == seq![(first.0@, first.1@), (second.0@, second.1@)],
{
    let mut members: Vec<(String, JsonValue)> = Vec::new();
    members.push(first);
    members.push(second);
    assert(member_views(members@) =~= seq![(first.0@, first.1@), (second.0@, second.1@)]);
    members
}

impl JRef {
    /// The document of the reference.
    pub fn to_json_value(&self) -> (r: JsonValue)
        ensures
            r@ == type_doc(self@),
    {
        let mut members = start_members(&self.description);
        extend_members(&mut members, one_member(ref_member(self.name.as_str())));
        JsonValue::Object(members)
    }
}

impl Type {
    /// The document of the type.
    pub fn to_json_value(&self) -> (r: JsonValue)
        ensures
            r@ == type_doc(self@),
        decreases self, 0nat,
    {
        match self {
            Type::Definition(definition) => definition.to_json_value(),
            Type::Ref(reference) => reference.to_json_value(),
        }
    }
}

impl Definition {
    /// The members that the kind of the node calls for.
    pub fn serialize_fields(&self) -> (r: Vec<(String, JsonValue)>)
        ensures
            member_views(r@) == definition_fields(self@),
        decreases self, 1nat,
    {
        match self {
            Definition::Null(_) => one_member(text_member("type", "null")),
            Definition::Boolean(_) => one_member(text_member("type", "boolean")),
            Definition::Integer(_) => one_member(text_member("type", "integer")),
            Definition::Number(_) => one_member(text_member("type", "number")),
            Definition::String(_) => one_member(text_member("type", "string")),
            Definition::Object(object) => {
                if object.properties.len() == 0 {
                    one_member(text_member("type", "object"))
                } else {
                    object_members(&object.properties)
                }
            },
            Definition::Class(class) => object_members(&class.properties),
            Definition::Array(array) => match &array.items_ty {
                Some(item) => two_members(
                    text_member("type", "array"),
                    (String::from_str("items"), item.to_json_value()),
                ),
                None => one_member(text_member("type", "array")),
            },
            Definition::Tuple(tuple) => two_members(
                text_member("type", "array"),
                (String::from_str("prefixItems"), JsonValue::Array(items_documents(&tuple.items))),
            ),
            Definition::Enum(choice) => {
                proof {
                    crate::schema::types::lemma_variant_names(choice.variants@);
                }
                two_members(
                    text_member("type", "string"),
                    (String::from_str("enum"), JsonValue::Array(name_strings(&choice.variants))),
                )
            },
            Definition::Variant(tag) => one_member(ref_member(tag.name())),
        }
    }

    /// The document of the node.
    pub fn to_json_value(&self) -> (r: JsonValue)
        ensures
            r@ == definition_doc(self@),
        decreases self, 2nat,
    {
        let mut members = match self {
            Definition::Null(d) => start_members(&d.description),
            Definition::Boolean(d) => start_members(&d.description),
            Definition::Integer(d) => start_members(&d.description),
            Definition::Number(d) => start_members(&d.description),
            Definition::String(d) => start_members(&d.description),
            Definition::Object(d) => start_members(&d.description),
            Definition::Array(d) => start_members(&d.description),
            Definition::Tuple(d) => start_members(&d.description),
            Definition::Enum(d) => start_members(&d.description),
            Definition::Class(d) => start_members(&d.description),
            Definition::Variant(_) => start_members(&None),
        };
        extend_members(&mut members, self.serialize_fields());
        JsonValue::Object(members)
    }
}

/// The definitions of the document of a schema.
fn all_definitions(base: &Definition, defs: &Definitions) -> (r: Vec<(String, JsonValue)>)
    ensures
        member_views(r@) == all_defs_docs(base@, defs_view(defs@)),
{
    let mut members: Vec<(String, JsonValue)> = Vec::new();
    let mut i: usize = 0;
    while i < defs.len()
        invariant
            i <= defs.len(),
            members@.len() == i,
            forall|k: int|
                0 <= k < i ==> (#[trigger] members@[k]).0@ == defs@[k].0@ && members@[k].1@
                    == definition_doc(defs@[k].1@),
        decreases defs.len() - i,
    {
        members.push((defs[i].0.clone(), defs[i].1.to_json_value()));
        i += 1;
    }
    assert(member_views(members@) =~= defs_docs(defs_view(defs@)));
    let tags = collect_variant_definitions(base, defs);
    let mut more: Vec<(String, JsonValue)> = Vec::new();
    let mut k: usize = 0;
    while k < tags.len()
        invariant
            k <= tags.len(),
            more@.len() == k,
            forall|j: int|
                0 <= j < k ==> (#[trigger] more@[j]).0@ == tags@[j].spec_name() && more@[j].1@
                    == definition_doc(spec_source_definition(tags@[j])),
        decreases tags.len() - k,
    {
        more.push((String::from_str(tags[k].name()), tags[k].source_definition().to_json_value()));
        k += 1;
    }
    assert(member_views(more@) =~= implicit_docs(tags@));
    extend_members(&mut members, more);
    members
}

/// The document of the schema of `base` and `defs`.
pub fn root_document(base: &Definition, defs: &Definitions) -> (r: JsonValue)
    ensures
        r@ == root_doc(base@, defs_view(defs@)),
{
    let mut members = match base.description() {
        Some(d) => one_member((String::from_str("description"), JsonValue::String(d.clone()))),
        None => Vec::new(),
    };
    assert(member_views(members@) =~= description_member(base@.description));
    extend_members(
        &mut members,
        two_members(
            text_member("$schema", "https://json-schema.org/draft/2020-12/schema"),
            (String::from_str("$defs"), JsonValue::Object(all_definitions(base, defs))),
        ),
    );
    let fields = match base {
        Definition::Class(_) | Definition::Object(_) => base.serialize_fields(),
        _ => {
            let wrapped = one_member_type("value", Type::Definition(base.clone()));
            object_members(&wrapped)
        },
    };
    extend_members(&mut members, fields);
    JsonValue::Object(members)
}

/// One property.
fn one_member_type(name: &'static str, ty: Type) -> (r: Vec<(String, Type)>)
    ensures
        property_views(r@) == seq![(name@, ty@)],
{
    let mut properties: Vec<(String, Type)> = Vec::new();
    properties.push((String::from_str(name), ty));
    assert(property_views(properties@) =~= seq![(name@, ty@)]);
    properties
}

} // verus!
