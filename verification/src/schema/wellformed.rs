//! The documents of well-formed schemas are well formed.

use crate::json::JsonView;
use crate::names::{key_index, keys_of, lemma_key_index, unique_keys};
use crate::schema::catalog::{
    in_place, list_of, record, repeated, spec_source_definition, uniform,
};
use crate::schema::closure::{emitted, implicit_definitions};
use crate::schema::document::{
    all_defs_docs, definition_doc, definition_fields, defs_docs, description_member,
    implicit_docs, items_docs, name_list, object_fields, properties_docs, root_doc, root_node,
    type_doc,
};
use crate::schema::model::{defs_wf, DefinitionKind, DefinitionView, DefsView, TypeView};
use crate::schema::variant::VariantDefinition;
use vstd::prelude::*;

verus! {

/// The keywords of a document are distinct words.
pub proof fn lemma_keywords_distinct()
    ensures
        "description"@ != "$ref"@,
        "description"@ != "type"@,
        "description"@ != "properties"@,
        "description"@ != "required"@,
        "description"@ != "additionalProperties"@,
        "description"@ != "items"@,
        "description"@ != "prefixItems"@,
        "description"@ != "enum"@,
        "description"@ != "$schema"@,
        "description"@ != "$defs"@,
        "$ref"@ != "type"@,
        "$ref"@ != "properties"@,
        "$ref"@ != "required"@,
        "$ref"@ != "additionalProperties"@,
        "$ref"@ != "items"@,
        "$ref"@ != "prefixItems"@,
        "$ref"@ != "enum"@,
        "$ref"@ != "$schema"@,
        "$ref"@ != "$defs"@,
        "type"@ != "properties"@,
        "type"@ != "required"@,
        "type"@ != "additionalProperties"@,
        "type"@ != "items"@,
        "type"@ != "prefixItems"@,
        "type"@ != "enum"@,
        "type"@ != "$schema"@,
        "type"@ != "$defs"@,
        "properties"@ != "required"@,
        "properties"@ != "additionalProperties"@,
        "properties"@ != "items"@,
        "properties"@ != "prefixItems"@,
        "properties"@ != "enum"@,
        "properties"@ != "$schema"@,
        "properties"@ != "$defs"@,
        "required"@ != "additionalProperties"@,
        "required"@ != "items"@,
        "required"@ != "prefixItems"@,
        "required"@ != "enum"@,
        "required"@ != "$schema"@,
        "required"@ != "$defs"@,
        "additionalProperties"@ != "items"@,
        "additionalProperties"@ != "prefixItems"@,
        "additionalProperties"@ != "enum"@,
        "additionalProperties"@ != "$schema"@,
        "additionalProperties"@ != "$defs"@,
        "items"@ != "prefixItems"@,
        "items"@ != "enum"@,
        "items"@ != "$schema"@,
        "items"@ != "$defs"@,
        "prefixItems"@ != "enum"@,
        "prefixItems"@ != "$schema"@,
        "prefixItems"@ != "$defs"@,
        "enum"@ != "$schema"@,
        "enum"@ != "$defs"@,
        "$schema"@ != "$defs"@,
{
    reveal_strlit("description");
    reveal_strlit("$ref");
    reveal_strlit("type");
    reveal_strlit("properties");
    reveal_strlit("required");
    reveal_strlit("additionalProperties");
    reveal_strlit("items");
    reveal_strlit("prefixItems");
    reveal_strlit("enum");
    reveal_strlit("$schema");
    reveal_strlit("$defs");
    assert("description"@.len() == 11 && "description"@[0] == 'd');
    assert("$ref"@.len() == 4 && "$ref"@[0] == '$');
    assert("type"@.len() == 4 && "type"@[0] == 't');
    assert("properties"@.len() == 10 && "properties"@[0] == 'p');
    assert("required"@.len() == 8 && "required"@[0] == 'r');
    assert("additionalProperties"@.len() == 20 && "additionalProperties"@[0] == 'a');
    assert("items"@.len() == 5 && "items"@[0] == 'i');
    assert("prefixItems"@.len() == 11 && "prefixItems"@[0] == 'p');
    assert("enum"@.len() == 4 && "enum"@[0] == 'e');
    assert("$schema"@.len() == 7 && "$schema"@[0] == '$');
    assert("$defs"@.len() == 5 && "$defs"@[0] == '$');
}

/// Every value of the members is well formed and free of floats, and no
/// name occurs twice among them.
pub open spec fn members_ok(members: Seq<(Seq<char>, JsonView)>) -> bool {
    &&& unique_keys(members)
    &&& forall|i: int| 0 <= i < members.len() ==> (#[trigger] members[i]).1.wf()
    &&& forall|i: int| 0 <= i < members.len() ==> (#[trigger] members[i]).1.float_free()
}

/// A document is well formed and free of floats.
pub open spec fn document_ok(document: JsonView) -> bool {
    document.wf() && document.float_free()
}

/// None of the members is called `description`, `$schema` or `$defs`.
pub open spec fn body_keys(members: Seq<(Seq<char>, JsonView)>) -> bool {
    forall|i: int|
        0 <= i < members.len() ==> (#[trigger] members[i]).0 != "description"@ && members[i].0
            != "$schema"@ && members[i].0 != "$defs"@
}

/// A list of names is a well-formed document.
pub proof fn lemma_name_list_ok(names: Seq<Seq<char>>)
    ensures
        document_ok(JsonView::Array(name_list(names))),
{
    assert forall|i: int| 0 <= i < name_list(names).len() implies (#[trigger] name_list(
        names,
    )[i]).wf() && name_list(names)[i].float_free() by {}
}

/// The document of a well-formed type is well formed.
pub proof fn lemma_type_doc_ok(ty: TypeView)
    requires
        ty.wf(),
    ensures
        document_ok(type_doc(ty)),
    decreases ty, 0nat,
{
    match ty {
        TypeView::Definition(definition) => {
            lemma_definition_doc_ok(definition);
        },
        TypeView::Ref(description, name) => {
            lemma_keywords_distinct();
            let members = description_member(description) + seq![
                ("$ref"@, crate::schema::document::text(crate::schema::document::ref_path(name))),
            ];
            assert(members.len() <= 2);
            assert(forall|i: int| 0 <= i < members.len() ==> (#[trigger] members[i]).1.wf());
            assert(forall|i: int| 0 <= i < members.len() ==> (#[trigger] members[i]).1.float_free());
        },
    }
}

/// The document of a well-formed node is well formed.
pub proof fn lemma_definition_doc_ok(definition: DefinitionView)
    requires
        definition.wf(),
    ensures
        document_ok(definition_doc(definition)),
    decreases definition, 2nat,
{
    lemma_definition_fields_ok(definition);
    let fields = definition_fields(definition);
    let members = description_member(definition.description) + fields;
    match definition.description {
        Some(d) => {
            assert forall|i: int, j: int|
                0 <= i < members.len() && 0 <= j < members.len() && i != j implies keys_of(
                members,
            )[i] != keys_of(members)[j] by {
                if i > 0 {
                    assert(members[i] == fields[i - 1]);
                    assert(keys_of(fields)[i - 1] == members[i].0);
                }
                if j > 0 {
                    assert(members[j] == fields[j - 1]);
                    assert(keys_of(fields)[j - 1] == members[j].0);
                }
            }
            assert forall|i: int| 0 <= i < members.len() implies (#[trigger] members[i]).1.wf()
                && members[i].1.float_free() by {
                if i > 0 {
                    assert(members[i] == fields[i - 1]);
                }
            }
        },
        None => {
            assert(members =~= fields);
        },
    }
}

/// The members of a well-formed node are well formed, and none of them
/// bears a name of the head of a document.
pub proof fn lemma_definition_fields_ok(definition: DefinitionView)
    requires
        definition.wf(),
    ensures
        members_ok(definition_fields(definition)),
        body_keys(definition_fields(definition)),
    decreases definition, 1nat,
{
    lemma_keywords_distinct();
    let fields = definition_fields(definition);
    match definition.kind {
        DefinitionKind::Object(properties) => {
            if properties.len() > 0 {
                lemma_object_fields_ok(properties);
            } else {
                assert(keys_of(fields).no_duplicates());
            }
        },
        DefinitionKind::Class(_, properties) => {
            lemma_object_fields_ok(properties);
        },
        DefinitionKind::Array(Some(item)) => {
            lemma_type_doc_ok(*item);
            assert(keys_of(fields).no_duplicates());
        },
        DefinitionKind::Tuple(items) => {
            lemma_items_docs_ok(items);
            assert(keys_of(fields).no_duplicates());
        },
        DefinitionKind::Enum(variants) => {
            lemma_name_list_ok(keys_of(variants));
            assert(keys_of(fields).no_duplicates());
        },
        _ => {
            assert(keys_of(fields).no_duplicates());
        },
    }
}

/// The members of an object with well-formed properties are well formed.
pub proof fn lemma_object_fields_ok(properties: Seq<(Seq<char>, TypeView)>)
    requires
        unique_keys(properties),
        forall|i: int| 0 <= i < properties.len() ==> (#[trigger] properties[i]).1.wf(),
    ensures
        members_ok(object_fields(properties)),
        body_keys(object_fields(properties)),
    decreases properties, 1nat,
{
    lemma_keywords_distinct();
    lemma_properties_docs_ok(properties);
    lemma_name_list_ok(keys_of(properties));
    assert(keys_of(object_fields(properties)).no_duplicates());
}

/// The documents of well-formed properties are well formed.
pub proof fn lemma_properties_docs_ok(properties: Seq<(Seq<char>, TypeView)>)
    requires
        unique_keys(properties),
        forall|i: int| 0 <= i < properties.len() ==> (#[trigger] properties[i]).1.wf(),
    ensures
        document_ok(JsonView::Object(properties_docs(properties))),
    decreases properties, 0nat,
{
    let docs = properties_docs(properties);
    assert(keys_of(docs) =~= keys_of(properties));
    assert forall|i: int| 0 <= i < docs.len() implies (#[trigger] docs[i]).1.wf()
        && docs[i].1.float_free() by {
        lemma_type_doc_ok(properties[i].1);
    }
}

/// The documents of well-formed types are well formed.
pub proof fn lemma_items_docs_ok(items: Seq<TypeView>)
    requires
        forall|i: int| 0 <= i < items.len() ==> (#[trigger] items[i]).wf(),
    ensures
        document_ok(JsonView::Array(items_docs(items))),
    decreases items, 0nat,
{
    let docs = items_docs(items);
    assert forall|i: int| 0 <= i < docs.len() implies (#[trigger] docs[i]).wf()
        && docs[i].float_free() by {
        lemma_type_doc_ok(items[i]);
    }
}

/// Two types of the catalog with one name are one type.
pub proof fn lemma_name_injective(a: VariantDefinition, b: VariantDefinition)
    requires
        a.spec_name() == b.spec_name(),
    ensures
        a == b,
{
    reveal_strlit("Vector2");
    assert("Vector2"@.len() == 7 && "Vector2"@[0] == 'V' && "Vector2"@[6] == '2');
    reveal_strlit("Vector2i");
    assert("Vector2i"@.len() == 8 && "Vector2i"@[0] == 'V' && "Vector2i"@[6] == '2');
    reveal_strlit("Rect2");
    assert("Rect2"@.len() == 5 && "Rect2"@[0] == 'R');
    reveal_strlit("Rect2i");
    assert("Rect2i"@.len() == 6 && "Rect2i"@[0] == 'R');
    reveal_strlit("Vector3");
    assert("Vector3"@.len() == 7 && "Vector3"@[0] == 'V' && "Vector3"@[6] == '3');
    reveal_strlit("Vector3i");
    assert("Vector3i"@.len() == 8 && "Vector3i"@[0] == 'V' && "Vector3i"@[6] == '3');
    reveal_strlit("Transform2D");
    assert("Transform2D"@.len() == 11 && "Transform2D"@[0] == 'T' && "Transform2D"@[6] == 'o' && "Transform2D"@[9] == '2');
    reveal_strlit("Vector4");
    assert("Vector4"@.len() == 7 && "Vector4"@[0] == 'V' && "Vector4"@[6] == '4');
    reveal_strlit("Vector4i");
    assert("Vector4i"@.len() == 8 && "Vector4i"@[0] == 'V' && "Vector4i"@[6] == '4');
    reveal_strlit("Plane");
    assert("Plane"@.len() == 5 && "Plane"@[0] == 'P');
    reveal_strlit("Quaternion");
    assert("Quaternion"@.len() == 10 && "Quaternion"@[0] == 'Q' && "Quaternion"@[6] == 'n' && "Quaternion"@[9] == 'n');
    reveal_strlit("Aabb");
    assert("Aabb"@.len() == 4 && "Aabb"@[0] == 'A');
    reveal_strlit("Basis");
    assert("Basis"@.len() == 5 && "Basis"@[0] == 'B');
    reveal_strlit("Transform3D");
    assert("Transform3D"@.len() == 11 && "Transform3D"@[0] == 'T' && "Transform3D"@[6] == 'o' && "Transform3D"@[9] == '3');
    reveal_strlit("Projection");
    assert("Projection"@.len() == 10 && "Projection"@[0] == 'P' && "Projection"@[6] == 't' && "Projection"@[9] == 'n');
    reveal_strlit("Color");
    assert("Color"@.len() == 5 && "Color"@[0] == 'C');
    reveal_strlit("Rid");
    assert("Rid"@.len() == 3 && "Rid"@[0] == 'R');
    reveal_strlit("PackedByteArray");
    assert("PackedByteArray"@.len() == 15 && "PackedByteArray"@[0] == 'P' && "PackedByteArray"@[6] == 'B' && "PackedByteArray"@[9] == 'e' && "PackedByteArray"@[11] == 'r' && "PackedByteArray"@[12] == 'r');
    reveal_strlit("PackedInt32Array");
    assert("PackedInt32Array"@.len() == 16 && "PackedInt32Array"@[0] == 'P' && "PackedInt32Array"@[6] == 'I' && "PackedInt32Array"@[9] == '3' && "PackedInt32Array"@[11] == 'A' && "PackedInt32Array"@[12] == 'r');
    reveal_strlit("PackedInt64Array");
    assert("PackedInt64Array"@.len() == 16 && "PackedInt64Array"@[0] == 'P' && "PackedInt64Array"@[6] == 'I' && "PackedInt64Array"@[9] == '6' && "PackedInt64Array"@[11] == 'A' && "PackedInt64Array"@[12] == 'r');
    reveal_strlit("PackedFloat32Array");
    assert("PackedFloat32Array"@.len() == 18 && "PackedFloat32Array"@[0] == 'P' && "PackedFloat32Array"@[6] == 'F' && "PackedFloat32Array"@[9] == 'a' && "PackedFloat32Array"@[11] == '3' && "PackedFloat32Array"@[12] == '2');
    reveal_strlit("PackedFloat64Array");
    assert("PackedFloat64Array"@.len() == 18 && "PackedFloat64Array"@[0] == 'P' && "PackedFloat64Array"@[6] == 'F' && "PackedFloat64Array"@[9] == 'a' && "PackedFloat64Array"@[11] == '6' && "PackedFloat64Array"@[12] == '4');
    reveal_strlit("PackedStringArray");
    assert("PackedStringArray"@.len() == 17 && "PackedStringArray"@[0] == 'P' && "PackedStringArray"@[6] == 'S' && "PackedStringArray"@[9] == 'i' && "PackedStringArray"@[11] == 'g' && "PackedStringArray"@[12] == 'A');
    reveal_strlit("PackedVector2Array");
    assert("PackedVector2Array"@.len() == 18 && "PackedVector2Array"@[0] == 'P' && "PackedVector2Array"@[6] == 'V' && "PackedVector2Array"@[9] == 't' && "PackedVector2Array"@[11] == 'r' && "PackedVector2Array"@[12] == '2');
    reveal_strlit("PackedVector3Array");
    assert("PackedVector3Array"@.len() == 18 && "PackedVector3Array"@[0] == 'P' && "PackedVector3Array"@[6] == 'V' && "PackedVector3Array"@[9] == 't' && "PackedVector3Array"@[11] == 'r' && "PackedVector3Array"@[12] == '3');
    reveal_strlit("PackedColorArray");
    assert("PackedColorArray"@.len() == 16 && "PackedColorArray"@[0] == 'P' && "PackedColorArray"@[6] == 'C' && "PackedColorArray"@[9] == 'o' && "PackedColorArray"@[11] == 'A' && "PackedColorArray"@[12] == 'r');
    reveal_strlit("PackedVector4Array");
    assert("PackedVector4Array"@.len() == 18 && "PackedVector4Array"@[0] == 'P' && "PackedVector4Array"@[6] == 'V' && "PackedVector4Array"@[9] == 't' && "PackedVector4Array"@[11] == 'r' && "PackedVector4Array"@[12] == '4');
}

/// The structure of every type of the catalog is well formed.
pub proof fn lemma_source_definition_wf(tag: VariantDefinition)
    ensures
        spec_source_definition(tag).wf(),
        !(spec_source_definition(tag).kind is Variant),
{
    reveal_strlit("x");
    assert("x"@.len() == 1 && "x"@[0] == 'x');
    reveal_strlit("y");
    assert("y"@.len() == 1 && "y"@[0] == 'y');
    reveal_strlit("z");
    assert("z"@.len() == 1 && "z"@[0] == 'z');
    reveal_strlit("w");
    assert("w"@.len() == 1 && "w"@[0] == 'w');
    reveal_strlit("r");
    assert("r"@.len() == 1 && "r"@[0] == 'r');
    reveal_strlit("g");
    assert("g"@.len() == 1 && "g"@[0] == 'g');
    reveal_strlit("b");
    assert("b"@.len() == 1 && "b"@[0] == 'b');
    reveal_strlit("a");
    assert("a"@.len() == 1 && "a"@[0] == 'a');
    reveal_strlit("position");
    assert("position"@.len() == 8 && "position"@[0] == 'p');
    reveal_strlit("size");
    assert("size"@.len() == 4 && "size"@[0] == 's');
    reveal_strlit("origin");
    assert("origin"@.len() == 6 && "origin"@[0] == 'o');
    reveal_strlit("basis");
    assert("basis"@.len() == 5 && "basis"@[0] == 'b');
    reveal_strlit("normal");
    assert("normal"@.len() == 6 && "normal"@[0] == 'n');
    reveal_strlit("d");
    assert("d"@.len() == 1 && "d"@[0] == 'd');
    reveal_strlit("rows");
    assert("rows"@.len() == 4 && "rows"@[0] == 'r');
    reveal_strlit("cols");
    assert("cols"@.len() == 4 && "cols"@[0] == 'c');
    let xy = seq!["x"@, "y"@];
    let xyz = seq!["x"@, "y"@, "z"@];
    let xyzw = seq!["x"@, "y"@, "z"@, "w"@];
    let rgba = seq!["r"@, "g"@, "b"@, "a"@];
    let area = seq!["position"@, "size"@];
    let axes = seq!["a"@, "b"@, "origin"@];
    assert(xy.no_duplicates() && xyz.no_duplicates() && xyzw.no_duplicates());
    assert(rgba.no_duplicates() && area.no_duplicates() && axes.no_duplicates());
    match tag {
        VariantDefinition::Vector2 => lemma_uniform_wf(xy, DefinitionKind::Number),
        VariantDefinition::Vector2i => lemma_uniform_wf(xy, DefinitionKind::Integer),
        VariantDefinition::Vector3 => lemma_uniform_wf(xyz, DefinitionKind::Number),
        VariantDefinition::Vector3i => lemma_uniform_wf(xyz, DefinitionKind::Integer),
        VariantDefinition::Vector4 => lemma_uniform_wf(xyzw, DefinitionKind::Number),
        VariantDefinition::Vector4i => lemma_uniform_wf(xyzw, DefinitionKind::Integer),
        VariantDefinition::Quaternion => lemma_uniform_wf(xyzw, DefinitionKind::Number),
        VariantDefinition::Color => lemma_uniform_wf(rgba, DefinitionKind::Number),
        VariantDefinition::Rect2 => lemma_uniform_wf(
            area,
            DefinitionKind::Variant(VariantDefinition::Vector2),
        ),
        VariantDefinition::Rect2i => lemma_uniform_wf(
            area,
            DefinitionKind::Variant(VariantDefinition::Vector2i),
        ),
        VariantDefinition::Aabb => lemma_uniform_wf(
            area,
            DefinitionKind::Variant(VariantDefinition::Vector3),
        ),
        VariantDefinition::Transform2D => lemma_uniform_wf(
            axes,
            DefinitionKind::Variant(VariantDefinition::Vector2),
        ),
        VariantDefinition::Transform3D => {
            let properties = seq![
                ("basis"@, in_place(DefinitionKind::Variant(VariantDefinition::Basis))),
                ("origin"@, in_place(DefinitionKind::Variant(VariantDefinition::Vector3))),
            ];
            lemma_record_wf(properties);
        },
        VariantDefinition::Plane => {
            let properties = seq![
                ("normal"@, in_place(DefinitionKind::Variant(VariantDefinition::Vector3))),
                ("d"@, in_place(DefinitionKind::Number)),
            ];
            lemma_record_wf(properties);
        },
        VariantDefinition::Basis => {
            lemma_repeated_wf(3, DefinitionKind::Variant(VariantDefinition::Vector3));
            let rows = repeated(3, DefinitionKind::Variant(VariantDefinition::Vector3));
            lemma_record_wf(seq![("rows"@, TypeView::Definition(rows))]);
        },
        VariantDefinition::Projection => {
            lemma_repeated_wf(4, DefinitionKind::Variant(VariantDefinition::Vector4));
            let cols = repeated(4, DefinitionKind::Variant(VariantDefinition::Vector4));
            lemma_record_wf(seq![("cols"@, TypeView::Definition(cols))]);
        },
        VariantDefinition::Rid => {},
        VariantDefinition::PackedByteArray
        | VariantDefinition::PackedInt32Array
        | VariantDefinition::PackedInt64Array => lemma_list_wf(DefinitionKind::Integer),
        VariantDefinition::PackedFloat32Array
        | VariantDefinition::PackedFloat64Array => lemma_list_wf(DefinitionKind::Number),
        VariantDefinition::PackedStringArray => lemma_list_wf(DefinitionKind::String),
        VariantDefinition::PackedVector2Array => lemma_list_wf(
            DefinitionKind::Variant(VariantDefinition::Vector2),
        ),
        VariantDefinition::PackedVector3Array => lemma_list_wf(
            DefinitionKind::Variant(VariantDefinition::Vector3),
        ),
        VariantDefinition::PackedColorArray => lemma_list_wf(
            DefinitionKind::Variant(VariantDefinition::Color),
        ),
        VariantDefinition::PackedVector4Array => lemma_list_wf(
            DefinitionKind::Variant(VariantDefinition::Vector4),
        ),
    }
}

/// An object with well-formed properties under distinct names is well formed.
pub proof fn lemma_record_wf(properties: Seq<(Seq<char>, TypeView)>)
    requires
        keys_of(properties).no_duplicates(),
        forall|i: int| 0 <= i < properties.len() ==> (#[trigger] properties[i]).1.wf(),
    ensures
        record(properties).wf(),
{
}

/// An array of items of one kind is well formed where the kind is.
pub proof fn lemma_list_wf(kind: DefinitionKind)
    requires
        in_place(kind).wf(),
    ensures
        list_of(kind).wf(),
{
}

/// A tuple of items of one kind is well formed where the kind is.
pub proof fn lemma_repeated_wf(count: nat, kind: DefinitionKind)
    requires
        in_place(kind).wf(),
    ensures
        repeated(count, kind).wf(),
{
    let items = Seq::new(count, |i: int| in_place(kind));
    assert forall|i: int| 0 <= i < items.len() implies (#[trigger] items[i]).wf() by {}
    assert(repeated(count, kind).kind == DefinitionKind::Tuple(items));
}

/// An object whose properties are all of one kind, under distinct names, is
/// well formed where the kind is.
pub proof fn lemma_uniform_wf(names: Seq<Seq<char>>, kind: DefinitionKind)
    requires
        names.no_duplicates(),
        in_place(kind).wf(),
    ensures
        record(uniform(names, kind)).wf(),
{
    assert(keys_of(uniform(names, kind)) =~= names);
    lemma_record_wf(uniform(names, kind));
}

/// What is emitted holds no type twice and no type whose name is taken.
pub proof fn lemma_emitted(tags: Seq<VariantDefinition>, taken: Seq<Seq<char>>)
    ensures
        emitted(tags, taken).no_duplicates(),
        forall|k: int|
            0 <= k < emitted(tags, taken).len() ==> key_index(
                taken,
                (#[trigger] emitted(tags, taken)[k]).spec_name(),
            ) is None,
        forall|k: int|
            0 <= k < emitted(tags, taken).len() ==> tags.contains(#[trigger] emitted(tags, taken)[k]),
        forall|i: int|
            0 <= i < tags.len() ==> key_index(taken, (#[trigger] tags[i]).spec_name()) is Some
                || emitted(tags, taken).contains(tags[i]),
    decreases tags.len(),
{
    if tags.len() > 0 {
        let front_tags = tags.drop_last();
        lemma_emitted(front_tags, taken);
        let front = emitted(front_tags, taken);
        let tag = tags.last();
        let all = emitted(tags, taken);
        assert forall|k: int| 0 <= k < all.len() implies tags.contains(#[trigger] all[k]) by {
            if k < front.len() {
                assert(front_tags.contains(front[k]));
                let at = choose|at: int| 0 <= at < front_tags.len() && front_tags[at] == front[k];
                assert(tags[at] == front[k]);
            } else {
                assert(all[k] == tag);
                assert(tags[tags.len() - 1] == tag);
            }
        }
        assert forall|i: int| 0 <= i < tags.len() implies key_index(
            taken,
            (#[trigger] tags[i]).spec_name(),
        ) is Some || all.contains(tags[i]) by {
            if i < tags.len() - 1 {
                assert(front_tags[i] == tags[i]);
                if front.contains(front_tags[i]) {
                    let at = choose|at: int| 0 <= at < front.len() && front[at] == front_tags[i];
                    assert(all[at] == tags[i]);
                }
            } else {
                if !(key_index(taken, tag.spec_name()) is Some) && !front.contains(tag) {
                    assert(all[all.len() - 1] == tag);
                } else if front.contains(tag) {
                    let at = choose|at: int| 0 <= at < front.len() && front[at] == tag;
                    assert(all[at] == tag);
                }
            }
        }
    }
}

/// The definitions of the document of a well-formed schema are well formed:
/// in particular, no name occurs twice among them.
pub proof fn lemma_all_defs_docs_ok(base: DefinitionView, defs: DefsView)
    requires
        defs_wf(defs),
    ensures
        document_ok(JsonView::Object(all_defs_docs(base, defs))),
{
    let explicit = defs_docs(defs);
    let tags = implicit_definitions(base, defs);
    let implicit = implicit_docs(tags);
    let all = all_defs_docs(base, defs);
    lemma_emitted(crate::schema::closure::schema_tags(base, defs), keys_of(defs));
    assert forall|i: int| 0 <= i < all.len() implies (#[trigger] all[i]).1.wf()
        && all[i].1.float_free() by {
        if i < explicit.len() {
            assert(all[i] == explicit[i]);
            lemma_definition_doc_ok(defs[i].1);
        } else {
            let k = i - explicit.len();
            assert(all[i] == implicit[k]);
            lemma_source_definition_wf(tags[k]);
            lemma_definition_doc_ok(spec_source_definition(tags[k]));
        }
    }
    assert forall|i: int, j: int|
        0 <= i < all.len() && 0 <= j < all.len() && i != j implies keys_of(all)[i] != keys_of(
        all,
    )[j] by {
        let ki = keys_of(all)[i];
        let kj = keys_of(all)[j];
        if i < explicit.len() && j < explicit.len() {
            assert(all[i] == explicit[i] && all[j] == explicit[j]);
            assert(keys_of(defs)[i] == ki && keys_of(defs)[j] == kj);
        } else if i >= explicit.len() && j >= explicit.len() {
            let a = i - explicit.len();
            let b = j - explicit.len();
            assert(all[i] == implicit[a] && all[j] == implicit[b]);
            if ki == kj {
                lemma_name_injective(tags[a], tags[b]);
            }
        } else {
            let (e, m) = if i < explicit.len() {
                (i, j - explicit.len())
            } else {
                (j, i - explicit.len())
            };
            assert(all[e] == explicit[e]);
            assert(all[e + 0].0 == keys_of(defs)[e]);
            assert(all[m + explicit.len()] == implicit[m]);
            lemma_key_index(keys_of(defs), tags[m].spec_name());
        }
    }
}

/// The document of a well-formed schema is well formed and free of floats.
pub proof fn lemma_root_doc_ok(base: DefinitionView, defs: DefsView)
    requires
        base.wf(),
        defs_wf(defs),
    ensures
        document_ok(root_doc(base, defs)),
{
    lemma_keywords_distinct();
    lemma_all_defs_docs_ok(base, defs);
    let node = root_node(base);
    reveal_strlit("value");
    assert(node.wf()) by {
        match base.kind {
            DefinitionKind::Class(_, _) | DefinitionKind::Object(_) => {},
            _ => {
                let properties = seq![("value"@, TypeView::Definition(base))];
                assert(keys_of(properties).no_duplicates());
            },
        }
    }
    lemma_definition_fields_ok(node);
    let fields = definition_fields(node);
    let head = description_member(base.description) + seq![
        ("$schema"@, crate::schema::document::text(crate::schema::document::dialect())),
        ("$defs"@, JsonView::Object(all_defs_docs(base, defs))),
    ];
    let members = head + fields;
    assert(root_doc(base, defs) == JsonView::Object(members));
    assert forall|i: int| 0 <= i < members.len() implies (#[trigger] members[i]).1.wf()
        && members[i].1.float_free() by {
        if i >= head.len() {
            assert(members[i] == fields[i - head.len()]);
        }
    }
    assert forall|i: int, j: int|
        0 <= i < members.len() && 0 <= j < members.len() && i != j implies keys_of(members)[i]
        != keys_of(members)[j] by {
        if i >= head.len() {
            assert(members[i] == fields[i - head.len()]);
            assert(keys_of(fields)[i - head.len()] == members[i].0);
        }
        if j >= head.len() {
            assert(members[j] == fields[j - head.len()]);
            assert(keys_of(fields)[j - head.len()] == members[j].0);
        }
    }
}

} // verus!
