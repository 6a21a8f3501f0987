//! The structure of each built-in composite type, as a schema node.

use crate::schema::model::{DefinitionKind, DefinitionView, TypeView};
use crate::schema::types::{
    clone_definition, property_views, type_view, type_views, Definition, JObject, JTuple, Type,
};
use crate::schema::variant::VariantDefinition;
use crate::schema::wellformed::lemma_name_injective;
use crate::text::same_text;
use vstd::prelude::*;
use vstd::string::StringExecFns;

verus! {

/// The type of a node of the given kind, written in place without a description.
pub open spec fn in_place(kind: DefinitionKind) -> TypeView {
    TypeView::Definition(DefinitionView::plain(kind))
}

/// The properties with the given names, all of one kind.
pub open spec fn uniform(names: Seq<Seq<char>>, kind: DefinitionKind) -> Seq<(Seq<char>, TypeView)> {
    Seq::new(names.len(), |i: int| (names[i], in_place(kind)))
}

/// An object with the given properties.
pub open spec fn record(properties: Seq<(Seq<char>, TypeView)>) -> DefinitionView {
    DefinitionView::plain(DefinitionKind::Object(properties))
}

/// An array of items of the given kind.
pub open spec fn list_of(kind: DefinitionKind) -> DefinitionView {
    DefinitionView::plain(DefinitionKind::Array(Some(Box::new(in_place(kind)))))
}

/// A tuple of `count` items of the given kind.
pub open spec fn repeated(count: nat, kind: DefinitionKind) -> DefinitionView {
    DefinitionView::plain(DefinitionKind::Tuple(Seq::new(count, |i: int| in_place(kind))))
}

/// The range of the integers that a type of the catalog holds.
pub open spec fn spec_int_bounds(tag: VariantDefinition) -> (int, int) {
    match tag {
        VariantDefinition::Vector2i
        | VariantDefinition::Vector3i
        | VariantDefinition::Vector4i
        | VariantDefinition::Rect2i
        | VariantDefinition::PackedInt32Array => (i32::MIN as int, i32::MAX as int),
        VariantDefinition::PackedByteArray => (0, u8::MAX as int),
        VariantDefinition::PackedInt64Array => (i64::MIN as int, i64::MAX as int),
        VariantDefinition::Rid => (0, u64::MAX as int),
        _ => (i64::MIN as int, u64::MAX as int),
    }
}

/// The structure of a type of the catalog: an object with the fields of the
/// type, an array for a packed array, an integer for a resource id.
pub open spec fn spec_source_definition(tag: VariantDefinition) -> DefinitionView {
    match tag {
        VariantDefinition::Vector2 => record(uniform(seq!["x"@, "y"@], DefinitionKind::Number)),
        VariantDefinition::Vector2i => record(uniform(seq!["x"@, "y"@], DefinitionKind::Integer)),
        VariantDefinition::Vector3 => record(
            uniform(seq!["x"@, "y"@, "z"@], DefinitionKind::Number),
        ),
        VariantDefinition::Vector3i => record(
            uniform(seq!["x"@, "y"@, "z"@], DefinitionKind::Integer),
        ),
        VariantDefinition::Vector4 => record(
            uniform(seq!["x"@, "y"@, "z"@, "w"@], DefinitionKind::Number),
        ),
        VariantDefinition::Vector4i => record(
            uniform(seq!["x"@, "y"@, "z"@, "w"@], DefinitionKind::Integer),
        ),
        VariantDefinition::Rect2 => record(
            uniform(
                seq!["position"@, "size"@],
                DefinitionKind::Variant(VariantDefinition::Vector2),
            ),
        ),
        VariantDefinition::Rect2i => record(
            uniform(
                seq!["position"@, "size"@],
                DefinitionKind::Variant(VariantDefinition::Vector2i),
            ),
        ),
        VariantDefinition::Transform2D => record(
            uniform(
                seq!["a"@, "b"@, "origin"@],
                DefinitionKind::Variant(VariantDefinition::Vector2),
            ),
        ),
        VariantDefinition::Transform3D => record(
            seq![
                ("basis"@, in_place(DefinitionKind::Variant(VariantDefinition::Basis))),
                ("origin"@, in_place(DefinitionKind::Variant(VariantDefinition::Vector3))),
            ],
        ),
        VariantDefinition::Plane => record(
            seq![
                ("normal"@, in_place(DefinitionKind::Variant(VariantDefinition::Vector3))),
                ("d"@, in_place(DefinitionKind::Number)),
            ],
        ),
        VariantDefinition::Quaternion => record(
            uniform(seq!["x"@, "y"@, "z"@, "w"@], DefinitionKind::Number),
        ),
        VariantDefinition::Aabb => record(
            uniform(
                seq!["position"@, "size"@],
                DefinitionKind::Variant(VariantDefinition::Vector3),
            ),
        ),
        VariantDefinition::Basis => record(
            seq![
                (
                    "rows"@,
                    TypeView::Definition(
                        repeated(3, DefinitionKind::Variant(VariantDefinition::Vector3)),
                    ),
                ),
            ],
        ),
        VariantDefinition::Projection => record(
            seq![
                (
                    "cols"@,
                    TypeView::Definition(
                        repeated(4, DefinitionKind::Variant(VariantDefinition::Vector4)),
                    ),
                ),
            ],
        ),
        VariantDefinition::Color => record(
            uniform(seq!["r"@, "g"@, "b"@, "a"@], DefinitionKind::Number),
        ),
        VariantDefinition::Rid => DefinitionView::plain(DefinitionKind::Integer),
        VariantDefinition::PackedByteArray
        | VariantDefinition::PackedInt32Array
        | VariantDefinition::PackedInt64Array => list_of(DefinitionKind::Integer),
        VariantDefinition::PackedFloat32Array | VariantDefinition::PackedFloat64Array => list_of(
            DefinitionKind::Number,
        ),
        VariantDefinition::PackedStringArray => list_of(DefinitionKind::String),
        VariantDefinition::PackedVector2Array => list_of(
            DefinitionKind::Variant(VariantDefinition::Vector2),
        ),
        VariantDefinition::PackedVector3Array => list_of(
            DefinitionKind::Variant(VariantDefinition::Vector3),
        ),
        VariantDefinition::PackedColorArray => list_of(
            DefinitionKind::Variant(VariantDefinition::Color),
        ),
        VariantDefinition::PackedVector4Array => list_of(
            DefinitionKind::Variant(VariantDefinition::Vector4),
        ),
    }
}

/// The node that stands for a type of the catalog where the type is used:
/// the type itself, but for a resource id, which is used as an integer.
pub open spec fn spec_get_definition(tag: VariantDefinition) -> DefinitionView {
    match tag {
        VariantDefinition::Rid => DefinitionView::plain(DefinitionKind::Integer),
        _ => DefinitionView::plain(DefinitionKind::Variant(tag)),
    }
}

/// The type of the catalog with the canonical name `name`.
pub open spec fn spec_try_from_name(name: Seq<char>) -> Option<VariantDefinition> {
    if exists|tag: VariantDefinition| tag.spec_name() == name {
        Some(choose|tag: VariantDefinition| tag.spec_name() == name)
    } else {
        None
    }
}

/// The name of a type of the catalog leads back to the type.
pub proof fn lemma_try_from_name(tag: VariantDefinition)
    ensures
        spec_try_from_name(tag.spec_name()) == Some(tag),
{
    let found = choose|other: VariantDefinition| other.spec_name() == tag.spec_name();
    lemma_name_injective(found, tag);
}

/// The views of a list of names.
pub open spec fn name_views(names: Seq<&'static str>) -> Seq<Seq<char>> {
    Seq::new(names.len(), |i: int| names[i]@)
}

fn uniform_record(names: Vec<&'static str>, definition: &Definition) -> (r: Definition)
    requires
        definition@.description is None,
    ensures
        r@ == record(uniform(name_views(names@), definition@.kind)),
{
    let mut properties: Vec<(String, Type)> = Vec::new();
    let mut i: usize = 0;
    while i < names.len()
        invariant
            i <= names.len(),
            definition@.description is None,
            properties@.len() == i,
            forall|k: int|
                0 <= k < i ==> (#[trigger] properties@[k]).0@ == names@[k]@ && type_view(
                    properties@[k].1,
                ) == in_place(definition@.kind),
        decreases names.len() - i,
    {
        properties.push((String::from_str(names[i]), Type::Definition(clone_definition(definition))));
        i += 1;
    }
    assert(property_views(properties@) =~= uniform(name_views(names@), definition@.kind));
    Definition::Object(JObject { description: None, properties })
}

fn repeated_tuple(count: usize, definition: &Definition) -> (r: Definition)
    requires
        definition@.description is None,
    ensures
        r@ == repeated(count as nat, definition@.kind),
{
    let mut items: Vec<Type> = Vec::new();
    let mut i: usize = 0;
    while i < count
        invariant
            i <= count,
            definition@.description is None,
            items@.len() == i,
            forall|k: int| 0 <= k < i ==> type_view(#[trigger] items@[k]) == in_place(definition@.kind),
        decreases count - i,
    {
        items.push(Type::Definition(clone_definition(definition)));
        i += 1;
    }
    assert(type_views(items@) =~= Seq::new(count as nat, |i: int| in_place(definition@.kind)));
    Definition::Tuple(JTuple { description: None, items })
}

fn pair_record(
    first: &'static str,
    first_ty: Definition,
    second: &'static str,
    second_ty: Definition,
) -> (r: Definition)
    ensures
        r@ == record(
            seq![
                (first@, TypeView::Definition(first_ty@)),
                (second@, TypeView::Definition(second_ty@)),
            ],
        ),
{
    let mut properties: Vec<(String, Type)> = Vec::new();
    properties.push((String::from_str(first), Type::Definition(first_ty)));
    properties.push((String::from_str(second), Type::Definition(second_ty)));
    assert(property_views(properties@) =~= seq![
        (first@, TypeView::Definition(first_ty@)),
        (second@, TypeView::Definition(second_ty@)),
    ]);
    Definition::Object(JObject { description: None, properties })
}

fn single_record(name: &'static str, ty: Definition) -> (r: Definition)
    ensures
        r@ == record(seq![(name@, TypeView::Definition(ty@))]),
{
    let mut properties: Vec<(String, Type)> = Vec::new();
    properties.push((String::from_str(name), Type::Definition(ty)));
    assert(property_views(properties@) =~= seq![(name@, TypeView::Definition(ty@))]);
    Definition::Object(JObject { description: None, properties })
}

fn names2(a: &'static str, b: &'static str) -> (r: Vec<&'static str>)
    ensures
        name_views(r@) == seq![a@, b@],
{
    let mut names: Vec<&'static str> = Vec::new();
    names.push(a);
    names.push(b);
    assert(name_views(names@) =~= seq![a@, b@]);
    names
}

fn names3(a: &'static str, b: &'static str, c: &'static str) -> (r: Vec<&'static str>)
    ensures
        name_views(r@) == seq![a@, b@, c@],
{
    let mut names: Vec<&'static str> = Vec::new();
    names.push(a);
    names.push(b);
    names.push(c);
    assert(name_views(names@) =~= seq![a@, b@, c@]);
    names
}

fn names4(a: &'static str, b: &'static str, c: &'static str, d: &'static str) -> (r: Vec<
    &'static str,
>)
    ensures
        name_views(r@) == seq![a@, b@, c@, d@],
{
    let mut names: Vec<&'static str> = Vec::new();
    names.push(a);
    names.push(b);
    names.push(c);
    names.push(d);
    assert(name_views(names@) =~= seq![a@, b@, c@, d@]);
    names
}

impl VariantDefinition {
    /// The node that stands for the type where the type is used.
    pub fn get_definition(&self) -> (r: Definition)
        ensures
            r@ == spec_get_definition(*self),
            r@.wf(),
    {
        match self {
            VariantDefinition::Rid => Definition::integer(),
            _ => Definition::Variant(*self),
        }
    }

    /// The structure of the type: the node that the definitions of an
    /// emitted schema hold under the name of the type.
    pub fn source_definition(&self) -> (r: Definition)
        ensures
            r@ == spec_source_definition(*self),
            r@.wf(),
    {
        proof {
            crate::schema::wellformed::lemma_source_definition_wf(*self);
        }
        match self {
            VariantDefinition::Vector2 => uniform_record(names2("x", "y"), &Definition::number()),
            VariantDefinition::Vector2i => uniform_record(names2("x", "y"), &Definition::integer()),
            VariantDefinition::Vector3 => uniform_record(
                names3("x", "y", "z"),
                &Definition::number(),
            ),
            VariantDefinition::Vector3i => uniform_record(
                names3("x", "y", "z"),
                &Definition::integer(),
            ),
            VariantDefinition::Vector4 => uniform_record(
                names4("x", "y", "z", "w"),
                &Definition::number(),
            ),
            VariantDefinition::Vector4i => uniform_record(
                names4("x", "y", "z", "w"),
                &Definition::integer(),
            ),
            VariantDefinition::Rect2 => uniform_record(
                names2("position", "size"),
                &Definition::Variant(VariantDefinition::Vector2),
            ),
            VariantDefinition::Rect2i => uniform_record(
                names2("position", "size"),
                &Definition::Variant(VariantDefinition::Vector2i),
            ),
            VariantDefinition::Transform2D => uniform_record(
                names3("a", "b", "origin"),
                &Definition::Variant(VariantDefinition::Vector2),
            ),
            VariantDefinition::Transform3D => pair_record(
                "basis",
                Definition::Variant(VariantDefinition::Basis),
                "origin",
                Definition::Variant(VariantDefinition::Vector3),
            ),
            VariantDefinition::Plane => pair_record(
                "normal",
                Definition::Variant(VariantDefinition::Vector3),
                "d",
                Definition::number(),
            ),
            VariantDefinition::Quaternion => uniform_record(
                names4("x", "y", "z", "w"),
                &Definition::number(),
            ),
            VariantDefinition::Aabb => uniform_record(
                names2("position", "size"),
                &Definition::Variant(VariantDefinition::Vector3),
            ),
            VariantDefinition::Basis => single_record(
                "rows",
                repeated_tuple(3, &Definition::Variant(VariantDefinition::Vector3)),
            ),
            VariantDefinition::Projection => single_record(
                "cols",
                repeated_tuple(4, &Definition::Variant(VariantDefinition::Vector4)),
            ),
            VariantDefinition::Color => uniform_record(
                names4("r", "g", "b", "a"),
                &Definition::number(),
            ),
            VariantDefinition::Rid => Definition::integer(),
            VariantDefinition::PackedByteArray
            | VariantDefinition::PackedInt32Array
            | VariantDefinition::PackedInt64Array => Definition::array(
                Type::Definition(Definition::integer()),
            ),
            VariantDefinition::PackedFloat32Array
            | VariantDefinition::PackedFloat64Array => Definition::array(
                Type::Definition(Definition::number()),
            ),
            VariantDefinition::PackedStringArray => Definition::array(
                Type::Definition(Definition::string()),
            ),
            VariantDefinition::PackedVector2Array => Definition::array(
                Type::Definition(Definition::Variant(VariantDefinition::Vector2)),
            ),
            VariantDefinition::PackedVector3Array => Definition::array(
                Type::Definition(Definition::Variant(VariantDefinition::Vector3)),
            ),
            VariantDefinition::PackedColorArray => Definition::array(
                Type::Definition(Definition::Variant(VariantDefinition::Color)),
            ),
            VariantDefinition::PackedVector4Array => Definition::array(
                Type::Definition(Definition::Variant(VariantDefinition::Vector4)),
            ),
        }
    }

    /// The type with the canonical name `name`, if there is one.
    pub fn try_from_name(name: &str) -> (r: Option<VariantDefinition>)
        ensures
            r == spec_try_from_name(name@),
    {
        if same_text(name, "Vector2") {
            proof {
                lemma_try_from_name(VariantDefinition::Vector2);
            }
            return Some(VariantDefinition::Vector2);
        }
        if same_text(name, "Vector2i") {
            proof {
                lemma_try_from_name(VariantDefinition::Vector2i);
            }
            return Some(VariantDefinition::Vector2i);
        }
        if same_text(name, "Rect2") {
            proof {
                lemma_try_from_name(VariantDefinition::Rect2);
            }
            return Some(VariantDefinition::Rect2);
        }
        if same_text(name, "Rect2i") {
            proof {
                lemma_try_from_name(VariantDefinition::Rect2i);
            }
            return Some(VariantDefinition::Rect2i);
        }
        if same_text(name, "Vector3") {
            proof {
                lemma_try_from_name(VariantDefinition::Vector3);
            }
            return Some(VariantDefinition::Vector3);
        }
        if same_text(name, "Vector3i") {
            proof {
                lemma_try_from_name(VariantDefinition::Vector3i);
            }
            return Some(VariantDefinition::Vector3i);
        }
        if same_text(name, "Transform2D") {
            proof {
                lemma_try_from_name(VariantDefinition::Transform2D);
            }
            return Some(VariantDefinition::Transform2D);
        }
        if same_text(name, "Vector4") {
            proof {
                lemma_try_from_name(VariantDefinition::Vector4);
            }
            return Some(VariantDefinition::Vector4);
        }
        if same_text(name, "Vector4i") {
            proof {
                lemma_try_from_name(VariantDefinition::Vector4i);
            }
            return Some(VariantDefinition::Vector4i);
        }
        if same_text(name, "Plane") {
            proof {
                lemma_try_from_name(VariantDefinition::Plane);
            }
            return Some(VariantDefinition::Plane);
        }
        if same_text(name, "Quaternion") {
            proof {
                lemma_try_from_name(VariantDefinition::Quaternion);
            }
            return Some(VariantDefinition::Quaternion);
        }
        if same_text(name, "Aabb") {
            proof {
                lemma_try_from_name(VariantDefinition::Aabb);
            }
            return Some(VariantDefinition::Aabb);
        }
        if same_text(name, "Basis") {
            proof {
                lemma_try_from_name(VariantDefinition::Basis);
            }
            return Some(VariantDefinition::Basis);
        }
        if same_text(name, "Transform3D") {
            proof {
                lemma_try_from_name(VariantDefinition::Transform3D);
            }
            return Some(VariantDefinition::Transform3D);
        }
        if same_text(name, "Projection") {
            proof {
                lemma_try_from_name(VariantDefinition::Projection);
            }
            return Some(VariantDefinition::Projection);
        }
        if same_text(name, "Color") {
            proof {
                lemma_try_from_name(VariantDefinition::Color);
            }
            return Some(VariantDefinition::Color);
        }
        if same_text(name, "Rid") {
            proof {
                lemma_try_from_name(VariantDefinition::Rid);
            }
            return Some(VariantDefinition::Rid);
        }
        if same_text(name, "PackedByteArray") {
            proof {
                lemma_try_from_name(VariantDefinition::PackedByteArray);
            }
            return Some(VariantDefinition::PackedByteArray);
        }
        if same_text(name, "PackedInt32Array") {
            proof {
                lemma_try_from_name(VariantDefinition::PackedInt32Array);
            }
            return Some(VariantDefinition::PackedInt32Array);
        }
        if same_text(name, "PackedInt64Array") {
            proof {
                lemma_try_from_name(VariantDefinition::PackedInt64Array);
            }
            return Some(VariantDefinition::PackedInt64Array);
        }
        if same_text(name, "PackedFloat32Array") {
            proof {
                lemma_try_from_name(VariantDefinition::PackedFloat32Array);
            }
            return Some(VariantDefinition::PackedFloat32Array);
        }
        if same_text(name, "PackedFloat64Array") {
            proof {
                lemma_try_from_name(VariantDefinition::PackedFloat64Array);
            }
            return Some(VariantDefinition::PackedFloat64Array);
        }
        if same_text(name, "PackedStringArray") {
            proof {
                lemma_try_from_name(VariantDefinition::PackedStringArray);
            }
            return Some(VariantDefinition::PackedStringArray);
        }
        if same_text(name, "PackedVector2Array") {
            proof {
                lemma_try_from_name(VariantDefinition::PackedVector2Array);
            }
            return Some(VariantDefinition::PackedVector2Array);
        }
        if same_text(name, "PackedVector3Array") {
            proof {
                lemma_try_from_name(VariantDefinition::PackedVector3Array);
            }
            return Some(VariantDefinition::PackedVector3Array);
        }
        if same_text(name, "PackedColorArray") {
            proof {
                lemma_try_from_name(VariantDefinition::PackedColorArray);
            }
            return Some(VariantDefinition::PackedColorArray);
        }
        if same_text(name, "PackedVector4Array") {
            proof {
                lemma_try_from_name(VariantDefinition::PackedVector4Array);
            }
            return Some(VariantDefinition::PackedVector4Array);
        }
        assert forall|tag: VariantDefinition| #[trigger] tag.spec_name() != name@ by {
            match tag {
                _ => {},
            }
        }
        None
    }

    /// The least and the greatest integer that the type holds.
    pub fn int_bounds(&self) -> (r: (i64, u64))
        ensures
            (r.0 as int, r.1 as int) == spec_int_bounds(*self),
    {
        match self {
            VariantDefinition::Vector2i
            | VariantDefinition::Vector3i
            | VariantDefinition::Vector4i
            | VariantDefinition::Rect2i
            | VariantDefinition::PackedInt32Array => (-0x8000_0000i64, 0x7fff_ffffu64),
            VariantDefinition::PackedByteArray => (0i64, 0xffu64),
            VariantDefinition::PackedInt64Array => (
                -0x8000_0000_0000_0000i64,
                0x7fff_ffff_ffff_ffffu64,
            ),
            VariantDefinition::Rid => (0i64, 0xffff_ffff_ffff_ffffu64),
            _ => (-0x8000_0000_0000_0000i64, 0xffff_ffff_ffff_ffffu64),
        }
    }
}

} // verus!
