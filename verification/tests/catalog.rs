use class_schema::{Definition, JsonValue, Type, VariantDefinition, VariantType};

fn all_tags() -> Vec<VariantDefinition> {
    vec![
        VariantDefinition::Vector2,
        VariantDefinition::Vector2i,
        VariantDefinition::Rect2,
        VariantDefinition::Rect2i,
        VariantDefinition::Vector3,
        VariantDefinition::Vector3i,
        VariantDefinition::Transform2D,
        VariantDefinition::Vector4,
        VariantDefinition::Vector4i,
        VariantDefinition::Plane,
        VariantDefinition::Quaternion,
        VariantDefinition::Aabb,
        VariantDefinition::Basis,
        VariantDefinition::Transform3D,
        VariantDefinition::Projection,
        VariantDefinition::Color,
        VariantDefinition::Rid,
        VariantDefinition::PackedByteArray,
        VariantDefinition::PackedInt32Array,
        VariantDefinition::PackedInt64Array,
        VariantDefinition::PackedFloat32Array,
        VariantDefinition::PackedFloat64Array,
        VariantDefinition::PackedStringArray,
        VariantDefinition::PackedVector2Array,
        VariantDefinition::PackedVector3Array,
        VariantDefinition::PackedColorArray,
        VariantDefinition::PackedVector4Array,
    ]
}

#[test]
fn name_and_kind_lead_back_to_the_type() {
    for tag in all_tags() {
        assert_eq!(VariantDefinition::try_from_name(tag.name()), Some(tag));
        assert_eq!(VariantDefinition::try_from(tag.variant_type()), Ok(tag));
    }
    assert_eq!(VariantDefinition::try_from_name("Vector5"), None);
    assert_eq!(VariantDefinition::try_from(VariantType::Object), Err(()));
    assert_eq!(VariantDefinition::try_from(VariantType::Int), Err(()));
}

#[test]
fn dependencies_are_what_the_structure_is_made_of() {
    for tag in all_tags() {
        let mut reached = Vec::new();
        tag.source_definition().insert_variant_definitions(&mut reached);
        let mut expected = Vec::new();
        for dependency in tag.dependencies() {
            dependency.insert_variant_definitions(&mut expected);
        }
        reached.sort();
        reached.dedup();
        expected.sort();
        expected.dedup();
        assert_eq!(reached, expected, "for {:?}", tag);
    }
}

#[test]
fn closure_of_a_transform_holds_vector_and_basis() {
    let mut reached = Vec::new();
    VariantDefinition::Transform3D.insert_variant_definitions(&mut reached);
    assert_eq!(
        reached,
        vec![
            VariantDefinition::Transform3D,
            VariantDefinition::Vector3,
            VariantDefinition::Basis,
            VariantDefinition::Vector3,
        ]
    );
    let mut plain = vec![VariantDefinition::Color];
    VariantDefinition::Quaternion.insert_variant_definitions(&mut plain);
    assert_eq!(plain, vec![VariantDefinition::Color, VariantDefinition::Quaternion]);
}

#[test]
fn references_are_not_walked() {
    let mut reached = Vec::new();
    Type::Ref(class_schema::JRef::new("Vector2")).insert_variant_definitions(&mut reached);
    Definition::integer().insert_variant_definitions(&mut reached);
    assert!(reached.is_empty());
}

#[test]
fn structure_of_a_plane() {
    assert_eq!(
        VariantDefinition::Plane.source_definition(),
        Definition::object(vec![
            ("normal".to_string(), Type::Definition(Definition::Variant(VariantDefinition::Vector3))),
            ("d".to_string(), Type::Definition(Definition::number())),
        ])
    );
    assert_eq!(
        VariantDefinition::Basis.source_definition().to_json_compact().unwrap(),
        "{\"type\":\"object\",\"properties\":{\"rows\":{\"type\":\"array\",\"prefixItems\":[\
{\"$ref\":\"#/$defs/Vector3\"},{\"$ref\":\"#/$defs/Vector3\"},{\"$ref\":\"#/$defs/Vector3\"}]}},\
\"required\":[\"rows\"],\"additionalProperties\":false}"
    );
    assert_eq!(
        VariantDefinition::PackedStringArray.source_definition(),
        Definition::array(Type::Definition(Definition::string()))
    );
}

#[test]
fn resource_id_is_used_as_an_integer() {
    assert_eq!(VariantDefinition::Rid.get_definition(), Definition::integer());
    assert_eq!(VariantDefinition::Rid.source_definition(), Definition::integer());
    assert_eq!(
        VariantDefinition::Color.get_definition(),
        Definition::Variant(VariantDefinition::Color)
    );
}

#[test]
fn integer_ranges_of_the_catalog() {
    assert_eq!(VariantDefinition::Vector3i.int_bounds(), (i32::MIN as i64, i32::MAX as u64));
    assert_eq!(VariantDefinition::PackedByteArray.int_bounds(), (0, 255));
    assert_eq!(VariantDefinition::PackedInt64Array.int_bounds(), (i64::MIN, i64::MAX as u64));
    assert_eq!(VariantDefinition::Rid.int_bounds(), (0, u64::MAX));
    assert_eq!(VariantDefinition::Color.int_bounds(), (i64::MIN, u64::MAX));
}

#[test]
fn every_structure_is_a_valid_document() {
    for tag in all_tags() {
        let text = tag.source_definition().to_json_compact().unwrap();
        let read = JsonValue::parse(&text).unwrap();
        assert_eq!(read, tag.source_definition().to_json_value());
    }
}
