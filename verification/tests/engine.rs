use class_schema::{
    ClassInfo, ClassRegistry, ClassSource, Definition, Error, GodotSchema, JRef, JsonNumber,
    JsonValue, NativeValue, PropertyHint, PropertyTypeInfo, PropertyUsageFlags, RootSchema,
    SchemaLibrary, Type, VariantDefinition, VariantType,
};

fn descriptor(name: &str, kind: VariantType) -> PropertyTypeInfo {
    PropertyTypeInfo {
        variant_type: kind,
        class_name: String::new(),
        property_name: name.to_string(),
        hint: PropertyHint::NoHint,
        hint_string: String::new(),
        usage: PropertyUsageFlags::empty(),
    }
}

fn registry() -> ClassRegistry {
    let mut registry = ClassRegistry::new();
    registry.add_class(ClassInfo {
        source: ClassSource::Engine("Person".to_string()),
        properties: vec![descriptor("name", VariantType::String), descriptor("age", VariantType::Int)],
        enums: Vec::new(),
    });
    registry.add_class(ClassInfo {
        source: ClassSource::ScriptUnnamed("res://pet.gd".to_string()),
        properties: vec![descriptor("pet.gd", VariantType::Nil), descriptor("legs", VariantType::Int)],
        enums: Vec::new(),
    });
    registry
}

fn john() -> NativeValue {
    NativeValue::Object(
        ClassSource::Engine("Person".to_string()),
        vec![
            ("name".to_string(), NativeValue::String("John Doe".to_string())),
            ("age".to_string(), NativeValue::Int(43)),
        ],
    )
}

#[test]
fn checked_schema_keeps_the_pretty_document() {
    let schema = GodotSchema::from_class_name("Person", &registry()).unwrap();
    assert_eq!(schema.json, schema.inner.to_json_pretty().unwrap());
    assert!(schema.json.starts_with("{\n  \"$schema\": \"https://json-schema.org/draft/2020-12/schema\""));
    assert_eq!(JsonValue::parse(&schema.json).unwrap(), schema.inner.to_json_value());
}

#[test]
fn valid_input_is_instantiated() {
    let schema = GodotSchema::from_class_name("Person", &registry()).unwrap();
    assert_eq!(schema.instantiate("{\"name\":\"John Doe\",\"age\":43}"), Ok(john()));
}

#[test]
fn input_outside_the_schema_is_refused_by_the_engine() {
    let schema = GodotSchema::from_class_name("Person", &registry()).unwrap();
    for input in [
        "{\"name\":\"John Doe\"}",
        "{\"name\":\"John Doe\",\"age\":43,\"shoe\":44}",
        "{\"name\":\"John Doe\",\"age\":4.5}",
        "[]",
    ] {
        match schema.instantiate(input) {
            Err(Error::Validation(messages)) => assert!(!messages.is_empty()),
            other => panic!("expected a validation error for {}, got {:?}", input, other),
        }
    }
}

#[test]
fn broken_text_is_a_parse_error() {
    let schema = GodotSchema::from_class_name("Person", &registry()).unwrap();
    match schema.instantiate("{\"name\":") {
        Err(Error::Parse(message)) => assert!(!message.is_empty()),
        other => panic!("expected a parse error, got {:?}", other),
    }
    assert!(matches!(JsonValue::parse("nul"), Err(Error::Parse(_))));
}

#[test]
fn schema_with_a_dangling_reference_is_no_schema() {
    let dangling = RootSchema {
        defs: Vec::new(),
        base: Definition::object(vec![("p".to_string(), Type::Ref(JRef::new("Missing")))]),
    };
    assert!(matches!(GodotSchema::new(dangling), Err(Error::InvalidSchema(_))));
}

#[test]
fn scalar_schema_takes_a_wrapped_value() {
    let schema = GodotSchema::from_type_info(descriptor("count", VariantType::Int), &registry())
        .unwrap();
    assert_eq!(schema.instantiate("{\"value\": 5}"), Ok(NativeValue::Int(5)));
    assert!(matches!(schema.instantiate("5"), Err(Error::Validation(_))));
    let wrapped = JsonValue::parse("{\"value\": 5}").unwrap();
    assert_eq!(
        schema.inner.unwrap_value(&wrapped),
        &JsonValue::Number(JsonNumber::PosInt(5))
    );
    assert_eq!(schema.inner.instantiate_input(&wrapped), Ok(NativeValue::Int(5)));
}

#[test]
fn class_schema_takes_the_object_itself() {
    let schema = GodotSchema::from_class_name("Person", &registry()).unwrap();
    let value = JsonValue::parse("{\"value\": 5}").unwrap();
    assert_eq!(schema.inner.unwrap_value(&value), &value);
}

#[test]
fn composite_schema_is_instantiated_through_the_engine() {
    let schema = GodotSchema::from_type_info(descriptor("at", VariantType::Vector2i), &registry())
        .unwrap();
    assert_eq!(
        schema.instantiate("{\"x\": 1, \"y\": 2}"),
        Ok(NativeValue::Dictionary(vec![
            ("x".to_string(), NativeValue::Int(1)),
            ("y".to_string(), NativeValue::Int(2)),
        ]))
    );
}

#[test]
fn array_schema_refers_to_the_item() {
    let person = GodotSchema::from_class_name("Person", &registry()).unwrap();
    let people = person.get_array_schema("Person").unwrap();
    assert_eq!(people.inner.base, Definition::array(Type::Ref(JRef::new("Person"))));
    assert_eq!(people.inner.defs, vec![("Person".to_string(), person.inner.base.clone())]);
    assert_eq!(
        people.instantiate("{\"value\": [{\"name\":\"John Doe\",\"age\":43}]}"),
        Ok(NativeValue::Array(
            class_schema::ElementType::Typed(
                VariantType::Object,
                Some(ClassSource::Engine("Person".to_string()))
            ),
            vec![john()]
        ))
    );
}

#[test]
fn response_format_wraps_the_document() {
    let schema = GodotSchema::from_type_info(descriptor("flag", VariantType::Bool), &registry())
        .unwrap();
    assert_eq!(
        schema.open_ai_response_format("flag"),
        format!(
            "{{\"type\":\"json_schema\",\"json_schema\":{{\"name\":\"flag\",\"schema\":{}}}}}",
            schema.inner.to_json_compact().unwrap()
        )
    );
}

#[test]
fn script_schema_is_named_by_its_path() {
    let schema = GodotSchema::from_class_script("res://pet.gd", "", &registry()).unwrap();
    assert!(schema.describes(&ClassSource::ScriptUnnamed("res://pet.gd".to_string())));
    assert_eq!(
        schema.instantiate("{\"legs\": 4}"),
        Ok(NativeValue::Object(
            ClassSource::ScriptUnnamed("res://pet.gd".to_string()),
            vec![("legs".to_string(), NativeValue::Int(4))]
        ))
    );
}

#[test]
fn library_keeps_and_finds_schemas() {
    let registry = registry();
    let mut library = SchemaLibrary::new();
    assert_eq!(library.generate_named_class_schema("Person", &registry), Ok(0));
    assert_eq!(library.generate_unnamed_class_schema("res://pet.gd", "", &registry), Ok(1));
    assert_eq!(
        library.generate_type_info_schema(descriptor("v", VariantType::Vector2), &registry),
        Ok(2)
    );
    assert_eq!(
        library.generate_named_class_schema("Ghost", &registry),
        Err(Error::ClassNotFound("Ghost".to_string()))
    );
    assert_eq!(library.schemas.len(), 3);
    let person = library.get_named_class_schema("Person", &registry).unwrap();
    assert!(person.describes(&ClassSource::Engine("Person".to_string())));
    assert!(library.get_unnamed_class_schema("res://pet.gd", "").is_some());
    assert!(library.get_unnamed_class_schema("res://cat.gd", "").is_none());
    assert!(library.find_class(&ClassSource::Engine("Ghost".to_string())).is_none());
    assert_eq!(
        library.get_named_class_schema("Ghost", &registry).err(),
        Some(Error::ClassNotFound("Ghost".to_string()))
    );
    assert_eq!(library.schemas[2].inner.base, VariantDefinition::Vector2.source_definition());
}

#[test]
fn validated_input_hands_out_the_members() {
    let schema = GodotSchema::from_class_name("Person", &registry()).unwrap();
    assert_eq!(
        schema.validate_json_input("{\"name\":\"John Doe\",\"age\":43}"),
        Ok(vec![
            ("name".to_string(), JsonValue::String("John Doe".to_string())),
            ("age".to_string(), JsonValue::Number(JsonNumber::PosInt(43))),
        ])
    );
    assert!(matches!(
        schema.validate_json_input("{\"name\":\"John Doe\"}"),
        Err(Error::Validation(_))
    ));
    assert!(matches!(schema.validate_json_input("{"), Err(Error::Parse(_))));
}

#[test]
fn response_format_document_names_the_schema() {
    let schema = GodotSchema::from_type_info(descriptor("flag", VariantType::Bool), &registry())
        .unwrap();
    let document = schema.response_format_document("flag");
    assert_eq!(
        document,
        JsonValue::Object(vec![
            ("type".to_string(), JsonValue::String("json_schema".to_string())),
            (
                "json_schema".to_string(),
                JsonValue::Object(vec![
                    ("name".to_string(), JsonValue::String("flag".to_string())),
                    ("schema".to_string(), schema.inner.to_json_value()),
                ])
            ),
        ])
    );
}

#[test]
fn every_violation_has_its_message() {
    let schema = GodotSchema::from_class_name("Person", &registry()).unwrap();
    match schema.instantiate("{\"name\":5,\"age\":\"old\"}") {
        Err(Error::Validation(messages)) => assert_eq!(messages.len(), 2),
        other => panic!("expected two violations, got {:?}", other),
    }
}
