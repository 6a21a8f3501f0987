use class_schema::{
    eval_no_type_hint, raw_definition_from_name, raw_variant_definition, ClassInfo, ClassRegistry,
    ClassSource, Definition, Definitions, Error, JClass, JEnum, JRef, JsonValue, NativeValue,
    PropertyHint, PropertyTypeInfo, PropertyUsageFlags, RootSchema, Type, VariantDefinition,
    VariantType, CLASS_IS_ENUM,
};

fn plain(name: &str, kind: VariantType) -> PropertyTypeInfo {
    PropertyTypeInfo {
        variant_type: kind,
        class_name: String::new(),
        property_name: name.to_string(),
        hint: PropertyHint::NoHint,
        hint_string: String::new(),
        usage: PropertyUsageFlags::empty(),
    }
}

fn object_of(name: &str, class: &str) -> PropertyTypeInfo {
    PropertyTypeInfo {
        variant_type: VariantType::Object,
        class_name: class.to_string(),
        property_name: name.to_string(),
        hint: PropertyHint::NoHint,
        hint_string: String::new(),
        usage: PropertyUsageFlags::empty(),
    }
}

fn array_of(name: &str, item: &str) -> PropertyTypeInfo {
    PropertyTypeInfo {
        variant_type: VariantType::Array,
        class_name: String::new(),
        property_name: name.to_string(),
        hint: PropertyHint::ArrayType,
        hint_string: item.to_string(),
        usage: PropertyUsageFlags::empty(),
    }
}

fn enum_of(name: &str, path: &str) -> PropertyTypeInfo {
    PropertyTypeInfo {
        variant_type: VariantType::Int,
        class_name: path.to_string(),
        property_name: name.to_string(),
        hint: PropertyHint::NoHint,
        hint_string: String::new(),
        usage: PropertyUsageFlags::from_bits(CLASS_IS_ENUM),
    }
}

fn engine(name: &str, properties: Vec<PropertyTypeInfo>) -> ClassInfo {
    ClassInfo { source: ClassSource::Engine(name.to_string()), properties, enums: Vec::new() }
}

fn person_registry() -> ClassRegistry {
    let mut registry = ClassRegistry::new();
    registry.add_class(ClassInfo {
        source: ClassSource::Engine("Person".to_string()),
        properties: vec![plain("name", VariantType::String), plain("age", VariantType::Int)],
        enums: vec![(
            "Gender".to_string(),
            vec![("MALE".to_string(), 0), ("FEMALE".to_string(), 1)],
        )],
    });
    registry
}

fn string_type() -> Type {
    Type::Definition(Definition::string())
}

fn integer_type() -> Type {
    Type::Definition(Definition::integer())
}

#[test]
fn person_schema_has_no_definitions() {
    let schema =
        RootSchema::generate(ClassSource::Engine("Person".to_string()), &person_registry()).unwrap();
    assert!(schema.defs.is_empty());
    assert_eq!(
        schema.base,
        Definition::Class(JClass {
            description: None,
            properties: vec![("name".to_string(), string_type()), ("age".to_string(), integer_type())],
            source: ClassSource::Engine("Person".to_string()),
        })
    );
}

#[test]
fn person_schema_document() {
    let schema =
        RootSchema::from_class(ClassSource::Engine("Person".to_string()), &person_registry())
            .unwrap();
    assert_eq!(
        schema.to_json_compact().unwrap(),
        "{\"$schema\":\"https://json-schema.org/draft/2020-12/schema\",\"$defs\":{},\
\"type\":\"object\",\"properties\":{\"name\":{\"type\":\"string\"},\"age\":{\"type\":\"integer\"}},\
\"required\":[\"name\",\"age\"],\"additionalProperties\":false}"
    );
}

#[test]
fn person_is_instantiated() {
    let schema =
        RootSchema::generate(ClassSource::Engine("Person".to_string()), &person_registry()).unwrap();
    let value = JsonValue::parse("{\"name\":\"John Doe\",\"age\":43}").unwrap();
    assert_eq!(
        schema.instantiate(&value),
        Ok(NativeValue::Object(
            ClassSource::Engine("Person".to_string()),
            vec![
                ("name".to_string(), NativeValue::String("John Doe".to_string())),
                ("age".to_string(), NativeValue::Int(43)),
            ]
        ))
    );
}

#[test]
fn person_without_age_is_refused() {
    let schema =
        RootSchema::generate(ClassSource::Engine("Person".to_string()), &person_registry()).unwrap();
    let value = JsonValue::parse("{\"name\":\"John Doe\"}").unwrap();
    assert_eq!(schema.instantiate(&value), Err(Error::MissingProperty("age".to_string())));
}

#[test]
fn unknown_class_is_not_found() {
    assert_eq!(
        RootSchema::generate(ClassSource::Engine("Ghost".to_string()), &person_registry()),
        Err(Error::ClassNotFound("Ghost".to_string()))
    );
    assert_eq!(
        ClassSource::from_class_name("Ghost", &person_registry()),
        Err(Error::ClassNotFound("Ghost".to_string()))
    );
}

#[test]
fn enum_path_is_resolved_and_registered() {
    let registry = person_registry();
    let mut defs: Definitions = Vec::new();
    let ty = enum_of("gender", "Person.Gender").eval_type(&registry, &mut defs).unwrap();
    assert_eq!(ty, Type::Ref(JRef::new("Person.Gender")));
    assert_eq!(defs.len(), 1);
    assert_eq!(defs[0].0, "Person.Gender");
    let gender = JsonValue::parse("\"FEMALE\"").unwrap();
    let resolved = ty.resolve(&defs).unwrap();
    assert_eq!(resolved.instantiate(&gender, &defs), Ok(NativeValue::Int(1)));
    let other = JsonValue::parse("\"OTHER\"").unwrap();
    assert_eq!(
        resolved.instantiate(&other, &defs),
        Err(Error::UnknownVariant(
            "OTHER".to_string(),
            vec!["MALE".to_string(), "FEMALE".to_string()]
        ))
    );
}

#[test]
fn enum_path_needs_exactly_one_dot() {
    let registry = person_registry();
    assert_eq!(
        JEnum::from_enum_path("Gender", &registry),
        Err(Error::EnumPathMalformed("Gender".to_string()))
    );
    assert_eq!(
        JEnum::from_enum_path("A.B.C", &registry),
        Err(Error::EnumPathMalformed("A.B.C".to_string()))
    );
    assert_eq!(
        JEnum::from_enum_path("Ghost.Gender", &registry),
        Err(Error::ClassNotFound("Ghost".to_string()))
    );
    assert_eq!(
        JEnum::from_enum_path("Person.Mood", &registry),
        Err(Error::EnumNotFound("Person".to_string(), "Mood".to_string()))
    );
    let found = JEnum::from_enum_path("Person.Gender", &registry).unwrap();
    assert_eq!(found.1, "Person.Gender");
    assert_eq!(found.0.variants, vec![("MALE".to_string(), 0), ("FEMALE".to_string(), 1)]);
}

#[test]
fn engine_enum_needs_two_variants() {
    let mut registry = ClassRegistry::new();
    registry.add_class(ClassInfo {
        source: ClassSource::Engine("Lamp".to_string()),
        properties: Vec::new(),
        enums: vec![("State".to_string(), vec![("ON".to_string(), 1)])],
    });
    registry.add_class(ClassInfo {
        source: ClassSource::ScriptNamed("res://torch.gd".to_string(), "Torch".to_string()),
        properties: Vec::new(),
        enums: vec![("State".to_string(), vec![("ON".to_string(), 1)])],
    });
    assert_eq!(
        JEnum::from_enum_path("Lamp.State", &registry),
        Err(Error::EnumNotFound("Lamp".to_string(), "State".to_string()))
    );
    let torch = JEnum::from_enum_path("Torch.State", &registry).unwrap();
    assert_eq!(torch.0.variants, vec![("ON".to_string(), 1)]);
}

#[test]
fn kinds_without_hint_map_to_their_nodes() {
    assert_eq!(raw_variant_definition(VariantType::Bool), Some(Definition::boolean()));
    assert_eq!(raw_variant_definition(VariantType::Int), Some(Definition::integer()));
    assert_eq!(raw_variant_definition(VariantType::Float), Some(Definition::number()));
    assert_eq!(raw_variant_definition(VariantType::String), Some(Definition::string()));
    assert_eq!(raw_variant_definition(VariantType::Dictionary), Some(Definition::dictionary()));
    assert_eq!(
        raw_variant_definition(VariantType::Vector3),
        Some(Definition::Variant(VariantDefinition::Vector3))
    );
    assert_eq!(raw_variant_definition(VariantType::Callable), None);
    assert_eq!(raw_variant_definition(VariantType::Nil), None);
}

#[test]
fn unsupported_kind_is_an_error() {
    let mut defs: Definitions = Vec::new();
    assert_eq!(
        plain("signal", VariantType::Signal).eval_type(&person_registry(), &mut defs),
        Err(Error::UnsupportedKind(VariantType::Signal))
    );
}

#[test]
fn primitive_spellings_are_known() {
    assert_eq!(raw_definition_from_name("int"), Some(Definition::integer()));
    assert_eq!(raw_definition_from_name("float"), Some(Definition::number()));
    assert_eq!(raw_definition_from_name("bool"), Some(Definition::boolean()));
    assert_eq!(raw_definition_from_name("String"), Some(Definition::string()));
    assert_eq!(raw_definition_from_name("Dictionary"), Some(Definition::dictionary()));
    assert_eq!(raw_definition_from_name("string"), None);
}

#[test]
fn array_hint_resolves_the_item_type() {
    let registry = person_registry();
    let mut defs: Definitions = Vec::new();
    assert_eq!(
        array_of("numbers", "int").eval_type(&registry, &mut defs),
        Ok(Type::array(integer_type()))
    );
    assert_eq!(
        array_of("points", "Vector2").eval_type(&registry, &mut defs),
        Ok(Type::array(Type::Definition(Definition::Variant(VariantDefinition::Vector2))))
    );
    assert_eq!(
        array_of("anything", "").eval_type(&registry, &mut defs),
        Ok(Type::array(Type::Definition(Definition::null())))
    );
    assert!(defs.is_empty());
    assert_eq!(
        array_of("people", "Person").eval_type(&registry, &mut defs),
        Ok(Type::array(Type::Ref(JRef::new("Person"))))
    );
    assert_eq!(defs.len(), 1);
    assert_eq!(defs[0].0, "Person");
    assert_eq!(
        array_of("genders", "Person.Gender").eval_type(&registry, &mut defs),
        Ok(Type::array(Type::Ref(JRef::new("Person.Gender"))))
    );
    assert_eq!(
        plain("loose", VariantType::Array).eval_type(&registry, &mut defs),
        Ok(Type::untyped_array())
    );
}

#[test]
fn unknown_hint_is_unsupported() {
    let mut defs: Definitions = Vec::new();
    assert_eq!(
        array_of("things", "Thing").eval_type(&person_registry(), &mut defs),
        Err(Error::UnsupportedHint("Thing".to_string()))
    );
    assert_eq!(
        eval_no_type_hint("", "No.Such.Path", PropertyUsageFlags::empty(), &person_registry(), &mut defs),
        Err(Error::UnsupportedHint("No.Such.Path".to_string()))
    );
}

#[test]
fn nested_class_is_registered_and_referred_to() {
    let mut registry = person_registry();
    registry.add_class(engine("Team", vec![object_of("lead", "Person"), array_of("members", "Person")]));
    let schema = RootSchema::generate(ClassSource::Engine("Team".to_string()), &registry).unwrap();
    assert_eq!(schema.defs.len(), 1);
    assert_eq!(schema.defs[0].0, "Person");
    match &schema.base {
        Definition::Class(class) => {
            assert_eq!(
                class.properties,
                vec![
                    ("lead".to_string(), Type::Ref(JRef::new("Person"))),
                    ("members".to_string(), Type::array(Type::Ref(JRef::new("Person")))),
                ]
            );
        }
        other => panic!("expected a class, got {:?}", other),
    }
}

#[test]
fn cycle_of_classes_is_cut_by_references() {
    let mut registry = ClassRegistry::new();
    registry.add_class(engine("Node", vec![object_of("parent", "Node"), object_of("tag", "Tag")]));
    registry.add_class(engine("Tag", vec![object_of("owner", "Node")]));
    let schema = RootSchema::generate(ClassSource::Engine("Node".to_string()), &registry).unwrap();
    let names: Vec<&str> = schema.defs.iter().map(|entry| entry.0.as_str()).collect();
    assert_eq!(names, vec!["Tag", "Node"]);
    for (_, definition) in schema.defs.iter() {
        for name in ["Node", "Tag"] {
            if definition.mentions(&name.to_string()) {
                assert!(names.contains(&name));
            }
        }
    }
    assert!(schema.base.mentions(&"Node".to_string()));
}

#[test]
fn script_file_name_property_is_left_out() {
    let mut registry = ClassRegistry::new();
    registry.add_class(ClassInfo {
        source: ClassSource::ScriptUnnamed("res://hero.gd".to_string()),
        properties: vec![plain("hero.gd", VariantType::Nil), plain("level", VariantType::Int)],
        enums: Vec::new(),
    });
    let source = ClassSource::ScriptUnnamed("res://hero.gd".to_string());
    let mut defs: Definitions = Vec::new();
    assert_eq!(
        source.fetch_property_list(&registry, &mut defs),
        Ok(vec![("level".to_string(), integer_type())])
    );
}

#[test]
fn engine_class_wins_over_script_of_the_same_name() {
    let mut registry = ClassRegistry::new();
    registry.add_class(ClassInfo {
        source: ClassSource::ScriptNamed("res://node.gd".to_string(), "Node".to_string()),
        properties: Vec::new(),
        enums: Vec::new(),
    });
    registry.add_class(engine("Node", Vec::new()));
    assert_eq!(
        ClassSource::from_class_name("Node", &registry),
        Ok(ClassSource::Engine("Node".to_string()))
    );
    assert_eq!(registry.find_class(&"Node".to_string()), Some(1));
}

#[test]
fn script_source_is_named_by_its_global_name() {
    assert_eq!(
        ClassSource::from_script("res://a.gd".to_string(), String::new()),
        ClassSource::ScriptUnnamed("res://a.gd".to_string())
    );
    assert_eq!(
        ClassSource::from_script("res://a.gd".to_string(), "A".to_string()),
        ClassSource::ScriptNamed("res://a.gd".to_string(), "A".to_string())
    );
    assert_eq!(ClassSource::ScriptUnnamed("res://a.gd".to_string()).definition_name(), "res://a.gd");
    assert_eq!(
        ClassSource::ScriptNamed("res://a.gd".to_string(), "A".to_string()).definition_name(),
        "A"
    );
    assert_eq!(ClassSource::Engine("B".to_string()).to_reference(), JRef::new("B"));
}

#[test]
fn type_info_schema_takes_the_referred_node_as_base() {
    let registry = person_registry();
    let schema = RootSchema::from_type_info(enum_of("gender", "Person.Gender"), &registry).unwrap();
    assert!(schema.defs.is_empty());
    assert_eq!(
        schema.base,
        Definition::string_enum(vec![("MALE".to_string(), 0), ("FEMALE".to_string(), 1)])
    );
    let vector = RootSchema::from_type_info(plain("v", VariantType::Vector2), &registry).unwrap();
    assert_eq!(vector.base, VariantDefinition::Vector2.source_definition());
}

#[test]
fn root_schema_takes_added_definitions() {
    let mut schema = RootSchema { defs: Vec::new(), base: Definition::dictionary() };
    schema.add_definition("Count", Definition::integer());
    schema.add_definition("Count", Definition::number());
    assert_eq!(schema.defs, vec![("Count".to_string(), Definition::number())]);
    let class = JClass {
        description: None,
        properties: Vec::new(),
        source: ClassSource::Engine("Person".to_string()),
    };
    schema.add_class(class);
    assert_eq!(schema.defs.len(), 2);
    assert_eq!(schema.defs[1].0, "Person");
}

#[test]
fn enum_is_found_by_the_identity_of_its_class() {
    let registry = person_registry();
    let person = ClassSource::Engine("Person".to_string());
    let found = JEnum::from_class_source(&person, "Gender", &registry).unwrap();
    assert_eq!(found.variants, vec![("MALE".to_string(), 0), ("FEMALE".to_string(), 1)]);
    assert_eq!(
        JEnum::from_class_source(&person, "Mood", &registry),
        Err(Error::EnumNotFound("Person".to_string(), "Mood".to_string()))
    );
    assert_eq!(
        JEnum::from_class_source(&ClassSource::Engine("Ghost".to_string()), "Gender", &registry),
        Err(Error::ClassNotFound("Ghost".to_string()))
    );
    assert_eq!(JEnum::from_engine_class(&registry.classes[0], "Gender"), Ok(found));
    let script = ClassInfo {
        source: ClassSource::ScriptUnnamed("res://lamp.gd".to_string()),
        properties: Vec::new(),
        enums: vec![("State".to_string(), vec![("ON".to_string(), 1), ("ON".to_string(), 2)])],
    };
    assert_eq!(
        JEnum::from_gdscript_class(&script, "State").unwrap().variants,
        vec![("ON".to_string(), 2)]
    );
    assert_eq!(
        JEnum::from_gdscript_class(&script, "Mode"),
        Err(Error::EnumNotFound("res://lamp.gd".to_string(), "Mode".to_string()))
    );
}

#[test]
fn descriptor_lists_the_names_it_may_lead_to() {
    assert_eq!(enum_of("gender", "Person.Gender").lookup_names(), vec!["Person.Gender", "Person"]);
    assert_eq!(array_of("people", "Person").lookup_names(), vec!["Person"]);
    assert!(plain("age", VariantType::Int).lookup_names().is_empty());
}

#[test]
fn generated_schema_is_closed_and_checked() {
    let mut registry = person_registry();
    registry.add_class(engine(
        "Team",
        vec![object_of("lead", "Person"), array_of("members", "Team"), enum_of("mood", "Person.Gender")],
    ));
    let schema = RootSchema::generate(ClassSource::Engine("Team".to_string()), &registry).unwrap();
    let names: Vec<String> = schema.defs.iter().map(|entry| entry.0.clone()).collect();
    assert_eq!(names, vec!["Person", "Person.Gender", "Team"]);
    let checked = class_schema::GodotSchema::new(schema).unwrap();
    let made = checked
        .instantiate(
            "{\"lead\":{\"name\":\"A\",\"age\":1},\
\"members\":[{\"lead\":{\"name\":\"B\",\"age\":2},\"members\":[],\"mood\":\"MALE\"}],\
\"mood\":\"FEMALE\"}",
        )
        .unwrap();
    match made {
        NativeValue::Object(source, properties) => {
            assert_eq!(source, ClassSource::Engine("Team".to_string()));
            assert_eq!(properties.len(), 3);
            assert_eq!(properties[2], ("mood".to_string(), NativeValue::Int(1)));
        }
        other => panic!("expected an object, got {:?}", other),
    }
}

#[test]
fn unknown_class_name_is_an_error_and_leaves_the_table() {
    let registry = person_registry();
    let mut defs: Definitions = vec![("Kept".to_string(), Definition::integer())];
    assert_eq!(
        eval_no_type_hint("NoSuchClass", "", PropertyUsageFlags::empty(), &registry, &mut defs),
        Err(Error::ClassNotFound("NoSuchClass".to_string()))
    );
    assert_eq!(defs, vec![("Kept".to_string(), Definition::integer())]);
    assert_eq!(
        object_of("owner", "NoSuchClass").eval_type(&registry, &mut defs),
        Err(Error::ClassNotFound("NoSuchClass".to_string()))
    );
    assert_eq!(
        eval_no_type_hint("NoSuchClass", "int", PropertyUsageFlags::empty(), &registry, &mut defs),
        Err(Error::ClassNotFound("NoSuchClass".to_string()))
    );
    assert_eq!(defs, vec![("Kept".to_string(), Definition::integer())]);
    assert_eq!(
        eval_no_type_hint("", "", PropertyUsageFlags::empty(), &registry, &mut defs),
        Ok(Type::Definition(Definition::null()))
    );
}

#[test]
fn enums_of_one_name_in_two_classes_are_both_kept() {
    let mut registry = ClassRegistry::new();
    registry.add_class(ClassInfo {
        source: ClassSource::Engine("A".to_string()),
        properties: Vec::new(),
        enums: vec![("Kind".to_string(), vec![("X".to_string(), 0), ("Y".to_string(), 1)])],
    });
    registry.add_class(ClassInfo {
        source: ClassSource::Engine("B".to_string()),
        properties: Vec::new(),
        enums: vec![("Kind".to_string(), vec![("P".to_string(), 5), ("Q".to_string(), 6)])],
    });
    let mut defs: Definitions = Vec::new();
    let first = enum_of("a", "A.Kind").eval_type(&registry, &mut defs).unwrap();
    let second = enum_of("b", "B.Kind").eval_type(&registry, &mut defs).unwrap();
    assert_eq!(first, Type::Ref(JRef::new("A.Kind")));
    assert_eq!(second, Type::Ref(JRef::new("B.Kind")));
    assert_eq!(
        defs,
        vec![
            (
                "A.Kind".to_string(),
                Definition::string_enum(vec![("X".to_string(), 0), ("Y".to_string(), 1)])
            ),
            (
                "B.Kind".to_string(),
                Definition::string_enum(vec![("P".to_string(), 5), ("Q".to_string(), 6)])
            ),
        ]
    );
}

#[test]
fn failed_property_leaves_the_table_as_the_earlier_ones_left_it() {
    let mut registry = person_registry();
    registry.add_class(engine(
        "Team",
        vec![object_of("lead", "Person"), plain("bell", VariantType::Signal)],
    ));
    let mut defs: Definitions = Vec::new();
    assert_eq!(
        JClass::generate(ClassSource::Engine("Team".to_string()), &registry, &mut defs),
        Err(Error::UnsupportedKind(VariantType::Signal))
    );
    assert_eq!(defs.len(), 1);
    assert_eq!(defs[0].0, "Person");
    let mut untouched: Definitions = Vec::new();
    assert_eq!(
        JClass::generate(ClassSource::Engine("Ghost".to_string()), &registry, &mut untouched),
        Err(Error::ClassNotFound("Ghost".to_string()))
    );
    assert!(untouched.is_empty());
}
