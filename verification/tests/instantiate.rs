use class_schema::{
    new_array_from_def, raw_variant_from_json, ClassSource, Definition, Definitions, ElementType,
    Error, ExpectedKind, JClass, JRef, JTuple, JsonNumber, JsonValue, NativeValue, Type,
    VariantDefinition, VariantType,
};

fn json(text: &str) -> JsonValue {
    JsonValue::parse(text).unwrap()
}

fn no_defs() -> Definitions {
    Vec::new()
}

fn float_of(number: &JsonNumber) -> f64 {
    match number {
        JsonNumber::PosInt(u) => *u as f64,
        JsonNumber::NegInt(i) => *i as f64,
        JsonNumber::Float(bits) => f64::from_bits(*bits),
    }
}

fn person() -> JClass {
    let mut class = JClass {
        description: None,
        properties: Vec::new(),
        source: ClassSource::Engine("Person".to_string()),
    };
    class.add_property("name", Type::Definition(Definition::string()));
    class.add_property("age", Type::Definition(Definition::integer()));
    class
}

#[test]
fn integer_takes_whole_number() {
    let got = Definition::integer().variant_from_json(&json("1"), &no_defs());
    assert_eq!(got, Ok(NativeValue::Int(1)));
}

#[test]
fn integer_refuses_fraction() {
    let got = Definition::integer().variant_from_json(&json("1.5"), &no_defs());
    assert_eq!(got, Err(Error::ExpectedIntegerGotFloat));
}

#[test]
fn integer_keeps_negative_and_large_values() {
    let defs = no_defs();
    let integer = Definition::integer();
    assert_eq!(integer.instantiate(&json("-7"), &defs), Ok(NativeValue::Int(-7)));
    assert_eq!(
        integer.instantiate(&json("9223372036854775807"), &defs),
        Ok(NativeValue::Int(i64::MAX))
    );
    assert_eq!(
        integer.instantiate(&json("18446744073709551615"), &defs),
        Ok(NativeValue::UInt(u64::MAX))
    );
}

#[test]
fn number_takes_integer_as_float() {
    let got = Definition::number().variant_from_json(&json("1"), &no_defs()).unwrap();
    match got {
        NativeValue::Float(number) => assert_eq!(float_of(&number), 1.0),
        other => panic!("expected a float, got {:?}", other),
    }
}

#[test]
fn number_takes_fraction() {
    let got = Definition::number().variant_from_json(&json("2.25"), &no_defs()).unwrap();
    match got {
        NativeValue::Float(number) => assert_eq!(float_of(&number), 2.25),
        other => panic!("expected a float, got {:?}", other),
    }
}

#[test]
fn primitives_stand_for_themselves() {
    let defs = no_defs();
    assert_eq!(Definition::null().instantiate(&json("null"), &defs), Ok(NativeValue::Nil));
    assert_eq!(Definition::boolean().instantiate(&json("true"), &defs), Ok(NativeValue::Bool(true)));
    assert_eq!(
        Definition::string().instantiate(&json("\"hi\""), &defs),
        Ok(NativeValue::String("hi".to_string()))
    );
}

#[test]
fn mismatch_names_the_expected_kind() {
    let defs = no_defs();
    let text = json("\"text\"");
    let number = json("3");
    assert_eq!(
        Definition::null().instantiate(&text, &defs),
        Err(Error::TypeMismatch(ExpectedKind::Null))
    );
    assert_eq!(
        Definition::boolean().instantiate(&text, &defs),
        Err(Error::TypeMismatch(ExpectedKind::Boolean))
    );
    assert_eq!(
        Definition::integer().instantiate(&text, &defs),
        Err(Error::TypeMismatch(ExpectedKind::Integer))
    );
    assert_eq!(
        Definition::number().instantiate(&text, &defs),
        Err(Error::TypeMismatch(ExpectedKind::Number))
    );
    assert_eq!(
        Definition::string().instantiate(&number, &defs),
        Err(Error::TypeMismatch(ExpectedKind::String))
    );
    assert_eq!(
        Definition::untyped_array().instantiate(&number, &defs),
        Err(Error::TypeMismatch(ExpectedKind::Array))
    );
    assert_eq!(
        Definition::dictionary().instantiate(&number, &defs),
        Err(Error::TypeMismatch(ExpectedKind::Object))
    );
    assert_eq!(
        Definition::Tuple(JTuple::new(Vec::new())).instantiate(&number, &defs),
        Err(Error::TypeMismatch(ExpectedKind::Tuple))
    );
    assert_eq!(
        Definition::string_enum(Vec::new()).instantiate(&number, &defs),
        Err(Error::TypeMismatch(ExpectedKind::Enum))
    );
    assert_eq!(
        Definition::Class(person()).instantiate(&number, &defs),
        Err(Error::TypeMismatch(ExpectedKind::Class))
    );
}

#[test]
fn enum_yields_the_integer_of_the_variant() {
    let gender = Definition::string_enum(vec![("MALE".to_string(), 0), ("FEMALE".to_string(), 1)]);
    assert_eq!(gender.instantiate(&json("\"FEMALE\""), &no_defs()), Ok(NativeValue::Int(1)));
}

#[test]
fn enum_refuses_unknown_variant_with_the_valid_names() {
    let gender = Definition::string_enum(vec![("MALE".to_string(), 0), ("FEMALE".to_string(), 1)]);
    assert_eq!(
        gender.instantiate(&json("\"OTHER\""), &no_defs()),
        Err(Error::UnknownVariant(
            "OTHER".to_string(),
            vec!["MALE".to_string(), "FEMALE".to_string()]
        ))
    );
}

#[test]
fn tuple_of_three_refuses_two_items() {
    let tuple = Definition::Tuple(JTuple::new(vec![
        Type::Definition(Definition::integer()),
        Type::Definition(Definition::integer()),
        Type::Definition(Definition::integer()),
    ]));
    assert_eq!(
        tuple.instantiate(&json("[1, 2]"), &no_defs()),
        Err(Error::TupleArityMismatch(3, 2))
    );
}

#[test]
fn tuple_converts_each_position_under_its_type() {
    let tuple = Definition::Tuple(JTuple::new(vec![
        Type::Definition(Definition::integer()),
        Type::Definition(Definition::string()),
    ]));
    assert_eq!(
        tuple.instantiate(&json("[4, \"x\"]"), &no_defs()),
        Ok(NativeValue::Array(
            ElementType::Untyped,
            vec![NativeValue::Int(4), NativeValue::String("x".to_string())]
        ))
    );
    assert_eq!(
        tuple.instantiate(&json("[4, 5]"), &no_defs()),
        Err(Error::TypeMismatch(ExpectedKind::String))
    );
}

#[test]
fn typed_array_converts_every_item() {
    let array = Definition::array(Type::Definition(Definition::integer()));
    assert_eq!(
        array.instantiate(&json("[1, 2, 3]"), &no_defs()),
        Ok(NativeValue::Array(
            ElementType::Typed(VariantType::Int, None),
            vec![NativeValue::Int(1), NativeValue::Int(2), NativeValue::Int(3)]
        ))
    );
    assert_eq!(
        array.instantiate(&json("[1, 2.5, \"x\"]"), &no_defs()),
        Err(Error::ExpectedIntegerGotFloat)
    );
}

#[test]
fn untyped_array_infers_the_kind_of_its_items() {
    let array = Definition::untyped_array();
    assert_eq!(
        array.instantiate(&json("[1, \"x\"]"), &no_defs()),
        Ok(NativeValue::Array(
            ElementType::Untyped,
            vec![NativeValue::Int(1), NativeValue::String("x".to_string())]
        ))
    );
    assert_eq!(
        array.instantiate(&json("[\"x\", \"y\"]"), &no_defs()),
        Ok(NativeValue::Array(
            ElementType::Typed(VariantType::String, None),
            vec![NativeValue::String("x".to_string()), NativeValue::String("y".to_string())]
        ))
    );
    assert_eq!(
        array.instantiate(&json("[]"), &no_defs()),
        Ok(NativeValue::Array(ElementType::Untyped, Vec::new()))
    );
}

#[test]
fn raw_conversion_types_a_homogeneous_array() {
    assert_eq!(
        raw_variant_from_json(&json("[true, false]")),
        Ok(NativeValue::Array(
            ElementType::Typed(VariantType::Bool, None),
            vec![NativeValue::Bool(true), NativeValue::Bool(false)]
        ))
    );
    assert_eq!(
        raw_variant_from_json(&json("[true, 1]")),
        Ok(NativeValue::Array(
            ElementType::Untyped,
            vec![NativeValue::Bool(true), NativeValue::Int(1)]
        ))
    );
    assert_eq!(
        raw_variant_from_json(&json("[]")),
        Ok(NativeValue::Array(ElementType::Untyped, Vec::new()))
    );
}

#[test]
fn raw_conversion_keeps_objects_as_dictionaries() {
    assert_eq!(
        raw_variant_from_json(&json("{\"a\": null, \"b\": {\"c\": \"d\"}}")),
        Ok(NativeValue::Dictionary(vec![
            ("a".to_string(), NativeValue::Nil),
            (
                "b".to_string(),
                NativeValue::Dictionary(vec![(
                    "c".to_string(),
                    NativeValue::String("d".to_string())
                )])
            ),
        ]))
    );
}

#[test]
fn dictionary_takes_any_object() {
    assert_eq!(
        Definition::dictionary().instantiate(&json("{\"k\": 1, \"l\": true}"), &no_defs()),
        Ok(NativeValue::Dictionary(vec![
            ("k".to_string(), NativeValue::Int(1)),
            ("l".to_string(), NativeValue::Bool(true)),
        ]))
    );
}

#[test]
fn object_with_properties_checks_the_member_count() {
    let object = Definition::object(vec![
        ("a".to_string(), Type::Definition(Definition::integer())),
        ("b".to_string(), Type::Definition(Definition::integer())),
    ]);
    assert_eq!(
        object.instantiate(&json("{\"a\": 1}"), &no_defs()),
        Err(Error::PropertyCountMismatch(2, 1))
    );
    assert_eq!(
        object.instantiate(&json("{\"a\": 1, \"b\": 2, \"c\": 3}"), &no_defs()),
        Err(Error::PropertyCountMismatch(2, 3))
    );
}

#[test]
fn object_with_properties_names_the_missing_one() {
    let object = Definition::object(vec![
        ("a".to_string(), Type::Definition(Definition::integer())),
        ("b".to_string(), Type::Definition(Definition::integer())),
    ]);
    assert_eq!(
        object.instantiate(&json("{\"a\": 1, \"c\": 3}"), &no_defs()),
        Err(Error::MissingProperty("b".to_string()))
    );
    assert_eq!(
        object.instantiate(&json("{\"b\": 2, \"a\": 1}"), &no_defs()),
        Ok(NativeValue::Dictionary(vec![
            ("a".to_string(), NativeValue::Int(1)),
            ("b".to_string(), NativeValue::Int(2)),
        ]))
    );
}

#[test]
fn class_instance_sets_the_members_in_order() {
    let class = person();
    assert_eq!(
        Definition::Class(class).instantiate(&json("{\"name\": \"John Doe\", \"age\": 43}"), &no_defs()),
        Ok(NativeValue::Object(
            ClassSource::Engine("Person".to_string()),
            vec![
                ("name".to_string(), NativeValue::String("John Doe".to_string())),
                ("age".to_string(), NativeValue::Int(43)),
            ]
        ))
    );
}

#[test]
fn class_refuses_missing_property() {
    let members = match json("{\"name\": \"John Doe\"}") {
        JsonValue::Object(members) => members,
        other => panic!("expected an object, got {:?}", other),
    };
    assert_eq!(
        person().instantiate(&no_defs(), &members),
        Err(Error::MissingProperty("age".to_string()))
    );
}

#[test]
fn class_refuses_undeclared_member() {
    let value = json("{\"name\": \"John Doe\", \"age\": 43, \"shoe\": 44}");
    assert_eq!(
        Definition::Class(person()).instantiate(&value, &no_defs()),
        Err(Error::UnknownProperty("shoe".to_string()))
    );
}

#[test]
fn reference_is_resolved_in_the_table() {
    let mut defs = no_defs();
    let reference = Definition::integer().into_reference("Count", &mut defs);
    let array = Definition::array(Type::Ref(reference));
    assert_eq!(
        array.instantiate(&json("[5]"), &defs),
        Ok(NativeValue::Array(
            ElementType::Typed(VariantType::Int, None),
            vec![NativeValue::Int(5)]
        ))
    );
}

#[test]
fn dangling_reference_is_an_error() {
    let array = Definition::array(Type::Ref(JRef::new("Nowhere")));
    assert_eq!(
        array.instantiate(&json("[]"), &no_defs()),
        Err(Error::DanglingReference("Nowhere".to_string()))
    );
    assert_eq!(
        Type::Ref(JRef::new("Nowhere")).resolve(&no_defs()),
        Err(Error::DanglingReference("Nowhere".to_string()))
    );
}

#[test]
fn composite_is_rebuilt_from_its_fields() {
    let vector = Definition::Variant(VariantDefinition::Vector2i);
    assert_eq!(
        vector.instantiate(&json("{\"x\": 3, \"y\": -4}"), &no_defs()),
        Ok(NativeValue::Composite(
            VariantDefinition::Vector2i,
            Box::new(NativeValue::Dictionary(vec![
                ("x".to_string(), NativeValue::Int(3)),
                ("y".to_string(), NativeValue::Int(-4)),
            ]))
        ))
    );
}

#[test]
fn composite_holds_integers_to_its_range() {
    let vector = Definition::Variant(VariantDefinition::Vector2i);
    assert_eq!(
        vector.instantiate(&json("{\"x\": 2147483648, \"y\": 0}"), &no_defs()),
        Err(Error::IntegerOutOfRange)
    );
    let bytes = Definition::Variant(VariantDefinition::PackedByteArray);
    assert_eq!(
        bytes.instantiate(&json("[0, 255]"), &no_defs()),
        Ok(NativeValue::Composite(
            VariantDefinition::PackedByteArray,
            Box::new(NativeValue::Array(
                ElementType::Typed(VariantType::Int, None),
                vec![NativeValue::Int(0), NativeValue::Int(255)]
            ))
        ))
    );
    assert_eq!(bytes.instantiate(&json("[256]"), &no_defs()), Err(Error::IntegerOutOfRange));
    assert_eq!(bytes.instantiate(&json("[-1]"), &no_defs()), Err(Error::IntegerOutOfRange));
    let rid = Definition::Variant(VariantDefinition::Rid);
    assert_eq!(rid.instantiate(&json("-1"), &no_defs()), Err(Error::IntegerOutOfRange));
}

#[test]
fn nested_composite_is_rebuilt() {
    let rect = Definition::Variant(VariantDefinition::Rect2i);
    let got = rect.instantiate(
        &json("{\"position\": {\"x\": 1, \"y\": 2}, \"size\": {\"x\": 3, \"y\": 4}}"),
        &no_defs(),
    );
    let point = |x: i64, y: i64| {
        NativeValue::Composite(
            VariantDefinition::Vector2i,
            Box::new(NativeValue::Dictionary(vec![
                ("x".to_string(), NativeValue::Int(x)),
                ("y".to_string(), NativeValue::Int(y)),
            ])),
        )
    };
    assert_eq!(
        got,
        Ok(NativeValue::Composite(
            VariantDefinition::Rect2i,
            Box::new(NativeValue::Dictionary(vec![
                ("position".to_string(), point(1, 2)),
                ("size".to_string(), point(3, 4)),
            ]))
        ))
    );
}

#[test]
fn array_element_type_follows_the_item_definition() {
    assert_eq!(
        new_array_from_def(&Definition::Class(person())),
        ElementType::Typed(VariantType::Object, Some(ClassSource::Engine("Person".to_string())))
    );
    assert_eq!(
        new_array_from_def(&Definition::string_enum(Vec::new())),
        ElementType::Typed(VariantType::Int, None)
    );
    assert_eq!(
        new_array_from_def(&Definition::Variant(VariantDefinition::Color)),
        ElementType::Typed(VariantType::Color, None)
    );
    assert_eq!(
        new_array_from_def(&Definition::dictionary()),
        ElementType::Typed(VariantType::Dictionary, None)
    );
}

#[test]
fn native_value_knows_its_kind() {
    assert_eq!(NativeValue::Nil.get_type(), VariantType::Nil);
    assert_eq!(NativeValue::UInt(u64::MAX).get_type(), VariantType::Int);
    assert_eq!(NativeValue::Float(JsonNumber::PosInt(1)).get_type(), VariantType::Float);
    assert_eq!(
        NativeValue::Composite(VariantDefinition::Basis, Box::new(NativeValue::Nil)).get_type(),
        VariantType::Basis
    );
}
