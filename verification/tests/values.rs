use class_schema::schema::types::clone_definition;
use class_schema::{
    definition_of, json_type_of, Builder, ClassId, Definition, Error, ErrorCategory,
    ExpectedKind, FromJson, JArray, JEnum, JObject, JRef, JString, JsonNumber, JsonValue, Type,
    PropertyUsageFlags, CLASS_IS_ENUM,
};

#[test]
fn json_text_is_read_into_values() {
    let value = JsonValue::parse("{\"a\": 1, \"b\": [1.5, -3, 18446744073709551615], \"c\": null}")
        .unwrap();
    assert_eq!(
        value,
        JsonValue::Object(vec![
            ("a".to_string(), JsonValue::Number(JsonNumber::PosInt(1))),
            (
                "b".to_string(),
                JsonValue::Array(vec![
                    JsonValue::Number(JsonNumber::Float(1.5f64.to_bits())),
                    JsonValue::Number(JsonNumber::NegInt(-3)),
                    JsonValue::Number(JsonNumber::PosInt(u64::MAX)),
                ])
            ),
            ("c".to_string(), JsonValue::Null),
        ])
    );
    assert_eq!(value.get(&"a".to_string()), Some(&JsonValue::Number(JsonNumber::PosInt(1))));
    assert_eq!(value.get(&"z".to_string()), None);
    assert_eq!(JsonValue::Null.get(&"a".to_string()), None);
}

#[test]
fn later_member_of_a_name_counts_when_reading() {
    assert_eq!(
        JsonValue::parse("{\"a\": 1, \"a\": 2}").unwrap(),
        JsonValue::Object(vec![("a".to_string(), JsonValue::Number(JsonNumber::PosInt(2)))])
    );
}

#[test]
fn numbers_read_as_integers_where_they_are() {
    assert_eq!(JsonNumber::PosInt(5).as_i64(), Some(5));
    assert_eq!(JsonNumber::PosInt(u64::MAX).as_i64(), None);
    assert_eq!(JsonNumber::PosInt(u64::MAX).as_u64(), Some(u64::MAX));
    assert_eq!(JsonNumber::NegInt(-5).as_i64(), Some(-5));
    assert_eq!(JsonNumber::NegInt(-5).as_u64(), None);
    assert_eq!(JsonNumber::Float(0).as_i64(), None);
    assert!(JsonNumber::Float(0).is_float());
    assert!(!JsonNumber::PosInt(0).is_float());
    assert_eq!(JsonNumber::from_parts(Some(1), Some(1), Some(7)), JsonNumber::PosInt(1));
    assert_eq!(JsonNumber::from_parts(None, Some(-1), Some(7)), JsonNumber::NegInt(-1));
    assert_eq!(JsonNumber::from_parts(None, None, Some(7)), JsonNumber::Float(7));
}

#[test]
fn later_property_of_a_name_counts() {
    let mut object = JObject::new();
    object.add_property("a", Type::Definition(Definition::integer()));
    object.add_property("b", Type::Definition(Definition::string()));
    object.add_property("a", Type::Definition(Definition::number()));
    assert_eq!(
        object.properties,
        vec![
            ("a".to_string(), Type::Definition(Definition::number())),
            ("b".to_string(), Type::Definition(Definition::string())),
        ]
    );
    let built = JObject::with_properties(vec![
        ("a".to_string(), Type::Definition(Definition::integer())),
        ("a".to_string(), Type::Definition(Definition::boolean())),
    ]);
    assert_eq!(built.properties, vec![("a".to_string(), Type::Definition(Definition::boolean()))]);
    let mut choice = JEnum::new(vec![("ON".to_string(), 1), ("ON".to_string(), 2)]);
    assert_eq!(choice.variants, vec![("ON".to_string(), 2)]);
    choice.add_variant("OFF", 0);
    assert_eq!(choice.variants, vec![("ON".to_string(), 2), ("OFF".to_string(), 0)]);
}

#[test]
fn constructors_build_plain_nodes() {
    assert_eq!(Type::untyped_array(), Type::Definition(Definition::Array(JArray::untyped())));
    assert_eq!(
        Type::array(Type::Ref(JRef::new("X"))),
        Type::Definition(Definition::Array(JArray::new(Type::Ref(JRef::new("X")))))
    );
    assert_eq!(Type::object(Vec::new()), Type::Definition(Definition::dictionary()));
    assert_eq!(Type::string_enum(Vec::new()), Type::Definition(Definition::string_enum(Vec::new())));
    assert_eq!(Builder::object().done(), JObject::new());
    assert_eq!(Builder::<JString>::new().done(), JString::new());
    let described = Builder::string_enum().description("switch").variant("ON", 1).done();
    assert_eq!(described.description, Some("switch".to_string()));
    let deep = Definition::array(Type::Definition(Definition::object(vec![(
        "k".to_string(),
        Type::Ref(JRef::new("K")),
    )])));
    assert_eq!(clone_definition(&deep), deep);
    assert_eq!(deep.clone(), deep);
}

#[test]
fn types_know_their_nodes() {
    assert_eq!(definition_of::<()>(), Definition::null());
    assert_eq!(definition_of::<bool>(), Definition::boolean());
    assert_eq!(definition_of::<u8>(), Definition::integer());
    assert_eq!(definition_of::<i64>(), Definition::integer());
    assert_eq!(definition_of::<String>(), Definition::string());
    assert_eq!(
        definition_of::<Vec<i32>>(),
        Definition::array(Type::Definition(Definition::integer()))
    );
    assert_eq!(json_type_of::<bool>(), Type::Definition(Definition::boolean()));
    assert_eq!(definition_of::<std::collections::HashMap<String, u8>>(), Definition::dictionary());
    assert_eq!(definition_of::<std::collections::BTreeMap<String, u8>>(), Definition::dictionary());
    assert_eq!(
        definition_of::<std::collections::BTreeSet<bool>>(),
        Definition::array(Type::Definition(Definition::boolean()))
    );
    assert_eq!(
        definition_of::<std::collections::HashSet<String>>(),
        Definition::array(Type::Definition(Definition::string()))
    );
    match definition_of::<[bool; 3]>() {
        Definition::Tuple(tuple) => {
            assert_eq!(tuple.items, vec![json_type_of::<bool>(), json_type_of::<bool>(), json_type_of::<bool>()])
        }
        other => panic!("expected a tuple, got {:?}", other),
    }
}

#[test]
fn values_are_read_out_of_json() {
    let int = |n: i64| {
        if n < 0 {
            JsonValue::Number(JsonNumber::NegInt(n))
        } else {
            JsonValue::Number(JsonNumber::PosInt(n as u64))
        }
    };
    assert_eq!(<()>::try_from_json(&JsonValue::Null), Ok(()));
    assert_eq!(bool::try_from_json(&JsonValue::Bool(true)), Ok(true));
    assert_eq!(String::try_from_json(&JsonValue::String("s".to_string())), Ok("s".to_string()));
    assert_eq!(i8::try_from_json(&int(-128)), Ok(-128));
    assert_eq!(i8::try_from_json(&int(128)), Err(Error::IntegerOutOfRange));
    assert_eq!(i16::try_from_json(&int(-32769)), Err(Error::IntegerOutOfRange));
    assert_eq!(i32::try_from_json(&int(2147483647)), Ok(i32::MAX));
    assert_eq!(i64::try_from_json(&JsonValue::Number(JsonNumber::PosInt(u64::MAX))), Err(Error::IntegerOutOfRange));
    assert_eq!(u8::try_from_json(&int(255)), Ok(255));
    assert_eq!(u8::try_from_json(&int(-1)), Err(Error::IntegerOutOfRange));
    assert_eq!(u16::try_from_json(&int(65536)), Err(Error::IntegerOutOfRange));
    assert_eq!(u32::try_from_json(&int(7)), Ok(7));
    assert_eq!(u64::try_from_json(&JsonValue::Number(JsonNumber::PosInt(u64::MAX))), Ok(u64::MAX));
    assert_eq!(
        u64::try_from_json(&JsonValue::Number(JsonNumber::Float(0))),
        Err(Error::ExpectedIntegerGotFloat)
    );
    assert_eq!(i32::try_from_json(&JsonValue::Null), Err(Error::TypeMismatch(ExpectedKind::Integer)));
    assert_eq!(
        Vec::<u8>::try_from_json(&JsonValue::Array(vec![int(1), int(2)])),
        Ok(vec![1, 2])
    );
    assert_eq!(
        Vec::<u8>::try_from_json(&JsonValue::Array(vec![int(1), int(256)])),
        Err(Error::IntegerOutOfRange)
    );
    assert_eq!(Vec::<u8>::try_from_json(&int(1)), Err(Error::TypeMismatch(ExpectedKind::Array)));
}

#[test]
fn errors_fall_into_families() {
    assert_eq!(Error::EnumPathMalformed("x".to_string()).category(), ErrorCategory::Resolution);
    assert_eq!(Error::UnsupportedHint("x".to_string()).category(), ErrorCategory::Resolution);
    assert_eq!(Error::DanglingReference("x".to_string()).category(), ErrorCategory::Graph);
    assert_eq!(Error::Validation(vec!["x".to_string()]).category(), ErrorCategory::Validation);
    assert_eq!(Error::InvalidSchema("x".to_string()).category(), ErrorCategory::Validation);
    assert_eq!(Error::IntegerOutOfRange.category(), ErrorCategory::Conversion);
    assert_eq!(Error::TupleArityMismatch(3, 2).category(), ErrorCategory::Conversion);
}

#[test]
fn usage_flags_mark_enums() {
    assert!(PropertyUsageFlags::from_bits(CLASS_IS_ENUM | 6).is_enum());
    assert!(!PropertyUsageFlags::from_bits(6).is_enum());
    assert!(!PropertyUsageFlags::empty().is_set(4));
    assert!(PropertyUsageFlags::from_bits(6).is_set(4));
}

#[test]
fn class_id_is_named_by_name_or_path() {
    assert_eq!(ClassId::Name("Person".to_string()).definition_name(), "Person");
    assert_eq!(ClassId::Script("res://a.gd".to_string()).definition_name(), "res://a.gd");
}

#[test]
fn copies_are_equal_to_what_they_copy() {
    let value = JsonValue::parse("{\"a\": [1, {\"b\": null}], \"c\": \"d\"}").unwrap();
    assert_eq!(value.clone(), value);
    let native = class_schema::raw_variant_from_json(&value).unwrap();
    assert_eq!(native.clone(), native);
    let mut object = JObject::new();
    object.add_property("k", Type::Ref(JRef::new("K")));
    assert_eq!(object.clone(), object);
}

#[test]
fn wide_and_pointer_sized_integers_are_read() {
    let big = JsonValue::Number(JsonNumber::PosInt(u64::MAX));
    let small = JsonValue::Number(JsonNumber::NegInt(i64::MIN));
    assert_eq!(i128::try_from_json(&big), Ok(u64::MAX as i128));
    assert_eq!(i128::try_from_json(&small), Ok(i64::MIN as i128));
    assert_eq!(u128::try_from_json(&big), Ok(u64::MAX as u128));
    assert_eq!(u128::try_from_json(&small), Err(Error::IntegerOutOfRange));
    assert_eq!(usize::try_from_json(&JsonValue::Number(JsonNumber::PosInt(9))), Ok(9));
    assert_eq!(isize::try_from_json(&JsonValue::Number(JsonNumber::NegInt(-9))), Ok(-9));
    assert_eq!(usize::try_from_json(&small), Err(Error::IntegerOutOfRange));
    assert_eq!(definition_of::<i128>(), Definition::integer());
    assert_eq!(definition_of::<usize>(), Definition::integer());
}

#[test]
fn fixed_arrays_are_read_as_tuples() {
    let three = JsonValue::parse("[1, 2, 3]").unwrap();
    assert_eq!(<[u8; 3]>::try_from_json(&three), Ok([1, 2, 3]));
    assert_eq!(<[u8; 2]>::try_from_json(&three), Err(Error::TupleArityMismatch(2, 3)));
    assert_eq!(
        <[bool; 3]>::try_from_json(&three),
        Err(Error::TypeMismatch(ExpectedKind::Boolean))
    );
    assert_eq!(
        <[u8; 3]>::try_from_json(&JsonValue::Null),
        Err(Error::TypeMismatch(ExpectedKind::Tuple))
    );
}

#[test]
fn tuples_are_read_position_by_position() {
    let pair = JsonValue::parse("[7, \"x\"]").unwrap();
    assert_eq!(<(u8, String)>::try_from_json(&pair), Ok((7, "x".to_string())));
    assert_eq!(
        <(u8, u8)>::try_from_json(&pair),
        Err(Error::TypeMismatch(ExpectedKind::Integer))
    );
    assert_eq!(<(u8,)>::try_from_json(&pair), Err(Error::TupleArityMismatch(1, 2)));
    assert_eq!(
        <(u8, String)>::try_from_json(&JsonValue::Bool(true)),
        Err(Error::TypeMismatch(ExpectedKind::Tuple))
    );
    let eight = JsonValue::parse("[1, 2, 3, 4, 5, 6, 7, true]").unwrap();
    assert_eq!(
        <(u8, u8, u8, u8, u8, u8, u8, bool)>::try_from_json(&eight),
        Ok((1, 2, 3, 4, 5, 6, 7, true))
    );
    match definition_of::<(bool, String)>() {
        Definition::Tuple(tuple) => {
            assert_eq!(tuple.items, vec![json_type_of::<bool>(), json_type_of::<String>()])
        }
        other => panic!("expected a tuple, got {:?}", other),
    }
}

#[test]
fn composite_type_takes_no_description() {
    let mut tag = class_schema::VariantDefinition::Color;
    tag.add_description("ignored");
    assert_eq!(tag, class_schema::VariantDefinition::Color);
}

#[test]
fn numbers_are_read_in_their_one_form() {
    assert_eq!(
        JsonValue::parse("[5, -5, 0, -0]").unwrap(),
        JsonValue::Array(vec![
            JsonValue::Number(JsonNumber::PosInt(5)),
            JsonValue::Number(JsonNumber::NegInt(-5)),
            JsonValue::Number(JsonNumber::PosInt(0)),
            JsonValue::Number(JsonNumber::Float((-0.0f64).to_bits())),
        ])
    );
}
