use class_schema::schema::closure::collect_variant_definitions;
use class_schema::{
    Builder, ClassSource, Definition, Definitions, JClass, JRef, JTuple, JsonValue, RootSchema,
    Type, VariantDefinition,
};

fn text(value: &str) -> JsonValue {
    JsonValue::String(value.to_string())
}

fn member(name: &str, value: JsonValue) -> (String, JsonValue) {
    (name.to_string(), value)
}

fn typed(kind: &str) -> JsonValue {
    JsonValue::Object(vec![member("type", text(kind))])
}

#[test]
fn primitives_are_written_by_their_type() {
    assert_eq!(Definition::null().to_json_compact().unwrap(), "{\"type\":\"null\"}");
    assert_eq!(Definition::boolean().to_json_compact().unwrap(), "{\"type\":\"boolean\"}");
    assert_eq!(Definition::integer().to_json_compact().unwrap(), "{\"type\":\"integer\"}");
    assert_eq!(Definition::number().to_json_compact().unwrap(), "{\"type\":\"number\"}");
    assert_eq!(Definition::string().to_json_compact().unwrap(), "{\"type\":\"string\"}");
}

#[test]
fn description_comes_first() {
    let mut integer = Definition::integer();
    integer.add_description("how many");
    assert_eq!(
        integer.to_json_compact().unwrap(),
        "{\"description\":\"how many\",\"type\":\"integer\"}"
    );
    assert_eq!(integer.description(), Some(&"how many".to_string()));
    let mut reference = Type::Ref(JRef::new("Person"));
    reference.add_description("who");
    assert_eq!(
        reference.to_json_compact().unwrap(),
        "{\"description\":\"who\",\"$ref\":\"#/$defs/Person\"}"
    );
}

#[test]
fn composite_keeps_no_description() {
    let mut vector = Definition::Variant(VariantDefinition::Vector2);
    vector.add_description("ignored");
    assert_eq!(vector, Definition::Variant(VariantDefinition::Vector2));
    assert_eq!(vector.description(), None);
    assert_eq!(VariantDefinition::Vector2.description(), None);
    assert_eq!(vector.to_json_compact().unwrap(), "{\"$ref\":\"#/$defs/Vector2\"}");
}

#[test]
fn object_lists_its_properties_as_required() {
    let object = Builder::object()
        .description("a point in time")
        .property("hour", Type::Definition(Definition::integer()))
        .property("zone", Type::Definition(Definition::string()))
        .done();
    assert_eq!(
        Definition::Object(object).to_json_value(),
        JsonValue::Object(vec![
            member("description", text("a point in time")),
            member("type", text("object")),
            member(
                "properties",
                JsonValue::Object(vec![member("hour", typed("integer")), member("zone", typed("string"))])
            ),
            member("required", JsonValue::Array(vec![text("hour"), text("zone")])),
            member("additionalProperties", JsonValue::Bool(false)),
        ])
    );
}

#[test]
fn dictionary_is_an_open_object() {
    assert_eq!(Definition::dictionary().to_json_compact().unwrap(), "{\"type\":\"object\"}");
}

#[test]
fn class_without_properties_is_still_closed() {
    let class = JClass {
        description: None,
        properties: Vec::new(),
        source: ClassSource::Engine("Empty".to_string()),
    };
    assert_eq!(
        Definition::Class(class).to_json_compact().unwrap(),
        "{\"type\":\"object\",\"properties\":{},\"required\":[],\"additionalProperties\":false}"
    );
}

#[test]
fn arrays_tuples_and_enums_are_written() {
    assert_eq!(Definition::untyped_array().to_json_compact().unwrap(), "{\"type\":\"array\"}");
    assert_eq!(
        Definition::array(Type::Definition(Definition::number())).to_json_compact().unwrap(),
        "{\"type\":\"array\",\"items\":{\"type\":\"number\"}}"
    );
    let tuple = Definition::Tuple(JTuple::new(vec![
        Type::Definition(Definition::integer()),
        Type::Ref(JRef::new("Person")),
    ]));
    assert_eq!(
        tuple.to_json_compact().unwrap(),
        "{\"type\":\"array\",\"prefixItems\":[{\"type\":\"integer\"},{\"$ref\":\"#/$defs/Person\"}]}"
    );
    let gender = Builder::string_enum().variant("MALE", 0).variant("FEMALE", 1).done();
    assert_eq!(
        Definition::Enum(gender).to_json_compact().unwrap(),
        "{\"type\":\"string\",\"enum\":[\"MALE\",\"FEMALE\"]}"
    );
}

#[test]
fn pretty_text_is_indented() {
    assert_eq!(
        Definition::array(Type::Definition(Definition::number())).to_json_pretty().unwrap(),
        "{\n  \"type\": \"array\",\n  \"items\": {\n    \"type\": \"number\"\n  }\n}"
    );
}

#[test]
fn scalar_base_is_wrapped_as_value() {
    let schema = RootSchema { defs: Vec::new(), base: Definition::integer() };
    assert_eq!(
        schema.to_json_compact().unwrap(),
        "{\"$schema\":\"https://json-schema.org/draft/2020-12/schema\",\"$defs\":{},\
\"type\":\"object\",\"properties\":{\"value\":{\"type\":\"integer\"}},\
\"required\":[\"value\"],\"additionalProperties\":false}"
    );
}

#[test]
fn base_description_heads_the_document() {
    let mut base = Definition::dictionary();
    base.add_description("anything goes");
    let schema = RootSchema { defs: Vec::new(), base };
    assert_eq!(
        schema.to_json_compact().unwrap(),
        "{\"description\":\"anything goes\",\
\"$schema\":\"https://json-schema.org/draft/2020-12/schema\",\"$defs\":{},\"type\":\"object\"}"
    );
}

#[test]
fn reached_composites_get_definitions() {
    let base = Definition::object(vec![(
        "pose".to_string(),
        Type::Definition(Definition::Variant(VariantDefinition::Transform3D)),
    )]);
    let defs: Definitions = Vec::new();
    assert_eq!(
        collect_variant_definitions(&base, &defs),
        vec![VariantDefinition::Transform3D, VariantDefinition::Vector3, VariantDefinition::Basis]
    );
    let schema = RootSchema { defs, base };
    let document = schema.to_json_value();
    let names: Vec<String> = match document.get(&"$defs".to_string()) {
        Some(JsonValue::Object(members)) => members.iter().map(|m| m.0.clone()).collect(),
        other => panic!("expected definitions, got {:?}", other),
    };
    assert_eq!(names, vec!["Transform3D", "Vector3", "Basis"]);
}

#[test]
fn explicit_definition_beats_the_built_in_one() {
    let base = Definition::object(vec![(
        "at".to_string(),
        Type::Definition(Definition::Variant(VariantDefinition::Vector2)),
    )]);
    let mut schema = RootSchema { defs: Vec::new(), base };
    schema.add_definition("Vector2", Definition::string());
    let document = schema.to_json_value();
    match document.get(&"$defs".to_string()) {
        Some(JsonValue::Object(members)) => {
            assert_eq!(members.len(), 1);
            assert_eq!(members[0], member("Vector2", typed("string")));
        }
        other => panic!("expected definitions, got {:?}", other),
    }
}

#[test]
fn composites_in_the_table_are_reached_too() {
    let mut defs: Definitions = Vec::new();
    let reference =
        Definition::array(Type::Definition(Definition::Variant(VariantDefinition::Rect2i)))
            .into_reference("Rooms", &mut defs);
    let base = Definition::object(vec![
        ("rooms".to_string(), Type::Ref(reference)),
        ("door".to_string(), Type::Definition(Definition::Variant(VariantDefinition::Vector2i))),
    ]);
    assert_eq!(
        collect_variant_definitions(&base, &defs),
        vec![VariantDefinition::Vector2i, VariantDefinition::Rect2i]
    );
}
