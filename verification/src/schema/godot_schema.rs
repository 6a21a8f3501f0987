//! A schema together with its emitted document, checked by the validation
//! engine: what the host keeps for a class.

use crate::error::{Error, ErrorView};
use crate::json::{JsonValue, JsonView};
use crate::json_text::{
    compact_text, compile_schema, parse_value, parsed, pretty_text,
    schema_accepts, schema_compiles, validation_errors, value_model, value_to_json,
};
use crate::names::{keys_of, lookup, upsert};
use crate::native::NativeValue;
use crate::schema::conversion::instantiate;
use crate::schema::definition::Definitions;
use crate::schema::document::text;
use crate::schema::instantiate::yields;
use crate::schema::model::{DefinitionKind, DefinitionView, TypeView};
use crate::schema::document::root_doc;
use crate::schema::model::DefsView;
use crate::schema::root_schema::{written_compact, RootSchema};
use crate::schema::types::{clone_definition, defs_view, Definition, JArray, Type};
use crate::schema::wellformed::{document_ok, lemma_root_doc_ok};
use serde_json::Value;
use vstd::prelude::*;
use vstd::string::StringExecFns;

verus! {

/// A schema, the text of its document, and the document as the validation
/// engine reads it.
#[derive(Debug, PartialEq)]
pub struct GodotSchema {
    pub inner: RootSchema,
    pub json: String,
    pub document: Value,
}

/// The value that is instantiated under `base` when `json` comes in: a
/// schema whose base is no object and no class is emitted as an object with
/// the one property `value`, and what comes in for it is unwrapped.
pub open spec fn root_value(base: DefinitionView, json: JsonView) -> JsonView {
    match json {
        JsonView::Object(members) => if members.len() == 1 && lookup(members, "value"@) is Some
            && !(base.kind is Class) && !(base.kind is Object) {
            lookup(members, "value"@).unwrap()
        } else {
            json
        },
        _ => json,
    }
}

/// The document that hands a schema to a model as the format of its
/// answers.
pub open spec fn response_format(name: Seq<char>, schema: JsonView) -> JsonView {
    JsonView::Object(
        seq![
            ("type"@, text("json_schema"@)),
            (
                "json_schema"@,
                JsonView::Object(seq![("name"@, text(name)), ("schema"@, schema)]),
            ),
        ],
    )
}

/// The document of a response format is well formed where the schema is.
pub proof fn lemma_response_format_ok(name: Seq<char>, schema: JsonView)
    requires
        document_ok(schema),
    ensures
        document_ok(response_format(name, schema)),
{
    reveal_strlit("type");
    reveal_strlit("json_schema");
    reveal_strlit("name");
    reveal_strlit("schema");
    assert("type"@.len() == 4 && "json_schema"@.len() == 11);
    assert("name"@.len() == 4 && "schema"@.len() == 6);
    let inner = seq![("name"@, text(name)), ("schema"@, schema)];
    assert(keys_of(inner).no_duplicates());
    assert(forall|i: int| 0 <= i < inner.len() ==> (#[trigger] inner[i]).1.wf());
    assert(forall|i: int| 0 <= i < inner.len() ==> (#[trigger] inner[i]).1.float_free());
    assert(document_ok(JsonView::Object(inner)));
    let outer = seq![("type"@, text("json_schema"@)), ("json_schema"@, JsonView::Object(inner))];
    assert(keys_of(outer).no_duplicates());
    assert(forall|i: int| 0 <= i < outer.len() ==> (#[trigger] outer[i]).1.wf());
    assert(forall|i: int| 0 <= i < outer.len() ==> (#[trigger] outer[i]).1.float_free());
}

/// A copy of a definitions table.
pub fn clone_definitions(defs: &Definitions) -> (r: Definitions)
    ensures
        defs_view(r@) == defs_view(defs@),
{
    let mut copy: Definitions = Vec::new();
    let mut i: usize = 0;
    while i < defs.len()
        invariant
            i <= defs.len(),
            copy@.len() == i,
            forall|k: int|
                0 <= k < i ==> (#[trigger] copy@[k]).0@ == defs@[k].0@ && copy@[k].1@
                    == defs@[k].1@,
        decreases defs.len() - i,
    {
        copy.push((defs[i].0.clone(), clone_definition(&defs[i].1)));
        i += 1;
    }
    assert(defs_view(copy@) =~= defs_view(defs@));
    copy
}

impl RootSchema {
    /// The part of `value` that is instantiated under the base: `value`
    /// itself, or what it holds as `value` where the base is no object and
    /// no class and `value` is an object with that one member.
    pub fn unwrap_value<'a>(&self, value: &'a JsonValue) -> (r: &'a JsonValue)
        ensures
            r@ == root_value(self.base@, value@),
    {
        let wrapped = match &self.base {
            Definition::Class(_) | Definition::Object(_) => false,
            _ => true,
        };
        match value {
            JsonValue::Object(members) => {
                if wrapped && members.len() == 1 {
                    match value.get(&String::from_str("value")) {
                        Some(inner) => inner,
                        None => value,
                    }
                } else {
                    value
                }
            },
            _ => value,
        }
    }

    /// The native value that a JSON value stands for which follows the
    /// emitted document of the schema.
    pub fn instantiate_input(&self, value: &JsonValue) -> (r: Result<NativeValue, Error>)
        ensures
            yields(r, instantiate(self.base@, root_value(self.base@, value@), self.spec_defs())),
    {
        self.instantiate(self.unwrap_value(value))
    }
}

/// The error of a value that the validation engine refuses: it carries a
/// message for each violation, and there is one at least.
pub open spec fn refused(e: ErrorView) -> bool {
    e matches ErrorView::Validation(violations) && violations.len() > 0
}

/// The emitted document of a schema is read back as JSON.
pub open spec fn read_back(base: DefinitionView, defs: DefsView) -> bool {
    parsed(pretty_text(root_doc(base, defs))) is Some
}

/// The emitted document of a schema is read back and the validation engine
/// takes it as a schema.
pub open spec fn taken_as_schema(base: DefinitionView, defs: DefsView) -> bool {
    read_back(base, defs) && schema_compiles(parsed(pretty_text(root_doc(base, defs))).unwrap())
}

/// `r` is what checking the schema of `base` and `defs` comes to: the
/// checked schema where its document is read back and taken as a schema;
/// else a parse error where the document is not read back, and the error of
/// a document that is no schema where it is not taken.
pub open spec fn checked_as(r: Result<GodotSchema, Error>, base: DefinitionView, defs: DefsView) -> bool {
    match r {
        Ok(made) => taken_as_schema(base, defs) && made.wf() && made.inner.base@ == base
            && made.inner.spec_defs() == defs,
        Err(e) => !taken_as_schema(base, defs) && if read_back(base, defs) {
            e@ is InvalidSchema
        } else {
            e@ is Parse
        },
    }
}

impl GodotSchema {
    /// The document as the validation engine reads it.
    pub open spec fn compiled(&self) -> JsonView {
        value_model(self.document)
    }

    /// The schema is well formed, the text is the document of the schema,
    /// and the engine has read the text and taken it as a schema.
    pub open spec fn wf(&self) -> bool {
        &&& self.inner.wf()
        &&& self.json@ == pretty_text(self.inner.spec_document())
        &&& parsed(self.json@) == Some(self.compiled())
        &&& schema_compiles(self.compiled())
    }

    /// Emits the document of `schema`, reads it back and has the
    /// validation engine take it as a schema. The schema is checked exactly
    /// where its document is read back and taken; a document that is not
    /// read back is a parse error, and one that is not taken is no schema.
    pub fn new(schema: RootSchema) -> (r: Result<GodotSchema, Error>)
        requires
            schema.wf(),
        ensures
            checked_as(r, schema.base@, schema.spec_defs()),
            r matches Ok(made) ==> made.inner == schema,
    {
        let json = match schema.to_json_pretty() {
            Ok(json) => json,
            Err(e) => {
                return Err(e);
            },
        };
        let document = match parse_value(json.as_str()) {
            Ok(document) => document,
            Err(message) => {
                return Err(Error::Parse(message));
            },
        };
        match compile_schema(&document) {
            Ok(()) => Ok(GodotSchema { inner: schema, json, document }),
            Err(message) => Err(Error::InvalidSchema(message)),
        }
    }

    /// The native value that the text `input_json` stands for: the text is
    /// read as JSON, held against the document by the validation engine,
    /// and instantiated under the schema. A text that is no JSON is an
    /// error, and so is one that the engine refuses: that error carries the
    /// engine's message for each violation.
    pub fn instantiate(&self, input_json: &str) -> (r: Result<NativeValue, Error>)
        requires
            self.wf(),
        ensures
            match parsed(input_json@) {
                None => r is Err && r.unwrap_err()@ is Parse,
                Some(instance) => if schema_accepts(self.compiled(), instance) {
                    yields(
                        r,
                        instantiate(
                            self.inner.base@,
                            root_value(self.inner.base@, instance),
                            self.inner.spec_defs(),
                        ),
                    )
                } else {
                    r is Err && refused(r.unwrap_err()@)
                },
            },
    {
        let instance = match parse_value(input_json) {
            Ok(instance) => instance,
            Err(message) => {
                return Err(Error::Parse(message));
            },
        };
        let violations = validation_errors(&self.document, &instance);
        if violations.len() > 0 {
            return Err(Error::Validation(violations));
        }
        let value = value_to_json(&instance);
        self.inner.instantiate_input(&value)
    }

    /// The members of the JSON object that the text `input` holds: the text
    /// is read as JSON and held against the document by the validation
    /// engine. A text that is no JSON, one that the engine refuses, and one
    /// that holds no object, is an error.
    pub fn validate_json_input(&self, input: &str) -> (r: Result<Vec<(String, JsonValue)>, Error>)
        requires
            self.wf(),
        ensures
            match parsed(input@) {
                None => r is Err && r.unwrap_err()@ is Parse,
                Some(instance) => if !schema_accepts(self.compiled(), instance) {
                    r is Err && refused(r.unwrap_err()@)
                } else {
                    match instance {
                        JsonView::Object(members) => r is Ok && crate::json::member_views(
                            r.unwrap()@,
                        ) == members,
                        _ => r is Err && r.unwrap_err()@ == ErrorView::TypeMismatch(
                            crate::error::ExpectedKind::Object,
                        ),
                    }
                },
            },
    {
        let instance = match parse_value(input) {
            Ok(instance) => instance,
            Err(message) => {
                return Err(Error::Parse(message));
            },
        };
        let violations = validation_errors(&self.document, &instance);
        if violations.len() > 0 {
            return Err(Error::Validation(violations));
        }
        match value_to_json(&instance) {
            JsonValue::Object(members) => Ok(members),
            _ => Err(Error::TypeMismatch(crate::error::ExpectedKind::Object)),
        }
    }

    /// The schema of an array of this schema's type: the base of this
    /// schema goes into the table under `item_name`, and the new base is an
    /// array of references to it. The new schema is checked as every
    /// schema is, see [`GodotSchema::new`].
    pub fn get_array_schema(&self, item_name: &str) -> (r: Result<GodotSchema, Error>)
        requires
            self.wf(),
        ensures
            checked_as(
                r,
                DefinitionView::plain(
                    DefinitionKind::Array(Some(Box::new(TypeView::Ref(None, item_name@)))),
                ),
                upsert(self.inner.spec_defs(), item_name@, self.inner.base@),
            ),
    {
        let mut defs = clone_definitions(&self.inner.defs);
        let item = clone_definition(&self.inner.base).into_reference(item_name, &mut defs);
        let base = Definition::Array(JArray::new(Type::Ref(item)));
        GodotSchema::new(RootSchema { defs, base })
    }

    /// The document that hands the schema to a model as the format of its
    /// answers, under the root name `name`. The document of a well-formed
    /// schema is well formed and holds no float.
    pub fn response_format_document(&self, name: &str) -> (r: JsonValue)
        ensures
            r@ == response_format(name@, self.inner.spec_document()),
            self.inner.wf() ==> r@.wf() && r@.float_free(),
    {
        let mut inner: Vec<(String, JsonValue)> = Vec::new();
        inner.push((String::from_str("name"), JsonValue::String(String::from_str(name))));
        inner.push((String::from_str("schema"), self.inner.to_json_value()));
        let mut outer: Vec<(String, JsonValue)> = Vec::new();
        outer.push(
            (String::from_str("type"), JsonValue::String(String::from_str("json_schema"))),
        );
        outer.push((String::from_str("json_schema"), JsonValue::Object(inner)));
        proof {
            if self.inner.wf() {
                lemma_root_doc_ok(self.inner.base@, self.inner.spec_defs());
                lemma_response_format_ok(name@, self.inner.spec_document());
            }
            assert(crate::json::member_views(inner@) =~= seq![
                ("name"@, text(name@)),
                ("schema"@, self.inner.spec_document()),
            ]);
            assert(crate::json::member_views(outer@) =~= seq![
                ("type"@, text("json_schema"@)),
                ("json_schema"@, JsonValue::Object(inner)@),
            ]);
        }
        JsonValue::Object(outer)
    }

    /// The document that hands the schema to a model as the format of its
    /// answers, as text on one line: the text of
    /// [`GodotSchema::response_format_document`].
    pub fn open_ai_response_format(&self, name: &str) -> (r: String)
        requires
            self.wf(),
        ensures
            r@ == compact_text(response_format(name@, self.inner.spec_document())),
    {
        let document = self.response_format_document(name);
        match written_compact(&document) {
            Ok(text) => text,
            Err(_) => String::new(),
        }
    }
}

} // verus!
