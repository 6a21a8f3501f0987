//! A schema: a base node with the definitions table that it rests on.

use crate::error::{Error, ErrorView};
use crate::host::{source_index, ClassRegistry, PropertyTypeInfo, PropertyView, RegistryView};
use crate::json::{JsonValue, JsonView};
use crate::json_text::{
    compact_text, json_to_value, pretty_text, write_compact, write_pretty,
};
use crate::names::{
    keys_of, lemma_key_index, lookup, names_of, remove_entry, set_entry, upsert, without,
};
use crate::native::NativeValue;
use crate::schema::catalog::spec_source_definition;
use crate::schema::conversion::instantiate;
use crate::schema::definition::{lemma_defs_set, lemma_upsert_defs_wf, Definitions};
use crate::schema::document::{definition_doc, root_doc, root_document, type_doc};
use crate::schema::instantiate::yields;
use crate::schema::model::{
    defs_wf, ClassSourceView, DefinitionKind, DefinitionView, DefsView, TypeView,
};
use crate::schema::references::{schema_mentions, table_mentions};
use crate::schema::resolution::{generated_properties, property_type};
use crate::schema::dangling::law_closed_schema_resolves;
use crate::schema::types::{defs_view, Definition, JClass, Type};
use crate::schema::soundness::{lemma_class_schema_sound, lemma_type_schema_sound, refs_closed};
use crate::schema::wellformed::{lemma_definition_doc_ok, lemma_root_doc_ok, lemma_type_doc_ok};
use crate::source::ClassSource;
use vstd::prelude::*;

verus! {

/// A base node and the definitions that its references lead to: what is
/// generated, cached, emitted and instantiated as one.
#[derive(Clone, Debug, PartialEq, Eq)]
pub struct RootSchema {
    pub defs: Definitions,
    pub base: Definition,
}

/// A base node with its definitions table, or the error that ended the
/// generation.
pub type Generated = Result<(DefinitionView, DefsView), ErrorView>;

/// The table with `base` put under `name` where the schema refers to
/// `name`: a base that is referred to stands in its own table.
pub open spec fn close_over(base: DefinitionView, defs: DefsView, name: Seq<char>) -> DefsView {
    if schema_mentions(base, defs, name) {
        upsert(defs, name, base)
    } else {
        defs
    }
}

/// The schema of the class with the identity `source`: the class with its
/// generated properties as the base, over the table that the generation
/// leaves behind, starting from an empty one.
pub open spec fn class_schema(source: ClassSourceView, registry: RegistryView) -> Generated {
    match source_index(registry, source, 0) {
        None => Err(ErrorView::ClassNotFound(source.definition_name())),
        Some(i) => match generated_properties(i, registry, Seq::empty()) {
            Err((e, _)) => Err(e),
            Ok((properties, defs)) => {
                let base = DefinitionView::plain(DefinitionKind::Class(source, properties));
                Ok((base, close_over(base, defs, source.definition_name())))
            },
        },
    }
}

/// The schema of the type of a property descriptor. A type written in place
/// is the base, a built-in composite type by its structure; a reference is
/// replaced by the node that it names, which leaves the table.
pub open spec fn type_schema(info: PropertyView, registry: RegistryView) -> Generated {
    match property_type(info, registry, Seq::empty()) {
        Err((e, _)) => Err(e),
        Ok((ty, defs)) => match ty {
            TypeView::Definition(definition) => match definition.kind {
                DefinitionKind::Variant(tag) => Ok((spec_source_definition(tag), defs)),
                _ => Ok((definition, defs)),
            },
            TypeView::Ref(_, name) => match lookup(defs, name) {
                None => Err(ErrorView::DanglingReference(name)),
                Some(base) => Ok((base, close_over(base, without(defs, name), name))),
            },
        },
    }
}

/// `r` is the executable form of `expected`.
pub open spec fn gives_schema(r: Result<RootSchema, Error>, expected: Generated) -> bool {
    match r {
        Ok(schema) => expected == Ok::<(DefinitionView, DefsView), ErrorView>(
            (schema.base@, defs_view(schema.defs@)),
        ),
        Err(e) => expected == Err::<(DefinitionView, DefsView), ErrorView>(e@),
    }
}

/// The text of a document on one line. The document is well formed and
/// holds no float, so it is written as it stands.
pub fn written_compact(document: &JsonValue) -> (r: Result<String, Error>)
    requires
        document@.wf(),
        document@.float_free(),
    ensures
        r is Ok,
        r matches Ok(text) ==> text@ == compact_text(document@),
{
    match json_to_value(document) {
        Some(value) => match write_compact(&value) {
            Ok(text) => Ok(text),
            Err(message) => Err(Error::Serialization(message)),
        },
        None => Err(Error::Serialization(String::new())),
    }
}

/// The indented text of a document. The document is well formed and holds
/// no float, so it is written as it stands.
pub fn written_pretty(document: &JsonValue) -> (r: Result<String, Error>)
    requires
        document@.wf(),
        document@.float_free(),
    ensures
        r is Ok,
        r matches Ok(text) ==> text@ == pretty_text(document@),
{
    match json_to_value(document) {
        Some(value) => match write_pretty(&value) {
            Ok(text) => Ok(text),
            Err(message) => Err(Error::Serialization(message)),
        },
        None => Err(Error::Serialization(String::new())),
    }
}

/// Puts a copy of `base` into `defs` under `name` where the schema refers
/// to `name`.
fn close_table(base: &Definition, defs: &mut Definitions, name: String)
    ensures
        defs_view(final(defs)@) == close_over(base@, defs_view(old(defs)@), name@),
{
    if base.mentions(&name) || table_mentions(defs, &name) {
        let copy = base.clone();
        proof {
            lemma_defs_set(defs@, name, copy);
        }
        set_entry(defs, name, copy);
    }
}

impl RootSchema {
    /// The base and the nodes of the table are well formed, and no name
    /// stands twice in the table.
    pub open spec fn wf(&self) -> bool {
        self.base@.wf() && defs_wf(defs_view(self.defs@))
    }

    /// Every reference that stands in the base or in the table leads to a
    /// node of the table.
    pub open spec fn closed(&self) -> bool {
        refs_closed(self.base@, defs_view(self.defs@))
    }

    /// The definitions table of the schema.
    pub open spec fn spec_defs(&self) -> DefsView {
        defs_view(self.defs@)
    }

    /// The document of the schema.
    pub open spec fn spec_document(&self) -> JsonView {
        root_doc(self.base@, defs_view(self.defs@))
    }

    /// The schema of the class with the identity `source`, generated over a
    /// fresh definitions table. A class that the registry lacks, and a
    /// property without a type, ends the generation with an error.
    pub fn from_class(source: ClassSource, registry: &ClassRegistry) -> (r: Result<
        RootSchema,
        Error,
    >)
        ensures
            gives_schema(r, class_schema(source@, registry@)),
            r matches Ok(schema) ==> schema.wf() && schema.closed(),
    {
        proof {
            lemma_class_schema_sound(source@, registry@);
        }
        let mut defs: Definitions = Vec::new();
        assert(defs_view(defs@) =~= Seq::empty());
        let name = source.definition_name();
        match JClass::generate(source, registry, &mut defs) {
            Err(e) => Err(e),
            Ok(class) => {
                let base = Definition::Class(class);
                close_table(&base, &mut defs, name);
                Ok(RootSchema { defs, base })
            },
        }
    }

    /// The schema of the class with the identity `source`: the same as
    /// [`RootSchema::from_class`].
    pub fn generate(source: ClassSource, registry: &ClassRegistry) -> (r: Result<RootSchema, Error>)
        ensures
            gives_schema(r, class_schema(source@, registry@)),
            r matches Ok(schema) ==> schema.wf() && schema.closed(),
    {
        RootSchema::from_class(source, registry)
    }

    /// The schema of the type of a property descriptor, generated over a
    /// fresh definitions table.
    pub fn from_type_info(property: PropertyTypeInfo, registry: &ClassRegistry) -> (r: Result<
        RootSchema,
        Error,
    >)
        ensures
            gives_schema(r, type_schema(property@, registry@)),
            r matches Ok(schema) ==> schema.wf() && schema.closed(),
    {
        proof {
            lemma_type_schema_sound(property@, registry@);
        }
        let mut defs: Definitions = Vec::new();
        assert(defs_view(defs@) =~= Seq::empty());
        let base_ty = match property.eval_type(registry, &mut defs) {
            Ok(ty) => ty,
            Err(e) => {
                return Err(e);
            },
        };
        match base_ty {
            Type::Definition(Definition::Variant(tag)) => Ok(
                RootSchema { defs, base: tag.source_definition() },
            ),
            Type::Definition(base) => Ok(RootSchema { defs, base }),
            Type::Ref(reference) => {
                let ghost table = defs_view(defs@);
                proof {
                    assert(keys_of(table) =~= names_of(defs@));
                    lemma_key_index(keys_of(table), reference.name@);
                }
                match remove_entry(&mut defs, &reference.name) {
                    None => Err(Error::DanglingReference(reference.name)),
                    Some(base) => {
                        assert(defs_view(defs@) =~= without(table, reference.name@));
                        close_table(&base, &mut defs, reference.name);
                        Ok(RootSchema { defs, base })
                    },
                }
            },
        }
    }

    /// Puts `definition` into the table under `name`, in place of a node
    /// that stands there.
    pub fn add_definition(&mut self, name: &str, definition: Definition)
        ensures
            final(self).base == old(self).base,
            final(self).spec_defs() == upsert(old(self).spec_defs(), name@, definition@),
            old(self).wf() && definition@.wf() ==> final(self).wf(),
    {
        let key = String::from_str(name);
        proof {
            lemma_defs_set(self.defs@, key, definition);
            if old(self).wf() && definition@.wf() {
                lemma_upsert_defs_wf(old(self).spec_defs(), key@, definition@);
            }
        }
        set_entry(&mut self.defs, key, definition);
    }

    /// Puts `class` into the table under the name that its identity gives.
    pub fn add_class(&mut self, class: JClass)
        ensures
            final(self).base == old(self).base,
            final(self).spec_defs() == upsert(
                old(self).spec_defs(),
                class.source@.definition_name(),
                class@,
            ),
            old(self).wf() && class@.wf() ==> final(self).wf(),
    {
        let name = class.source.definition_name();
        self.add_definition(name.as_str(), Definition::Class(class));
    }

    /// The native value that `value` stands for under the base of the
    /// schema, with the references resolved in its table.
    pub fn instantiate(&self, value: &JsonValue) -> (r: Result<NativeValue, Error>)
        ensures
            yields(r, instantiate(self.base@, value@, self.spec_defs())),
            self.closed() ==> !(r matches Err(e) && e@ is DanglingReference),
    {
        proof {
            if self.closed() {
                law_closed_schema_resolves(self.base@, self.spec_defs(), value@);
            }
        }
        self.base.instantiate(value, &self.defs)
    }

    /// The document of the schema.
    pub fn to_json_value(&self) -> (r: JsonValue)
        ensures
            r@ == self.spec_document(),
            self.wf() ==> r@.wf(),
    {
        proof {
            if self.wf() {
                lemma_root_doc_ok(self.base@, defs_view(self.defs@));
            }
        }
        root_document(&self.base, &self.defs)
    }

    /// The document of the schema as text on one line.
    pub fn to_json_compact(&self) -> (r: Result<String, Error>)
        requires
            self.wf(),
        ensures
            r is Ok,
            r matches Ok(text) ==> text@ == compact_text(self.spec_document()),
    {
        let document = self.to_json_value();
        proof {
            lemma_root_doc_ok(self.base@, defs_view(self.defs@));
        }
        written_compact(&document)
    }

    /// The document of the schema as indented text.
    pub fn to_json_pretty(&self) -> (r: Result<String, Error>)
        requires
            self.wf(),
        ensures
            r is Ok,
            r matches Ok(text) ==> text@ == pretty_text(self.spec_document()),
    {
        let document = self.to_json_value();
        proof {
            lemma_root_doc_ok(self.base@, defs_view(self.defs@));
        }
        written_pretty(&document)
    }
}

impl Definition {
    /// The document of the node as text on one line.
    pub fn to_json_compact(&self) -> (r: Result<String, Error>)
        requires
            self@.wf(),
        ensures
            r is Ok,
            r matches Ok(text) ==> text@ == compact_text(definition_doc(self@)),
    {
        let document = self.to_json_value();
        proof {
            lemma_definition_doc_ok(self@);
        }
        written_compact(&document)
    }

    /// The document of the node as indented text.
    pub fn to_json_pretty(&self) -> (r: Result<String, Error>)
        requires
            self@.wf(),
        ensures
            r is Ok,
            r matches Ok(text) ==> text@ == pretty_text(definition_doc(self@)),
    {
        let document = self.to_json_value();
        proof {
            lemma_definition_doc_ok(self@);
        }
        written_pretty(&document)
    }
}

impl Type {
    /// The document of the type as text on one line.
    pub fn to_json_compact(&self) -> (r: Result<String, Error>)
        requires
            self@.wf(),
        ensures
            r is Ok,
            r matches Ok(text) ==> text@ == compact_text(type_doc(self@)),
    {
        let document = self.to_json_value();
        proof {
            lemma_type_doc_ok(self@);
        }
        written_compact(&document)
    }

    /// The document of the type as indented text.
    pub fn to_json_pretty(&self) -> (r: Result<String, Error>)
        requires
            self@.wf(),
        ensures
            r is Ok,
            r matches Ok(text) ==> text@ == pretty_text(type_doc(self@)),
    {
        let document = self.to_json_value();
        proof {
            lemma_type_doc_ok(self@);
        }
        written_pretty(&document)
    }
}

} // verus!
