//! The schemas that have been generated, kept by the class they describe.

use crate::error::{Error, ErrorView};
use crate::host::{class_index, same_source, ClassRegistry, PropertyTypeInfo, RegistryView};
use crate::schema::godot_schema::{checked_as, GodotSchema};
use crate::schema::model::{ClassSourceView, DefinitionKind};
use crate::schema::root_schema::{class_schema, type_schema, Generated, RootSchema};
use crate::schema::types::Definition;
use crate::source::ClassSource;
use vstd::prelude::*;
use vstd::string::StringExecFns;

verus! {

/// `r` is what generating and checking a schema comes to: the error that
/// ended the generation, or what checking the generated schema comes to,
/// see [`checked_as`].
pub open spec fn keeps(r: Result<GodotSchema, Error>, expected: Generated) -> bool {
    match expected {
        Err(e) => r is Err && r.unwrap_err()@ == e,
        Ok((base, defs)) => checked_as(r, base, defs),
    }
}

/// The schema of the class called `class_name`, or the error of a name
/// that the registry lacks.
pub open spec fn named_class_schema(class_name: Seq<char>, registry: RegistryView) -> Generated {
    match class_index(registry, class_name) {
        None => Err(ErrorView::ClassNotFound(class_name)),
        Some(i) => class_schema(registry[i].source, registry),
    }
}

/// The identity of the class that a script defines: named by the global
/// name of the script where it has one.
pub open spec fn script_source(script_path: Seq<char>, global_name: Seq<char>) -> ClassSourceView {
    if global_name.len() == 0 {
        ClassSourceView::ScriptUnnamed(script_path)
    } else {
        ClassSourceView::ScriptNamed(script_path, global_name)
    }
}

impl GodotSchema {
    /// The checked schema of the class called `class_name`.
    pub fn from_class_name(class_name: &str, registry: &ClassRegistry) -> (r: Result<
        GodotSchema,
        Error,
    >)
        ensures
            keeps(r, named_class_schema(class_name@, registry@)),
    {
        let source = match ClassSource::from_class_name(class_name, registry) {
            Ok(source) => source,
            Err(e) => {
                return Err(e);
            },
        };
        match RootSchema::from_class(source, registry) {
            Ok(schema) => GodotSchema::new(schema),
            Err(e) => Err(e),
        }
    }

    /// The checked schema of the class that the script stored at
    /// `script_path` defines; `global_name` is the global name of the
    /// script, empty where it has none.
    pub fn from_class_script(script_path: &str, global_name: &str, registry: &ClassRegistry) -> (r:
        Result<GodotSchema, Error>)
        ensures
            keeps(r, class_schema(script_source(script_path@, global_name@), registry@)),
    {
        let source = ClassSource::from_script(
            String::from_str(script_path),
            String::from_str(global_name),
        );
        match RootSchema::from_class(source, registry) {
            Ok(schema) => GodotSchema::new(schema),
            Err(e) => Err(e),
        }
    }

    /// The checked schema of the type that a property descriptor gives.
    pub fn from_type_info(info: PropertyTypeInfo, registry: &ClassRegistry) -> (r: Result<
        GodotSchema,
        Error,
    >)
        ensures
            keeps(r, type_schema(info@, registry@)),
    {
        match RootSchema::from_type_info(info, registry) {
            Ok(schema) => GodotSchema::new(schema),
            Err(e) => Err(e),
        }
    }

    /// Whether the schema is that of the class with the identity `source`.
    pub fn describes(&self, source: &ClassSource) -> (r: bool)
        ensures
            r == self.spec_describes(source@),
    {
        match &self.inner.base {
            Definition::Class(class) => same_source(&class.source, source),
            _ => false,
        }
    }

    /// The base of the schema is the class with the identity `source`.
    pub open spec fn spec_describes(&self, source: ClassSourceView) -> bool {
        self.inner.base@.kind matches DefinitionKind::Class(described, _) && described == source
    }
}

/// The first schema from position `from` on that describes `source`.
pub open spec fn cached_index(schemas: Seq<GodotSchema>, source: ClassSourceView, from: nat) -> Option<
    int,
>
    decreases schemas.len() - from,
{
    if from >= schemas.len() {
        None
    } else if schemas[from as int].spec_describes(source) {
        Some(from as int)
    } else {
        cached_index(schemas, source, from + 1)
    }
}

/// Generates schemas and keeps them.
#[derive(Debug, PartialEq)]
pub struct SchemaLibrary {
    pub schemas: Vec<GodotSchema>,
}

impl SchemaLibrary {
    /// Every schema that is kept is well formed.
    pub open spec fn wf(&self) -> bool {
        forall|i: int| 0 <= i < self.schemas@.len() ==> (#[trigger] self.schemas@[i]).wf()
    }

    /// A library without schemas.
    pub fn new() -> (r: SchemaLibrary)
        ensures
            r.schemas@.len() == 0,
            r.wf(),
    {
        SchemaLibrary { schemas: Vec::new() }
    }

    /// Keeps `made` where it is a schema, and hands on its position among
    /// the kept schemas, or the error.
    fn keep(&mut self, made: Result<GodotSchema, Error>) -> (r: Result<usize, Error>)
        ensures
            match made {
                Ok(schema) => r is Ok && r.unwrap() == old(self).schemas@.len()
                    && final(self).schemas@ == old(self).schemas@.push(schema),
                Err(e) => r == Err::<usize, Error>(e) && final(self).schemas@ == old(
                    self,
                ).schemas@,
            },
    {
        match made {
            Ok(schema) => {
                let at = self.schemas.len();
                self.schemas.push(schema);
                Ok(at)
            },
            Err(e) => Err(e),
        }
    }

    /// Generates the schema of the class called `class_name`, keeps it, and
    /// returns its position among the kept schemas.
    pub fn generate_named_class_schema(&mut self, class_name: &str, registry: &ClassRegistry) -> (r:
        Result<usize, Error>)
        ensures
            r matches Ok(at) ==> final(self).schemas@ == old(self).schemas@.push(
                final(self).schemas@[at as int],
            ) && keeps(
                Ok(final(self).schemas@[at as int]),
                named_class_schema(class_name@, registry@),
            ),
            r matches Err(e) ==> final(self).schemas@ == old(self).schemas@ && keeps(
                Err(e),
                named_class_schema(class_name@, registry@),
            ),
            old(self).wf() ==> final(self).wf(),
    {
        let made = GodotSchema::from_class_name(class_name, registry);
        self.keep(made)
    }

    /// Generates the schema of the class that the script stored at
    /// `script_path` defines, keeps it, and returns its position among the
    /// kept schemas.
    pub fn generate_unnamed_class_schema(
        &mut self,
        script_path: &str,
        global_name: &str,
        registry: &ClassRegistry,
    ) -> (r: Result<usize, Error>)
        ensures
            r matches Ok(at) ==> final(self).schemas@ == old(self).schemas@.push(
                final(self).schemas@[at as int],
            ) && keeps(
                Ok(final(self).schemas@[at as int]),
                class_schema(script_source(script_path@, global_name@), registry@),
            ),
            r matches Err(e) ==> final(self).schemas@ == old(self).schemas@ && keeps(
                Err(e),
                class_schema(script_source(script_path@, global_name@), registry@),
            ),
            old(self).wf() ==> final(self).wf(),
    {
        let made = GodotSchema::from_class_script(script_path, global_name, registry);
        self.keep(made)
    }

    /// Generates the schema of the type that a property descriptor gives,
    /// keeps it, and returns its position among the kept schemas.
    pub fn generate_type_info_schema(&mut self, info: PropertyTypeInfo, registry: &ClassRegistry) -> (r:
        Result<usize, Error>)
        ensures
            r matches Ok(at) ==> final(self).schemas@ == old(self).schemas@.push(
                final(self).schemas@[at as int],
            ) && keeps(Ok(final(self).schemas@[at as int]), type_schema(info@, registry@)),
            r matches Err(e) ==> final(self).schemas@ == old(self).schemas@ && keeps(
                Err(e),
                type_schema(info@, registry@),
            ),
            old(self).wf() ==> final(self).wf(),
    {
        let made = GodotSchema::from_type_info(info, registry);
        self.keep(made)
    }

    /// The first kept schema of the class with the identity `source`.
    pub fn find_class(&self, source: &ClassSource) -> (r: Option<&GodotSchema>)
        ensures
            match cached_index(self.schemas@, source@, 0) {
                Some(i) => 0 <= i < self.schemas@.len() && r == Some(&self.schemas@[i]),
                None => r is None,
            },
    {
        let mut i: usize = 0;
        while i < self.schemas.len()
            invariant
                i <= self.schemas.len(),
                cached_index(self.schemas@, source@, i as nat) == cached_index(
                    self.schemas@,
                    source@,
                    0,
                ),
            decreases self.schemas.len() - i,
        {
            if self.schemas[i].describes(source) {
                return Some(&self.schemas[i]);
            }
            i += 1;
        }
        None
    }

    /// The kept schema of the class called `class_name`. A name that the
    /// registry lacks, and a class without a kept schema, is an error.
    pub fn get_named_class_schema(&self, class_name: &str, registry: &ClassRegistry) -> (r: Result<
        &GodotSchema,
        Error,
    >)
        ensures
            match class_index(registry@, class_name@) {
                None => r is Err && r.unwrap_err()@ == ErrorView::ClassNotFound(class_name@),
                Some(i) => match cached_index(self.schemas@, registry@[i].source, 0) {
                    Some(at) => 0 <= at < self.schemas@.len() && r == Ok::<&GodotSchema, Error>(
                        &self.schemas@[at],
                    ),
                    None => r is Err && r.unwrap_err()@ == ErrorView::ClassNotFound(class_name@),
                },
            },
    {
        let source = match ClassSource::from_class_name(class_name, registry) {
            Ok(source) => source,
            Err(e) => {
                return Err(e);
            },
        };
        match self.find_class(&source) {
            Some(schema) => Ok(schema),
            None => Err(Error::ClassNotFound(String::from_str(class_name))),
        }
    }

    /// The kept schema of the class that the script stored at `script_path`
    /// defines.
    pub fn get_unnamed_class_schema(&self, script_path: &str, global_name: &str) -> (r: Option<
        &GodotSchema,
    >)
        ensures
            match cached_index(self.schemas@, script_source(script_path@, global_name@), 0) {
                Some(i) => 0 <= i < self.schemas@.len() && r == Some(&self.schemas@[i]),
                None => r is None,
            },
    {
        let source = ClassSource::from_script(
            String::from_str(script_path),
            String::from_str(global_name),
        );
        self.find_class(&source)
    }
}

} // verus!
