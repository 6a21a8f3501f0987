//! The identity of a class of the host.

use crate::schema::model::ClassSourceView;
use vstd::prelude::*;

verus! {

/// Where a class comes from: a script, known by the path it is stored at,
/// with or without a global name, or the engine, which knows it by name.
#[derive(Debug, PartialEq, Eq, Hash)]
pub enum ClassSource {
    ScriptNamed(String, String),
    ScriptUnnamed(String),
    Engine(String),
}

impl View for ClassSource {
    type V = ClassSourceView;

    open spec fn view(&self) -> ClassSourceView {
        match self {
            ClassSource::ScriptNamed(path, name) => ClassSourceView::ScriptNamed(path@, name@),
            ClassSource::ScriptUnnamed(path) => ClassSourceView::ScriptUnnamed(path@),
            ClassSource::Engine(name) => ClassSourceView::Engine(name@),
        }
    }
}

impl Clone for ClassSource {
    fn clone(&self) -> (r: Self)
        ensures
            r@ == self@,
    {
        match self {
            ClassSource::ScriptNamed(path, name) => ClassSource::ScriptNamed(
                path.clone(),
                name.clone(),
            ),
            ClassSource::ScriptUnnamed(path) => ClassSource::ScriptUnnamed(path.clone()),
            ClassSource::Engine(name) => ClassSource::Engine(name.clone()),
        }
    }
}

impl ClassSource {
    /// The source of the script stored at `path`: named when the script has a
    /// global name, unnamed when `global_name` is empty.
    pub fn from_script(path: String, global_name: String) -> (r: ClassSource)
        ensures
            r@ == if global_name@.len() == 0 {
                ClassSourceView::ScriptUnnamed(path@)
            } else {
                ClassSourceView::ScriptNamed(path@, global_name@)
            },
    {
        if global_name.as_str().unicode_len() == 0 {
            ClassSource::ScriptUnnamed(path)
        } else {
            ClassSource::ScriptNamed(path, global_name)
        }
    }

    /// The name under which the class stands in a definitions table: its
    /// name where it has one, else the path of its script.
    pub fn definition_name(&self) -> (r: String)
        ensures
            r@ == self@.definition_name(),
    {
        match self {
            ClassSource::ScriptNamed(_, name) => name.clone(),
            ClassSource::Engine(name) => name.clone(),
            ClassSource::ScriptUnnamed(path) => path.clone(),
        }
    }
}

/// The identity of a class as a key: a name, or the path of a script.
#[derive(Clone, Debug, PartialEq, Eq, Hash)]
pub enum ClassId {
    Name(String),
    Script(String),
}

impl ClassId {
    /// The text of the key.
    pub open spec fn spec_definition_name(&self) -> Seq<char> {
        match self {
            ClassId::Name(name) => name@,
            ClassId::Script(path) => path@,
        }
    }

    /// The name under which the class stands in a definitions table.
    pub fn definition_name(&self) -> (r: String)
        ensures
            r@ == self.spec_definition_name(),
    {
        match self {
            ClassId::Name(name) => name.clone(),
            ClassId::Script(path) => path.clone(),
        }
    }
}

} // verus!
