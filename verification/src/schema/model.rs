//! The mathematical model of the schema graph.

use crate::names::{lookup, unique_keys};
use crate::schema::variant::VariantDefinition;
use vstd::prelude::*;

verus! {

/// The identity of a class: a script with or without a global name, or a
/// class of the engine.
pub enum ClassSourceView {
    ScriptNamed(Seq<char>, Seq<char>),
    ScriptUnnamed(Seq<char>),
    Engine(Seq<char>),
}

impl ClassSourceView {
    /// The name under which the class stands in a definitions table.
    pub open spec fn definition_name(self) -> Seq<char> {
        match self {
            ClassSourceView::ScriptNamed(_, name) => name,
            ClassSourceView::ScriptUnnamed(path) => path,
            ClassSourceView::Engine(name) => name,
        }
    }
}

/// What a schema node describes, without its description.
pub enum DefinitionKind {
    Null,
    Boolean,
    Integer,
    Number,
    String,
    /// An object with the given properties; with none, a dictionary of any content.
    Object(Seq<(Seq<char>, TypeView)>),
    /// An array whose items all have the given type, or any type.
    Array(Option<Box<TypeView>>),
    /// An array of fixed length, one type for each position.
    Tuple(Seq<TypeView>),
    /// A string that is one of the given names, each standing for an integer.
    Enum(Seq<(Seq<char>, i64)>),
    /// An instance of a class of the host.
    Class(ClassSourceView, Seq<(Seq<char>, TypeView)>),
    /// A built-in composite type.
    Variant(VariantDefinition),
}

/// A schema node.
pub struct DefinitionView {
    pub description: Option<Seq<char>>,
    pub kind: DefinitionKind,
}

/// A node written in place, or the name of a node of the definitions table.
pub enum TypeView {
    Definition(DefinitionView),
    Ref(Option<Seq<char>>, Seq<char>),
}

/// A definitions table.
pub type DefsView = Seq<(Seq<char>, DefinitionView)>;

impl DefinitionView {
    /// A node of the given kind without a description.
    pub open spec fn plain(kind: DefinitionKind) -> DefinitionView {
        DefinitionView { description: None, kind }
    }

    /// The node with the given description in place of its own.
    pub open spec fn described(self, description: Option<Seq<char>>) -> DefinitionView {
        DefinitionView { description, kind: self.kind }
    }

    /// No object, class or enum below lists a name twice.
    pub open spec fn wf(self) -> bool
        decreases self,
    {
        match self.kind {
            DefinitionKind::Object(properties) => unique_keys(properties) && forall|i: int|
                0 <= i < properties.len() ==> (#[trigger] properties[i]).1.wf(),
            DefinitionKind::Array(Some(item)) => item.wf(),
            DefinitionKind::Tuple(items) => forall|i: int|
                0 <= i < items.len() ==> (#[trigger] items[i]).wf(),
            DefinitionKind::Enum(variants) => unique_keys(variants),
            DefinitionKind::Class(_, properties) => unique_keys(properties) && forall|i: int|
                0 <= i < properties.len() ==> (#[trigger] properties[i]).1.wf(),
            _ => true,
        }
    }
}

impl TypeView {
    /// See [`DefinitionView::wf`].
    pub open spec fn wf(self) -> bool
        decreases self,
    {
        match self {
            TypeView::Definition(definition) => definition.wf(),
            TypeView::Ref(_, _) => true,
        }
    }

    /// The node that the type stands for.
    pub open spec fn resolve(self, defs: DefsView) -> Option<DefinitionView> {
        match self {
            TypeView::Definition(definition) => Some(definition),
            TypeView::Ref(_, name) => lookup(defs, name),
        }
    }
}

/// Every node of the table is well formed, and no name occurs twice.
pub open spec fn defs_wf(defs: DefsView) -> bool {
    unique_keys(defs) && forall|i: int| 0 <= i < defs.len() ==> (#[trigger] defs[i]).1.wf()
}

} // verus!
