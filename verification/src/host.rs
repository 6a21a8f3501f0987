//! What the host runtime tells about its classes: the property descriptors
//! and the enums of each class, as plain values.
//!
//! The surrounding program asks the host and writes the answers into a
//! [`ClassRegistry`]; the library reads nothing but the registry.

use crate::kinds::{PropertyHint, PropertyUsageFlags, VariantType};
use crate::schema::model::ClassSourceView;
use crate::schema::types::variant_views;
use crate::source::ClassSource;
use vstd::prelude::*;

verus! {

/// The descriptor of a property: its coarse kind, a second name that may be a
/// class name or an enum path, a hint with its payload, and the usage flags.
#[derive(Clone, Debug, PartialEq, Eq)]
pub struct PropertyTypeInfo {
    pub variant_type: VariantType,
    pub class_name: String,
    pub property_name: String,
    pub hint: PropertyHint,
    pub hint_string: String,
    pub usage: PropertyUsageFlags,
}

/// The mathematical value of a [`PropertyTypeInfo`].
pub struct PropertyView {
    pub variant_type: VariantType,
    pub class_name: Seq<char>,
    pub property_name: Seq<char>,
    pub hint: PropertyHint,
    pub hint_string: Seq<char>,
    pub usage: PropertyUsageFlags,
}

impl View for PropertyTypeInfo {
    type V = PropertyView;

    open spec fn view(&self) -> PropertyView {
        PropertyView {
            variant_type: self.variant_type,
            class_name: self.class_name@,
            property_name: self.property_name@,
            hint: self.hint,
            hint_string: self.hint_string@,
            usage: self.usage,
        }
    }
}

/// What the host tells about one class: who it is, its property
/// descriptors in the host's order, and its enums by name.
#[derive(Clone, Debug, PartialEq, Eq)]
pub struct ClassInfo {
    pub source: ClassSource,
    pub properties: Vec<PropertyTypeInfo>,
    pub enums: Vec<(String, Vec<(String, i64)>)>,
}

/// The mathematical value of a [`ClassInfo`].
pub struct ClassView {
    pub source: ClassSourceView,
    pub properties: Seq<PropertyView>,
    pub enums: Seq<(Seq<char>, Seq<(Seq<char>, i64)>)>,
}

/// The views of a list of descriptors.
pub open spec fn property_infos(properties: Seq<PropertyTypeInfo>) -> Seq<PropertyView> {
    Seq::new(properties.len(), |i: int| properties[i]@)
}

/// The views of a list of enums.
pub open spec fn enum_views(enums: Seq<(String, Vec<(String, i64)>)>) -> Seq<
    (Seq<char>, Seq<(Seq<char>, i64)>),
> {
    Seq::new(enums.len(), |i: int| (enums[i].0@, variant_views(enums[i].1@)))
}

impl View for ClassInfo {
    type V = ClassView;

    open spec fn view(&self) -> ClassView {
        ClassView {
            source: self.source@,
            properties: property_infos(self.properties@),
            enums: enum_views(self.enums@),
        }
    }
}

/// The classes that the host knows.
#[derive(Clone, Debug, PartialEq, Eq)]
pub struct ClassRegistry {
    pub classes: Vec<ClassInfo>,
}

/// The mathematical value of a [`ClassRegistry`].
pub type RegistryView = Seq<ClassView>;

/// The views of a list of classes.
pub open spec fn class_views(classes: Seq<ClassInfo>) -> RegistryView {
    Seq::new(classes.len(), |i: int| classes[i]@)
}

impl View for ClassRegistry {
    type V = RegistryView;

    open spec fn view(&self) -> RegistryView {
        class_views(self.classes@)
    }
}

/// The first class from position `from` on that the engine knows by `name`.
pub open spec fn engine_index(registry: RegistryView, name: Seq<char>, from: nat) -> Option<int>
    decreases registry.len() - from,
{
    if from >= registry.len() {
        None
    } else if registry[from as int].source == ClassSourceView::Engine(name) {
        Some(from as int)
    } else {
        engine_index(registry, name, from + 1)
    }
}

/// The first class from position `from` on that is a script with the
/// global name `name`.
pub open spec fn script_index(registry: RegistryView, name: Seq<char>, from: nat) -> Option<int>
    decreases registry.len() - from,
{
    if from >= registry.len() {
        None
    } else if registry[from as int].source matches ClassSourceView::ScriptNamed(_, global)
        && global == name {
        Some(from as int)
    } else {
        script_index(registry, name, from + 1)
    }
}

/// The class called `name`: a class of the engine before a script.
pub open spec fn class_index(registry: RegistryView, name: Seq<char>) -> Option<int> {
    match engine_index(registry, name, 0) {
        Some(i) => Some(i),
        None => script_index(registry, name, 0),
    }
}

/// The first class from position `from` on with the identity `source`.
pub open spec fn source_index(registry: RegistryView, source: ClassSourceView, from: nat) -> Option<
    int,
>
    decreases registry.len() - from,
{
    if from >= registry.len() {
        None
    } else if registry[from as int].source == source {
        Some(from as int)
    } else {
        source_index(registry, source, from + 1)
    }
}

/// An index that one of the searches returns lies in the registry.
pub proof fn lemma_index_in_range(registry: RegistryView, name: Seq<char>, from: nat)
    ensures
        engine_index(registry, name, from) matches Some(i) ==> from <= i < registry.len(),
        script_index(registry, name, from) matches Some(i) ==> from <= i < registry.len(),
    decreases registry.len() - from,
{
    if from < registry.len() {
        lemma_index_in_range(registry, name, from + 1);
    }
}

/// An index that the search by identity returns lies in the registry.
pub proof fn lemma_source_index_in_range(registry: RegistryView, source: ClassSourceView, from: nat)
    ensures
        source_index(registry, source, from) matches Some(i) ==> from <= i < registry.len()
            && registry[i].source == source,
    decreases registry.len() - from,
{
    if from < registry.len() {
        lemma_source_index_in_range(registry, source, from + 1);
    }
}

/// Whether two identities are the same.
pub fn same_source(a: &ClassSource, b: &ClassSource) -> (r: bool)
    ensures
        r == (a@ == b@),
{
    match (a, b) {
        (ClassSource::ScriptNamed(p, n), ClassSource::ScriptNamed(q, m)) => *p == *q && *n == *m,
        (ClassSource::ScriptUnnamed(p), ClassSource::ScriptUnnamed(q)) => *p == *q,
        (ClassSource::Engine(n), ClassSource::Engine(m)) => *n == *m,
        _ => false,
    }
}

impl ClassRegistry {
    /// A registry without classes.
    pub fn new() -> (r: ClassRegistry)
        ensures
            r@ == Seq::<ClassView>::empty(),
    {
        let r = ClassRegistry { classes: Vec::new() };
        assert(r@ =~= Seq::<ClassView>::empty());
        r
    }

    /// Adds a class at the end.
    pub fn add_class(&mut self, class: ClassInfo)
        ensures
            final(self)@ == old(self)@.push(class@),
    {
        self.classes.push(class);
        assert(self@ =~= old(self)@.push(class@));
    }

    /// The position of the class called `name`: a class of the engine
    /// before a script with that global name.
    pub fn find_class(&self, name: &String) -> (r: Option<usize>)
        ensures
            match r {
                Some(i) => i < self.classes.len() && class_index(self@, name@) == Some(i as int),
                None => class_index(self@, name@) is None,
            },
    {
        let mut i: usize = 0;
        while i < self.classes.len()
            invariant
                i <= self.classes.len(),
                engine_index(self@, name@, i as nat) == engine_index(self@, name@, 0),
            decreases self.classes.len() - i,
        {
            match &self.classes[i].source {
                ClassSource::Engine(known) => {
                    if *known == *name {
                        return Some(i);
                    }
                },
                _ => {},
            }
            i += 1;
        }
        let mut k: usize = 0;
        while k < self.classes.len()
            invariant
                k <= self.classes.len(),
                engine_index(self@, name@, 0) is None,
                script_index(self@, name@, k as nat) == script_index(self@, name@, 0),
            decreases self.classes.len() - k,
        {
            match &self.classes[k].source {
                ClassSource::ScriptNamed(_, global) => {
                    if *global == *name {
                        return Some(k);
                    }
                },
                _ => {},
            }
            k += 1;
        }
        None
    }

    /// The position of the class with the identity `source`.
    pub fn find_source(&self, source: &ClassSource) -> (r: Option<usize>)
        ensures
            match r {
                Some(i) => i < self.classes.len() && source_index(self@, source@, 0) == Some(
                    i as int,
                ),
                None => source_index(self@, source@, 0) is None,
            },
    {
        let mut i: usize = 0;
        while i < self.classes.len()
            invariant
                i <= self.classes.len(),
                source_index(self@, source@, i as nat) == source_index(self@, source@, 0),
            decreases self.classes.len() - i,
        {
            if same_source(&self.classes[i].source, source) {
                return Some(i);
            }
            i += 1;
        }
        None
    }
}

} // verus!
