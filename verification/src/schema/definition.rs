//! Constructors and lookups of [`Definition`] and [`Type`].

use crate::error::{Error, ErrorView};
use crate::names::{
    find_name, from_pairs, key_index, keys_of, lemma_key_index, lookup, names_of, set_entry,
    upsert,
};
use crate::schema::model::{defs_wf, DefinitionKind, DefinitionView, DefsView, TypeView};
use crate::schema::nodes::all_wf;
use crate::schema::types::{
    defs_view, property_views, variant_views, Boolean, Definition, Integer, JArray, JEnum, JObject,
    JRef, JString, Null, Number, Type,
};
use vstd::prelude::*;
use vstd::string::StringExecFns;

verus! {

/// A definitions table: nodes by name.
pub type Definitions = Vec<(String, Definition)>;

/// The names of a table are the names of its model, and setting a node of
/// an executable table sets it in the model.
pub proof fn lemma_defs_set(defs: Seq<(String, Definition)>, key: String, definition: Definition)
    ensures
        keys_of(defs_view(defs)) == names_of(defs),
        match key_index(names_of(defs), key@) {
            Some(i) => defs_view(defs.update(i, (key, definition))) == upsert(
                defs_view(defs),
                key@,
                definition@,
            ),
            None => defs_view(defs.push((key, definition))) == upsert(
                defs_view(defs),
                key@,
                definition@,
            ),
        },
{
    assert(keys_of(defs_view(defs)) =~= names_of(defs));
    lemma_key_index(names_of(defs), key@);
    match key_index(names_of(defs), key@) {
        Some(i) => {
            assert(defs_view(defs.update(i, (key, definition))) =~= defs_view(defs).update(
                i,
                (key@, definition@),
            ));
        },
        None => {
            assert(defs_view(defs.push((key, definition))) =~= defs_view(defs).push(
                (key@, definition@),
            ));
        },
    }
}

/// Setting a well-formed node in a well-formed table leaves it so.
pub proof fn lemma_upsert_defs_wf(defs: DefsView, key: Seq<char>, definition: DefinitionView)
    requires
        defs_wf(defs),
        definition.wf(),
    ensures
        defs_wf(upsert(defs, key, definition)),
{
    crate::names::lemma_upsert_unique(defs, key, definition);
    lemma_key_index(keys_of(defs), key);
}

/// The node called `name` in `defs`.
pub fn find_definition<'a>(defs: &'a Definitions, name: &String) -> (r: Option<&'a Definition>)
    ensures
        match lookup(defs_view(defs@), name@) {
            Some(definition) => r is Some && r.unwrap()@ == definition,
            None => r is None,
        },
{
    proof {
        assert(keys_of(defs_view(defs@)) =~= names_of(defs@));
    }
    match find_name(defs, name) {
        Some(i) => Some(&defs[i].1),
        None => None,
    }
}

impl Definition {
    pub fn null() -> (r: Definition)
        ensures
            r@ == DefinitionView::plain(DefinitionKind::Null),
            r@.wf(),
    {
        Definition::Null(Null::new())
    }

    pub fn boolean() -> (r: Definition)
        ensures
            r@ == DefinitionView::plain(DefinitionKind::Boolean),
            r@.wf(),
    {
        Definition::Boolean(Boolean::new())
    }

    pub fn integer() -> (r: Definition)
        ensures
            r@ == DefinitionView::plain(DefinitionKind::Integer),
            r@.wf(),
    {
        Definition::Integer(Integer::new())
    }

    pub fn number() -> (r: Definition)
        ensures
            r@ == DefinitionView::plain(DefinitionKind::Number),
            r@.wf(),
    {
        Definition::Number(Number::new())
    }

    pub fn string() -> (r: Definition)
        ensures
            r@ == DefinitionView::plain(DefinitionKind::String),
            r@.wf(),
    {
        Definition::String(JString::new())
    }

    /// An array whose items can each be of any type.
    pub fn untyped_array() -> (r: Definition)
        ensures
            r@ == DefinitionView::plain(DefinitionKind::Array(None)),
            r@.wf(),
    {
        Definition::Array(JArray::untyped())
    }

    /// An object without properties: a dictionary of any content.
    pub fn dictionary() -> (r: Definition)
        ensures
            r@ == DefinitionView::plain(DefinitionKind::Object(Seq::empty())),
            r@.wf(),
    {
        Definition::Object(JObject::new())
    }

    /// An array whose items all have the type `item_ty`.
    pub fn array(item_ty: Type) -> (r: Definition)
        ensures
            r@ == DefinitionView::plain(DefinitionKind::Array(Some(Box::new(item_ty@)))),
            item_ty@.wf() ==> r@.wf(),
    {
        Definition::Array(JArray::new(item_ty))
    }

    /// The object with the given properties; of two of one name the later
    /// one counts.
    pub fn object(properties: Vec<(String, Type)>) -> (r: Definition)
        ensures
            r@ == DefinitionView::plain(
                DefinitionKind::Object(from_pairs(property_views(properties@))),
            ),
            all_wf(property_views(properties@)) ==> r@.wf(),
    {
        Definition::Object(JObject::with_properties(properties))
    }

    /// The enum with the given variants; of two of one name the later one
    /// counts.
    pub fn string_enum(variants: Vec<(String, i64)>) -> (r: Definition)
        ensures
            r@ == DefinitionView::plain(DefinitionKind::Enum(from_pairs(variant_views(variants@)))),
            r@.wf(),
    {
        Definition::Enum(JEnum::new(variants))
    }

    /// Puts the node into `defs` under `name`, in place of a node that
    /// stands there, and returns the reference to it.
    pub fn into_reference(self, name: &str, defs: &mut Definitions) -> (r: JRef)
        ensures
            r@ == TypeView::Ref(None, name@),
            defs_view(final(defs)@) == upsert(defs_view(old(defs)@), name@, self@),
            defs_wf(defs_view(old(defs)@)) && self@.wf() ==> defs_wf(defs_view(final(defs)@)),
    {
        let key = String::from_str(name);
        proof {
            lemma_defs_set(defs@, key, self);
            if defs_wf(defs_view(old(defs)@)) && self@.wf() {
                lemma_upsert_defs_wf(defs_view(old(defs)@), key@, self@);
            }
        }
        set_entry(defs, key, self);
        JRef::new(name)
    }

    /// The description of the node.
    pub fn description(&self) -> (r: Option<&String>)
        ensures
            match self@.description {
                Some(text) => r is Some && r.unwrap()@ == text,
                None => r is None,
            },
    {
        match self {
            Definition::Null(d) => d.description.as_ref(),
            Definition::Boolean(d) => d.description.as_ref(),
            Definition::Integer(d) => d.description.as_ref(),
            Definition::Number(d) => d.description.as_ref(),
            Definition::String(d) => d.description.as_ref(),
            Definition::Object(d) => d.description.as_ref(),
            Definition::Array(d) => d.description.as_ref(),
            Definition::Tuple(d) => d.description.as_ref(),
            Definition::Enum(d) => d.description.as_ref(),
            Definition::Class(d) => d.description.as_ref(),
            Definition::Variant(_) => None,
        }
    }

    /// Sets the description of the node. A built-in composite type has
    /// none, and stays as it is.
    pub fn add_description(&mut self, description: &str)
        ensures
            final(self)@ == if old(self)@.kind is Variant {
                old(self)@
            } else {
                old(self)@.described(Some(description@))
            },
    {
        match self {
            Definition::Null(d) => d.add_description(description),
            Definition::Boolean(d) => d.add_description(description),
            Definition::Integer(d) => d.add_description(description),
            Definition::Number(d) => d.add_description(description),
            Definition::String(d) => d.add_description(description),
            Definition::Object(d) => d.add_description(description),
            Definition::Array(d) => d.add_description(description),
            Definition::Tuple(d) => d.add_description(description),
            Definition::Enum(d) => d.add_description(description),
            Definition::Class(d) => d.add_description(description),
            Definition::Variant(_) => {},
        }
    }
}

impl Type {
    /// An array whose items can each be of any type.
    pub fn untyped_array() -> (r: Type)
        ensures
            r@ == TypeView::Definition(DefinitionView::plain(DefinitionKind::Array(None))),
            r@.wf(),
    {
        Type::Definition(Definition::untyped_array())
    }

    /// An array whose items all have the type `item_ty`.
    pub fn array(item_ty: Type) -> (r: Type)
        ensures
            r@ == TypeView::Definition(
                DefinitionView::plain(DefinitionKind::Array(Some(Box::new(item_ty@)))),
            ),
            item_ty@.wf() ==> r@.wf(),
    {
        Type::Definition(Definition::array(item_ty))
    }

    /// The object with the given properties; of two of one name the later
    /// one counts.
    pub fn object(properties: Vec<(String, Type)>) -> (r: Type)
        ensures
            r@ == TypeView::Definition(
                DefinitionView::plain(
                    DefinitionKind::Object(from_pairs(property_views(properties@))),
                ),
            ),
            all_wf(property_views(properties@)) ==> r@.wf(),
    {
        Type::Definition(Definition::object(properties))
    }

    /// The enum with the given variants; of two of one name the later one
    /// counts.
    pub fn string_enum(variants: Vec<(String, i64)>) -> (r: Type)
        ensures
            r@ == TypeView::Definition(
                DefinitionView::plain(DefinitionKind::Enum(from_pairs(variant_views(variants@)))),
            ),
            r@.wf(),
    {
        Type::Definition(Definition::string_enum(variants))
    }

    /// The node that the type stands for: the node itself where it is
    /// written in place, else the node of that name in `defs`. A name that
    /// `defs` lacks is an error.
    pub fn resolve<'a>(&'a self, defs: &'a Definitions) -> (r: Result<&'a Definition, Error>)
        ensures
            match self@.resolve(defs_view(defs@)) {
                Some(definition) => r is Ok && r.unwrap()@ == definition,
                None => r is Err && self@ is Ref && r.unwrap_err()@ == ErrorView::DanglingReference(
                    self@->Ref_1,
                ),
            },
    {
        match self {
            Type::Definition(definition) => Ok(definition),
            Type::Ref(reference) => match find_definition(defs, &reference.name) {
                Some(definition) => Ok(definition),
                None => Err(Error::DanglingReference(reference.name.clone())),
            },
        }
    }

    /// Sets the description of the node or reference.
    pub fn add_description(&mut self, description: &str)
        ensures
            final(self)@ == match old(self)@ {
                TypeView::Definition(definition) => TypeView::Definition(
                    if definition.kind is Variant {
                        definition
                    } else {
                        definition.described(Some(description@))
                    },
                ),
                TypeView::Ref(_, name) => TypeView::Ref(Some(description@), name),
            },
    {
        match self {
            Type::Definition(definition) => definition.add_description(description),
            Type::Ref(reference) => reference.add_description(description),
        }
    }
}

} // verus!
