//! Builders of objects and enums.

use crate::names::upsert;
use crate::schema::model::{DefinitionKind, DefinitionView};
use crate::schema::types::{JEnum, JObject, Type};
use vstd::prelude::*;

verus! {

/// Builds a value of `T` step by step.
pub struct Builder<T = ()> {
    inner: T,
}

impl<T> Builder<T> {
    /// What has been built so far.
    pub closed spec fn built(&self) -> T {
        self.inner
    }

    /// Starts from the default value of `T`.
    pub fn new() -> (r: Self) where T: Default
        ensures
            call_ensures(T::default, (), r.built()),
    {
        Builder { inner: T::default() }
    }

    /// Hands out what has been built.
    pub fn done(self) -> (r: T)
        ensures
            r == self.built(),
    {
        self.inner
    }
}

impl Builder {
    /// Starts an object without properties.
    pub fn object() -> (r: Builder<JObject>)
        ensures
            r.built()@ == DefinitionView::plain(DefinitionKind::Object(Seq::empty())),
    {
        Builder { inner: JObject::new() }
    }

    /// Starts an enum without variants.
    pub fn string_enum() -> (r: Builder<JEnum>)
        ensures
            r.built()@ == DefinitionView::plain(DefinitionKind::Enum(Seq::empty())),
    {
        let empty: Vec<(String, i64)> = Vec::new();
        Builder { inner: JEnum::new(empty) }
    }
}

impl Builder<JObject> {
    /// Sets the description of the object.
    pub fn description(self, description: &str) -> (r: Self)
        ensures
            r.built()@ == self.built()@.described(Some(description@)),
    {
        let mut inner = self.inner;
        inner.add_description(description);
        Builder { inner }
    }

    /// Sets the property `name` to the type `ty`.
    pub fn property(self, name: &str, ty: Type) -> (r: Self)
        ensures
            r.built()@ == DefinitionView::plain(
                DefinitionKind::Object(upsert(self.built().spec_properties(), name@, ty@)),
            ).described(self.built()@.description),
            self.built()@.wf() && ty@.wf() ==> r.built()@.wf(),
    {
        let mut inner = self.inner;
        inner.add_property(name, ty);
        Builder { inner }
    }
}

impl Builder<JEnum> {
    /// Sets the description of the enum.
    pub fn description(self, description: &str) -> (r: Self)
        ensures
            r.built()@ == self.built()@.described(Some(description@)),
    {
        let mut inner = self.inner;
        inner.add_description(description);
        Builder { inner }
    }

    /// Sets the variant `name` to `value`.
    pub fn variant(self, name: &str, value: i64) -> (r: Self)
        ensures
            r.built()@ == DefinitionView::plain(
                DefinitionKind::Enum(upsert(self.built().spec_variants(), name@, value)),
            ).described(self.built()@.description),
            self.built()@.wf() ==> r.built()@.wf(),
    {
        let mut inner = self.inner;
        inner.add_variant(name, value);
        Builder { inner }
    }
}

} // verus!
