//! Constructors and updates of the node types.

use crate::names::{from_pairs, lemma_from_pairs_unique, set_entry, unique_keys, upsert};
use crate::schema::model::{DefinitionKind, DefinitionView, TypeView};
use crate::schema::types::{
    clone_type, lemma_property_set, lemma_upsert_types_wf, lemma_variant_set, property_views,
    variant_views, Boolean, Integer, JArray, JClass, JEnum, JObject, JRef, JString, JTuple, Null,
    Number, Type,
};
use vstd::prelude::*;
use vstd::string::StringExecFns;

verus! {

/// Every type of the list is well formed.
pub open spec fn all_wf(types: Seq<(Seq<char>, TypeView)>) -> bool {
    forall|i: int| 0 <= i < types.len() ==> (#[trigger] types[i]).1.wf()
}

/// A table made of well-formed types holds well-formed types only.
pub proof fn lemma_from_pairs_wf(pairs: Seq<(Seq<char>, TypeView)>)
    requires
        all_wf(pairs),
    ensures
        all_wf(from_pairs(pairs)),
        unique_keys(from_pairs(pairs)),
    decreases pairs.len(),
{
    lemma_from_pairs_unique(pairs);
    if pairs.len() > 0 {
        let front = pairs.drop_last();
        assert forall|i: int| 0 <= i < front.len() implies (#[trigger] front[i]).1.wf() by {
            assert(front[i] == pairs[i]);
        }
        lemma_from_pairs_wf(front);
        lemma_from_pairs_unique(front);
        lemma_upsert_types_wf(from_pairs(front), pairs.last().0, pairs.last().1);
    }
}

impl Null {
    pub fn new() -> (r: Null)
        ensures
            r@ == DefinitionView::plain(DefinitionKind::Null),
            r@.wf(),
    {
        Null { description: None }
    }

    /// Sets the description.
    pub fn add_description(&mut self, description: &str)
        ensures
            final(self)@ == (DefinitionView { description: Some(description@), ..old(self)@ }),
    {
        self.description = Some(String::from_str(description));
    }
}

impl Boolean {
    pub fn new() -> (r: Boolean)
        ensures
            r@ == DefinitionView::plain(DefinitionKind::Boolean),
            r@.wf(),
    {
        Boolean { description: None }
    }

    /// Sets the description.
    pub fn add_description(&mut self, description: &str)
        ensures
            final(self)@ == (DefinitionView { description: Some(description@), ..old(self)@ }),
    {
        self.description = Some(String::from_str(description));
    }
}

impl Integer {
    pub fn new() -> (r: Integer)
        ensures
            r@ == DefinitionView::plain(DefinitionKind::Integer),
            r@.wf(),
    {
        Integer { description: None }
    }

    /// Sets the description.
    pub fn add_description(&mut self, description: &str)
        ensures
            final(self)@ == (DefinitionView { description: Some(description@), ..old(self)@ }),
    {
        self.description = Some(String::from_str(description));
    }
}

impl Number {
    pub fn new() -> (r: Number)
        ensures
            r@ == DefinitionView::plain(DefinitionKind::Number),
            r@.wf(),
    {
        Number { description: None }
    }

    /// Sets the description.
    pub fn add_description(&mut self, description: &str)
        ensures
            final(self)@ == (DefinitionView { description: Some(description@), ..old(self)@ }),
    {
        self.description = Some(String::from_str(description));
    }
}

impl JString {
    pub fn new() -> (r: JString)
        ensures
            r@ == DefinitionView::plain(DefinitionKind::String),
            r@.wf(),
    {
        JString { description: None }
    }

    /// Sets the description.
    pub fn add_description(&mut self, description: &str)
        ensures
            final(self)@ == (DefinitionView { description: Some(description@), ..old(self)@ }),
    {
        self.description = Some(String::from_str(description));
    }
}

impl JRef {
    /// A reference to the node called `name`, without a description.
    pub fn new(name: &str) -> (r: JRef)
        ensures
            r@ == TypeView::Ref(None, name@),
            r@.wf(),
    {
        JRef { description: None, name: String::from_str(name) }
    }

    /// Sets the description.
    pub fn add_description(&mut self, description: &str)
        ensures
            final(self)@ == TypeView::Ref(Some(description@), old(self).name@),
    {
        self.description = Some(String::from_str(description));
    }
}

impl JArray {
    /// An array whose items all have the type `items_ty`.
    pub fn new(items_ty: Type) -> (r: JArray)
        ensures
            r@ == DefinitionView::plain(DefinitionKind::Array(Some(Box::new(items_ty@)))),
            items_ty@.wf() ==> r@.wf(),
    {
        JArray { description: None, items_ty: Some(Box::new(items_ty)) }
    }

    /// An array whose items can each be of any type.
    pub fn untyped() -> (r: JArray)
        ensures
            r@ == DefinitionView::plain(DefinitionKind::Array(None)),
            r@.wf(),
    {
        JArray { description: None, items_ty: None }
    }

    /// Sets the description.
    pub fn add_description(&mut self, description: &str)
        ensures
            final(self)@ == (DefinitionView { description: Some(description@), ..old(self)@ }),
    {
        self.description = Some(String::from_str(description));
    }
}

impl JTuple {
    /// A tuple with the given type at each position.
    pub fn new(items: Vec<Type>) -> (r: JTuple)
        ensures
            r@ == DefinitionView::plain(
                DefinitionKind::Tuple(crate::schema::types::type_views(items@)),
            ),
            (forall|i: int| 0 <= i < items@.len() ==> (#[trigger] items@[i])@.wf()) ==> r@.wf(),
    {
        JTuple { description: None, items }
    }

    /// Sets the description.
    pub fn add_description(&mut self, description: &str)
        ensures
            final(self)@ == (DefinitionView { description: Some(description@), ..old(self)@ }),
    {
        self.description = Some(String::from_str(description));
    }
}

impl JObject {
    /// The properties of the object, in order.
    pub open spec fn spec_properties(&self) -> Seq<(Seq<char>, TypeView)> {
        property_views(self.properties@)
    }

    /// An object without properties: a dictionary.
    pub fn new() -> (r: JObject)
        ensures
            r@ == DefinitionView::plain(DefinitionKind::Object(Seq::empty())),
            r@.wf(),
    {
        let r = JObject { description: None, properties: Vec::new() };
        assert(property_views(r.properties@) =~= Seq::empty());
        r
    }

    /// Sets the property `key` to the type `ty`: in place where the object
    /// has the property, at the end where it has not.
    pub fn add_property(&mut self, key: &str, ty: Type)
        ensures
            final(self)@ == DefinitionView::plain(
                DefinitionKind::Object(upsert(old(self).spec_properties(), key@, ty@)),
            ).described(old(self)@.description),
            old(self)@.wf() && ty@.wf() ==> final(self)@.wf(),
    {
        let key = String::from_str(key);
        proof {
            lemma_property_set(self.properties@, key, ty);
            if old(self)@.wf() && ty@.wf() {
                lemma_upsert_types_wf(old(self).spec_properties(), key@, ty@);
            }
        }
        set_entry(&mut self.properties, key, ty);
    }

    /// The object with the given properties; of two of one name the later
    /// one counts.
    pub fn with_properties(properties: Vec<(String, Type)>) -> (r: JObject)
        ensures
            r@ == DefinitionView::plain(
                DefinitionKind::Object(from_pairs(property_views(properties@))),
            ),
            all_wf(property_views(properties@)) ==> r@.wf(),
    {
        let mut object = JObject::new();
        let mut i: usize = 0;
        let ghost pairs = property_views(properties@);
        assert(pairs.take(0) =~= Seq::empty());
        while i < properties.len()
            invariant
                i <= properties.len(),
                pairs == property_views(properties@),
                object.description is None,
                object.spec_properties() == from_pairs(pairs.take(i as int)),
            decreases properties.len() - i,
        {
            assert(pairs.take(i + 1).drop_last() =~= pairs.take(i as int));
            assert(pairs.take(i + 1).last() == pairs[i as int]);
            object.add_property(properties[i].0.as_str(), clone_type(&properties[i].1));
            i += 1;
        }
        assert(pairs.take(properties@.len() as int) =~= pairs);
        proof {
            if all_wf(pairs) {
                lemma_from_pairs_wf(pairs);
            }
        }
        object
    }

    /// Sets the description.
    pub fn add_description(&mut self, description: &str)
        ensures
            final(self)@ == (DefinitionView { description: Some(description@), ..old(self)@ }),
    {
        self.description = Some(String::from_str(description));
    }
}

impl JEnum {
    /// The variants of the enum, in order.
    pub open spec fn spec_variants(&self) -> Seq<(Seq<char>, i64)> {
        variant_views(self.variants@)
    }

    /// The enum with the given variants; of two of one name the later one
    /// counts.
    pub fn new(variants: Vec<(String, i64)>) -> (r: JEnum)
        ensures
            r@ == DefinitionView::plain(DefinitionKind::Enum(from_pairs(variant_views(variants@)))),
            r@.wf(),
    {
        let mut result = JEnum { description: None, variants: Vec::new() };
        let mut i: usize = 0;
        let ghost pairs = variant_views(variants@);
        assert(pairs.take(0) =~= Seq::empty());
        assert(result.spec_variants() =~= Seq::empty());
        while i < variants.len()
            invariant
                i <= variants.len(),
                pairs == variant_views(variants@),
                result.description is None,
                result.spec_variants() == from_pairs(pairs.take(i as int)),
            decreases variants.len() - i,
        {
            assert(pairs.take(i + 1).drop_last() =~= pairs.take(i as int));
            assert(pairs.take(i + 1).last() == pairs[i as int]);
            result.add_variant(variants[i].0.as_str(), variants[i].1);
            i += 1;
        }
        assert(pairs.take(variants@.len() as int) =~= pairs);
        proof {
            lemma_from_pairs_unique(pairs);
        }
        result
    }

    /// Sets the variant `variant` to `value`: in place where the enum has
    /// the variant, at the end where it has not.
    pub fn add_variant(&mut self, variant: &str, value: i64)
        ensures
            final(self)@ == DefinitionView::plain(
                DefinitionKind::Enum(upsert(old(self).spec_variants(), variant@, value)),
            ).described(old(self)@.description),
            old(self)@.wf() ==> final(self)@.wf(),
    {
        let key = String::from_str(variant);
        proof {
            lemma_variant_set(self.variants@, key, value);
            if old(self)@.wf() {
                crate::names::lemma_upsert_unique(old(self).spec_variants(), key@, value);
            }
        }
        set_entry(&mut self.variants, key, value);
    }

    /// Sets the description.
    pub fn add_description(&mut self, description: &str)
        ensures
            final(self)@ == (DefinitionView { description: Some(description@), ..old(self)@ }),
    {
        self.description = Some(String::from_str(description));
    }
}

impl JClass {
    /// The properties of the class, in order.
    pub open spec fn spec_properties(&self) -> Seq<(Seq<char>, TypeView)> {
        property_views(self.properties@)
    }

    /// Sets the property `name` to the type `ty`: in place where the class
    /// has the property, at the end where it has not.
    pub fn add_property(&mut self, name: &str, ty: Type)
        ensures
            final(self)@ == DefinitionView::plain(
                DefinitionKind::Class(
                    old(self).source@,
                    upsert(old(self).spec_properties(), name@, ty@),
                ),
            ).described(old(self)@.description),
            old(self)@.wf() && ty@.wf() ==> final(self)@.wf(),
    {
        let key = String::from_str(name);
        proof {
            lemma_property_set(self.properties@, key, ty);
            if old(self)@.wf() && ty@.wf() {
                lemma_upsert_types_wf(old(self).spec_properties(), key@, ty@);
            }
        }
        set_entry(&mut self.properties, key, ty);
    }

    /// Sets the description.
    pub fn add_description(&mut self, description: &str)
        ensures
            final(self)@ == (DefinitionView { description: Some(description@), ..old(self)@ }),
    {
        self.description = Some(String::from_str(description));
    }
}

impl Default for Null {
    fn default() -> (r: Self)
        ensures
            r@ == DefinitionView::plain(DefinitionKind::Null),
            r@.wf(),
    {
        Null::new()
    }
}

impl Default for Boolean {
    fn default() -> (r: Self)
        ensures
            r@ == DefinitionView::plain(DefinitionKind::Boolean),
            r@.wf(),
    {
        Boolean::new()
    }
}

impl Default for Integer {
    fn default() -> (r: Self)
        ensures
            r@ == DefinitionView::plain(DefinitionKind::Integer),
            r@.wf(),
    {
        Integer::new()
    }
}

impl Default for Number {
    fn default() -> (r: Self)
        ensures
            r@ == DefinitionView::plain(DefinitionKind::Number),
            r@.wf(),
    {
        Number::new()
    }
}

impl Default for JString {
    fn default() -> (r: Self)
        ensures
            r@ == DefinitionView::plain(DefinitionKind::String),
            r@.wf(),
    {
        JString::new()
    }
}

impl Default for JObject {
    fn default() -> (r: Self)
        ensures
            r@ == DefinitionView::plain(DefinitionKind::Object(Seq::empty())),
            r@.wf(),
    {
        JObject::new()
    }
}

impl Default for JEnum {
    fn default() -> (r: Self)
        ensures
            r@ == DefinitionView::plain(DefinitionKind::Enum(Seq::empty())),
            r@.wf(),
    {
        let empty: Vec<(String, i64)> = Vec::new();
        JEnum::new(empty)
    }
}

} // verus!
