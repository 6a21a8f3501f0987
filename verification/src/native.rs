//! Values of the host runtime, as the library hands them out.
//!
//! A native value describes what the host is to build: the library computes
//! the description, and the host turns it into one of its own values.

use crate::json::JsonNumber;
use crate::kinds::VariantType;
use crate::schema::model::ClassSourceView;
use crate::schema::variant::VariantDefinition;
use crate::source::ClassSource;
use vstd::prelude::*;

verus! {

/// What the items of an array of the host are held to.
#[derive(Debug, PartialEq, Eq)]
pub enum ElementType {
    /// Each item can be of any kind.
    Untyped,
    /// Every item is of the kind; where the kind is `Object`, of the class.
    Typed(VariantType, Option<ClassSource>),
}

/// The mathematical value of an [`ElementType`].
pub enum ElementTypeView {
    Untyped,
    Typed(VariantType, Option<ClassSourceView>),
}

impl View for ElementType {
    type V = ElementTypeView;

    open spec fn view(&self) -> ElementTypeView {
        match self {
            ElementType::Untyped => ElementTypeView::Untyped,
            ElementType::Typed(kind, class) => ElementTypeView::Typed(
                *kind,
                match class {
                    Some(source) => Some(source@),
                    None => None,
                },
            ),
        }
    }
}

/// A value of the host runtime.
#[derive(Debug, PartialEq, Eq)]
pub enum NativeValue {
    Nil,
    Bool(bool),
    /// An integer of the signed 64-bit range.
    Int(i64),
    /// An integer above the signed 64-bit range.
    UInt(u64),
    /// The floating-point value nearest to the number.
    Float(JsonNumber),
    String(String),
    /// A sequence of values.
    Array(ElementType, Vec<NativeValue>),
    /// A dictionary with string keys, in the order of its entries.
    Dictionary(Vec<(String, NativeValue)>),
    /// A fresh instance of the class, on which the properties are then set
    /// in order.
    Object(ClassSource, Vec<(String, NativeValue)>),
    /// A value of a built-in composite type, given by its structure.
    Composite(VariantDefinition, Box<NativeValue>),
}

/// The mathematical value of a [`NativeValue`].
pub enum NativeView {
    Nil,
    Bool(bool),
    Int(i64),
    UInt(u64),
    Float(JsonNumber),
    String(Seq<char>),
    Array(ElementTypeView, Seq<NativeView>),
    Dictionary(Seq<(Seq<char>, NativeView)>),
    Object(ClassSourceView, Seq<(Seq<char>, NativeView)>),
    Composite(VariantDefinition, Box<NativeView>),
}

impl NativeView {
    /// The coarse kind of the value.
    pub open spec fn variant_type(self) -> VariantType {
        match self {
            NativeView::Nil => VariantType::Nil,
            NativeView::Bool(_) => VariantType::Bool,
            NativeView::Int(_) => VariantType::Int,
            NativeView::UInt(_) => VariantType::Int,
            NativeView::Float(_) => VariantType::Float,
            NativeView::String(_) => VariantType::String,
            NativeView::Array(_, _) => VariantType::Array,
            NativeView::Dictionary(_) => VariantType::Dictionary,
            NativeView::Object(_, _) => VariantType::Object,
            NativeView::Composite(tag, _) => tag.spec_variant_type(),
        }
    }
}

/// The model of a native value.
pub open spec fn native_view(value: NativeValue) -> NativeView
    decreases value,
{
    match value {
        NativeValue::Nil => NativeView::Nil,
        NativeValue::Bool(b) => NativeView::Bool(b),
        NativeValue::Int(i) => NativeView::Int(i),
        NativeValue::UInt(u) => NativeView::UInt(u),
        NativeValue::Float(n) => NativeView::Float(n),
        NativeValue::String(s) => NativeView::String(s@),
        NativeValue::Array(element, items) => NativeView::Array(element@, native_views(items@)),
        NativeValue::Dictionary(entries) => NativeView::Dictionary(native_entries(entries@)),
        NativeValue::Object(source, properties) => NativeView::Object(
            source@,
            native_entries(properties@),
        ),
        NativeValue::Composite(tag, inner) => NativeView::Composite(
            tag,
            Box::new(native_view(*inner)),
        ),
    }
}

/// The models of a list of native values.
pub open spec fn native_views(items: Seq<NativeValue>) -> Seq<NativeView>
    decreases items,
{
    Seq::new(
        items.len(),
        |i: int|
            if 0 <= i < items.len() {
                native_view(items[i])
            } else {
                NativeView::Nil
            },
    )
}

/// The models of a list of named native values.
pub open spec fn native_entries(entries: Seq<(String, NativeValue)>) -> Seq<(Seq<char>, NativeView)>
    decreases entries,
{
    Seq::new(
        entries.len(),
        |i: int|
            if 0 <= i < entries.len() {
                (entries[i].0@, native_view(entries[i].1))
            } else {
                (Seq::empty(), NativeView::Nil)
            },
    )
}

impl View for NativeValue {
    type V = NativeView;

    open spec fn view(&self) -> NativeView {
        native_view(*self)
    }
}

impl Clone for ElementType {
    fn clone(&self) -> (r: Self)
        ensures
            r@ == self@,
    {
        match self {
            ElementType::Untyped => ElementType::Untyped,
            ElementType::Typed(kind, class) => ElementType::Typed(
                *kind,
                match class {
                    Some(source) => Some(source.clone()),
                    None => None,
                },
            ),
        }
    }
}

/// A copy of a native value.
pub fn clone_native(value: &NativeValue) -> (r: NativeValue)
    ensures
        r@ == value@,
    decreases value, 1nat,
{
    match value {
        NativeValue::Nil => NativeValue::Nil,
        NativeValue::Bool(b) => NativeValue::Bool(*b),
        NativeValue::Int(i) => NativeValue::Int(*i),
        NativeValue::UInt(u) => NativeValue::UInt(*u),
        NativeValue::Float(n) => NativeValue::Float(*n),
        NativeValue::String(s) => NativeValue::String(s.clone()),
        NativeValue::Array(element, items) => NativeValue::Array(
            element.clone(),
            clone_native_items(items),
        ),
        NativeValue::Dictionary(entries) => NativeValue::Dictionary(clone_native_entries(entries)),
        NativeValue::Object(source, properties) => NativeValue::Object(
            source.clone(),
            clone_native_entries(properties),
        ),
        NativeValue::Composite(tag, inner) => NativeValue::Composite(
            *tag,
            Box::new(clone_native(inner)),
        ),
    }
}

fn clone_native_items(items: &Vec<NativeValue>) -> (r: Vec<NativeValue>)
    ensures
        native_views(r@) == native_views(items@),
    decreases items, 0nat,
{
    let mut copy: Vec<NativeValue> = Vec::new();
    let mut i: usize = 0;
    while i < items.len()
        invariant
            i <= items.len(),
            copy@.len() == i,
            forall|k: int| 0 <= k < i ==> (#[trigger] copy@[k])@ == items@[k]@,
        decreases items.len() - i,
    {
        copy.push(clone_native(&items[i]));
        i += 1;
    }
    assert(native_views(copy@) =~= native_views(items@));
    copy
}

fn clone_native_entries(entries: &Vec<(String, NativeValue)>) -> (r: Vec<(String, NativeValue)>)
    ensures
        native_entries(r@) == native_entries(entries@),
    decreases entries, 0nat,
{
    let mut copy: Vec<(String, NativeValue)> = Vec::new();
    let mut i: usize = 0;
    while i < entries.len()
        invariant
            i <= entries.len(),
            copy@.len() == i,
            forall|k: int|
                0 <= k < i ==> (#[trigger] copy@[k]).0@ == entries@[k].0@ && copy@[k].1@
                    == entries@[k].1@,
        decreases entries.len() - i,
    {
        copy.push((entries[i].0.clone(), clone_native(&entries[i].1)));
        i += 1;
    }
    assert(native_entries(copy@) =~= native_entries(entries@));
    copy
}

impl Clone for NativeValue {
    fn clone(&self) -> (r: Self)
        ensures
            r@ == self@,
    {
        clone_native(self)
    }
}

impl NativeValue {
    /// The coarse kind of the value.
    pub fn get_type(&self) -> (r: VariantType)
        ensures
            r == self@.variant_type(),
    {
        match self {
            NativeValue::Nil => VariantType::Nil,
            NativeValue::Bool(_) => VariantType::Bool,
            NativeValue::Int(_) => VariantType::Int,
            NativeValue::UInt(_) => VariantType::Int,
            NativeValue::Float(_) => VariantType::Float,
            NativeValue::String(_) => VariantType::String,
            NativeValue::Array(_, _) => VariantType::Array,
            NativeValue::Dictionary(_) => VariantType::Dictionary,
            NativeValue::Object(_, _) => VariantType::Object,
            NativeValue::Composite(tag, _) => tag.variant_type(),
        }
    }
}

} // verus!
