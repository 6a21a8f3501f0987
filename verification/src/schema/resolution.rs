//! What generation yields: the type of a property descriptor, the
//! properties of a class, and the definitions table that they leave behind.
//!
//! A class is generated from the descriptors of its properties. A property
//! that names a class has that class generated in turn and put into the
//! table under its name; the property itself becomes a reference. While a
//! class is being generated it is busy, and a property that names a busy
//! class becomes a reference at once: this is what cuts a cycle of classes.

use crate::error::ErrorView;
use crate::host::{class_index, ClassView, PropertyView, RegistryView};
use crate::kinds::{PropertyHint, VariantType};
use crate::names::{from_pairs, lookup, upsert};
use crate::schema::catalog::{in_place, spec_try_from_name};
use crate::schema::model::{ClassSourceView, DefinitionKind, DefinitionView, DefsView, TypeView};
use crate::schema::variant::VariantDefinition;
use crate::text::{enum_path_parts, is_script_file};
use vstd::prelude::*;

verus! {

/// What a step of generation yields: a result, or the error that ends the
/// generation, each with the definitions table as the step leaves it.
pub type Outcome<T> = Result<(T, DefsView), (ErrorView, DefsView)>;

/// How many classes are not busy.
pub open spec fn free_count(busy: Seq<bool>) -> nat
    decreases busy.len(),
{
    if busy.len() == 0 {
        0
    } else {
        free_count(busy.drop_last()) + if busy.last() {
            0nat
        } else {
            1nat
        }
    }
}

/// A class that becomes busy is one free class less.
pub proof fn lemma_free_count_update(busy: Seq<bool>, i: int)
    requires
        0 <= i < busy.len(),
        !busy[i],
    ensures
        free_count(busy.update(i, true)) + 1 == free_count(busy),
    decreases busy.len(),
{
    let after = busy.update(i, true);
    if i == busy.len() - 1 {
        assert(after.drop_last() =~= busy.drop_last());
    } else {
        assert(after.drop_last() =~= busy.drop_last().update(i, true));
        lemma_free_count_update(busy.drop_last(), i);
    }
}

/// The node of a coarse kind that needs no hint: a primitive, a dictionary,
/// or a built-in composite type. The other kinds have none.
pub open spec fn raw_definition(kind: VariantType) -> Option<DefinitionView> {
    match kind {
        VariantType::Bool => Some(DefinitionView::plain(DefinitionKind::Boolean)),
        VariantType::Int => Some(DefinitionView::plain(DefinitionKind::Integer)),
        VariantType::Float => Some(DefinitionView::plain(DefinitionKind::Number)),
        VariantType::String => Some(DefinitionView::plain(DefinitionKind::String)),
        VariantType::Dictionary => Some(DefinitionView::plain(DefinitionKind::Object(Seq::empty()))),
        other => match VariantDefinition::spec_try_from(other) {
            Some(tag) => Some(DefinitionView::plain(DefinitionKind::Variant(tag))),
            None => None,
        },
    }
}

/// The node of a primitive type by the way the host spells it.
pub open spec fn named_definition(name: Seq<char>) -> Option<DefinitionView> {
    if name == "int"@ {
        Some(DefinitionView::plain(DefinitionKind::Integer))
    } else if name == "float"@ {
        Some(DefinitionView::plain(DefinitionKind::Number))
    } else if name == "bool"@ {
        Some(DefinitionView::plain(DefinitionKind::Boolean))
    } else if name == "String"@ {
        Some(DefinitionView::plain(DefinitionKind::String))
    } else if name == "Dictionary"@ {
        Some(DefinitionView::plain(DefinitionKind::Object(Seq::empty())))
    } else {
        None
    }
}

/// The enum called `name` of a class. A class of the engine has an enum
/// only where the enum has two variants at least.
pub open spec fn enum_of(class: ClassView, name: Seq<char>) -> Result<DefinitionView, ErrorView> {
    match lookup(class.enums, name) {
        None => Err(ErrorView::EnumNotFound(class.source.definition_name(), name)),
        Some(variants) => if class.source is Engine && from_pairs(variants).len() < 2 {
            Err(ErrorView::EnumNotFound(class.source.definition_name(), name))
        } else {
            Ok(DefinitionView::plain(DefinitionKind::Enum(from_pairs(variants))))
        },
    }
}

/// The enum that the path `ClassName.EnumName` leads to, with the name
/// under which it is put into the table: the whole path, so that enums of
/// one name in two classes stand under two names.
pub open spec fn enum_from_path(path: Seq<char>, registry: RegistryView) -> Result<
    (DefinitionView, Seq<char>),
    ErrorView,
> {
    match enum_path_parts(path) {
        None => Err(ErrorView::EnumPathMalformed(path)),
        Some((class_name, enum_name)) => match class_index(registry, class_name) {
            Some(i) => if 0 <= i < registry.len() {
                match enum_of(registry[i], enum_name) {
                    Ok(definition) => Ok((definition, path)),
                    Err(e) => Err(e),
                }
            } else {
                Err(ErrorView::ClassNotFound(class_name))
            },
            None => Err(ErrorView::ClassNotFound(class_name)),
        },
    }
}

/// A property that the host lists for its own bookkeeping: the file name
/// that a script carries as a property.
pub open spec fn is_bookkeeping(source: ClassSourceView, property_name: Seq<char>) -> bool {
    !(source is Engine) && is_script_file(property_name)
}

/// The type of a property descriptor.
///
/// - An integer that is marked as an enum, and an object: by the second
///   name and the hint payload, see [`eval_hint`].
/// - An array with an item hint: an array of what the second name and the
///   payload give. An array without: an array of items of any type.
/// - Any other kind: its node by [`raw_definition`], written in place; a
///   kind without a node is an error.
pub open spec fn eval_type(
    info: PropertyView,
    registry: RegistryView,
    defs: DefsView,
    busy: Seq<bool>,
) -> Outcome<TypeView>
    decreases free_count(busy), 2nat, 0nat,
{
    if (info.variant_type == VariantType::Int && info.usage.spec_is_enum()) || info.variant_type
        == VariantType::Object {
        eval_hint(info.class_name, info.hint_string, info.usage.spec_is_enum(), registry, defs, busy)
    } else if info.variant_type == VariantType::Array {
        if info.hint == PropertyHint::ArrayType {
            match eval_hint(
                info.class_name,
                info.hint_string,
                info.usage.spec_is_enum(),
                registry,
                defs,
                busy,
            ) {
                Ok((item, table)) => Ok((in_place(DefinitionKind::Array(Some(Box::new(item)))), table)),
                Err(e) => Err(e),
            }
        } else {
            Ok((in_place(DefinitionKind::Array(None)), defs))
        }
    } else {
        match raw_definition(info.variant_type) {
            Some(definition) => Ok((TypeView::Definition(definition), defs)),
            None => Err((ErrorView::UnsupportedKind(info.variant_type), defs)),
        }
    }
}

/// The type that a second name and a hint payload give. The first of these
/// that applies decides:
///
/// 1. With the enum flag, the second name is an enum path: the enum is put
///    into the table under its path and referred to.
/// 2. A second name that is not empty is the name of a class: the class,
///    see [`class_ref`]. A name that the registry lacks is an error.
/// 3. An empty payload: `null`, written in place.
/// 4. A payload that is the name of a built-in composite type: that type,
///    written in place.
/// 5. A payload that spells a primitive type: that type, written in place.
/// 6. A payload that is the name of a class: the class.
/// 7. A payload that is an enum path: the enum, put into the table under
///    its path and referred to.
///
/// A payload to which none applies is an error. An error leaves the table
/// as it was.
pub open spec fn eval_hint(
    class_name: Seq<char>,
    hint_string: Seq<char>,
    is_enum: bool,
    registry: RegistryView,
    defs: DefsView,
    busy: Seq<bool>,
) -> Outcome<TypeView>
    decreases free_count(busy), 1nat, 0nat,
{
    if is_enum {
        match enum_from_path(class_name, registry) {
            Ok((definition, name)) => Ok((TypeView::Ref(None, name), upsert(defs, name, definition))),
            Err(e) => Err((e, defs)),
        }
    } else if class_name.len() > 0 {
        match class_index(registry, class_name) {
            Some(index) => class_ref(index, registry, defs, busy),
            None => Err((ErrorView::ClassNotFound(class_name), defs)),
        }
    } else if hint_string.len() == 0 {
        Ok((in_place(DefinitionKind::Null), defs))
    } else if spec_try_from_name(hint_string) is Some {
        Ok((in_place(DefinitionKind::Variant(spec_try_from_name(hint_string).unwrap())), defs))
    } else if named_definition(hint_string) is Some {
        Ok((TypeView::Definition(named_definition(hint_string).unwrap()), defs))
    } else if class_index(registry, hint_string) is Some {
        class_ref(class_index(registry, hint_string).unwrap(), registry, defs, busy)
    } else {
        match enum_from_path(hint_string, registry) {
            Ok((definition, name)) => Ok((TypeView::Ref(None, name), upsert(defs, name, definition))),
            Err(_) => Err((ErrorView::UnsupportedHint(hint_string), defs)),
        }
    }
}

/// The reference to the class at position `index`. A class that is busy is
/// referred to as it is. Any other class is generated with itself busy, and
/// put into the table under its name.
pub open spec fn class_ref(
    index: int,
    registry: RegistryView,
    defs: DefsView,
    busy: Seq<bool>,
) -> Outcome<TypeView>
    decreases free_count(busy), 0nat, 0nat,
{
    if 0 <= index < registry.len() && busy.len() == registry.len() {
        let class = registry[index];
        let name = class.source.definition_name();
        if busy[index] {
            Ok((TypeView::Ref(None, name), defs))
        } else {
            proof {
                lemma_free_count_update(busy, index);
            }
            match class_properties(
                class,
                0,
                registry,
                defs,
                busy.update(index, true),
                Seq::empty(),
            ) {
                Ok((properties, table)) => Ok(
                    (
                        TypeView::Ref(None, name),
                        upsert(
                            table,
                            name,
                            DefinitionView::plain(DefinitionKind::Class(class.source, properties)),
                        ),
                    ),
                ),
                Err(e) => Err(e),
            }
        }
    } else {
        Err((ErrorView::ClassNotFound(Seq::empty()), defs))
    }
}

/// The properties of `class` from the descriptor at `from` on, added to
/// the properties `done`: each descriptor in the host's order, without
/// those of the host's bookkeeping. Of two properties of one name the later
/// one counts. The first descriptor that has no type ends the generation,
/// with the table as the descriptors before it left it.
pub open spec fn class_properties(
    class: ClassView,
    from: nat,
    registry: RegistryView,
    defs: DefsView,
    busy: Seq<bool>,
    done: Seq<(Seq<char>, TypeView)>,
) -> Outcome<Seq<(Seq<char>, TypeView)>>
    decreases free_count(busy), 3nat, class.properties.len() - from,
{
    if from >= class.properties.len() {
        Ok((done, defs))
    } else {
        let info = class.properties[from as int];
        if is_bookkeeping(class.source, info.property_name) {
            class_properties(class, from + 1, registry, defs, busy, done)
        } else {
            match eval_type(info, registry, defs, busy) {
                Ok((ty, table)) => class_properties(
                    class,
                    from + 1,
                    registry,
                    table,
                    busy,
                    upsert(done, info.property_name, ty),
                ),
                Err(e) => Err(e),
            }
        }
    }
}

/// No class is busy.
pub open spec fn idle(count: nat) -> Seq<bool> {
    Seq::new(count, |i: int| false)
}

/// The type of a property descriptor, with no class busy.
pub open spec fn property_type(info: PropertyView, registry: RegistryView, defs: DefsView) -> Outcome<
    TypeView,
> {
    eval_type(info, registry, defs, idle(registry.len()))
}

/// The properties of the class at position `index`, generated with no class
/// busy but the class itself.
pub open spec fn generated_properties(index: int, registry: RegistryView, defs: DefsView) -> Outcome<
    Seq<(Seq<char>, TypeView)>,
> {
    class_properties(
        registry[index],
        0,
        registry,
        defs,
        idle(registry.len()).update(index, true),
        Seq::empty(),
    )
}

} // verus!
