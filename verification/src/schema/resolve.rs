//! Generation: from the property descriptors of the host's classes to
//! types, classes and a definitions table.

use crate::error::{text_views, Error, ErrorView};
use crate::host::{
    class_index, enum_views, lemma_index_in_range, source_index, ClassInfo, ClassRegistry,
    PropertyTypeInfo,
};
use crate::kinds::{PropertyHint, VariantType};
use crate::names::{find_name, keys_of, names_of, set_entry, upsert};
use crate::schema::definition::{lemma_defs_set, Definitions};
use crate::schema::model::{DefinitionKind, DefinitionView, DefsView, TypeView};
use crate::schema::resolution::{
    class_properties, class_ref, enum_from_path, enum_of, eval_hint, eval_type, free_count,
    generated_properties, idle, lemma_free_count_update, named_definition, property_type,
    raw_definition, Outcome,
};
use crate::schema::types::{
    clone_variants, defs_view, lemma_property_set, property_views, Definition, JClass, JEnum, JRef,
    Type,
};
use crate::schema::variant::VariantDefinition;
use crate::source::ClassSource;
use crate::text::{
    ends_with_gd, enum_path_parts, is_blank, same_text, split_enum_path,
};
use vstd::prelude::*;
use vstd::string::StringExecFns;

verus! {

/// `r`, with the table `table` left behind, is the executable form of
/// `expected`: the same result or the same error, and the same table after
/// either.
pub open spec fn gives_type(r: Result<Type, Error>, table: DefsView, expected: Outcome<TypeView>) -> bool {
    match r {
        Ok(ty) => expected == Ok::<(TypeView, DefsView), (ErrorView, DefsView)>((ty@, table)),
        Err(e) => expected == Err::<(TypeView, DefsView), (ErrorView, DefsView)>((e@, table)),
    }
}

/// `r`, with the table `table` left behind, is the executable form of
/// `expected`: the same result or the same error, and the same table after
/// either.
pub open spec fn gives_properties(
    r: Result<Vec<(String, Type)>, Error>,
    table: DefsView,
    expected: Outcome<Seq<(Seq<char>, TypeView)>>,
) -> bool {
    match r {
        Ok(properties) => expected == Ok::<
            (Seq<(Seq<char>, TypeView)>, DefsView),
            (ErrorView, DefsView),
        >((property_views(properties@), table)),
        Err(e) => expected == Err::<
            (Seq<(Seq<char>, TypeView)>, DefsView),
            (ErrorView, DefsView),
        >((e@, table)),
    }
}

/// The node of a coarse kind that needs no hint: a primitive, a dictionary
/// or a built-in composite type; `None` for the other kinds.
pub fn raw_variant_definition(ty: VariantType) -> (r: Option<Definition>)
    ensures
        match r {
            Some(definition) => raw_definition(ty) == Some(definition@),
            None => raw_definition(ty) is None,
        },
{
    match ty {
        VariantType::Bool => Some(Definition::boolean()),
        VariantType::Int => Some(Definition::integer()),
        VariantType::Float => Some(Definition::number()),
        VariantType::String => Some(Definition::string()),
        VariantType::Dictionary => Some(Definition::dictionary()),
        other => match VariantDefinition::try_from(other) {
            Ok(tag) => Some(Definition::Variant(tag)),
            Err(_) => None,
        },
    }
}

/// The node of a primitive type by the way the host spells it: `int`,
/// `float`, `bool`, `String` or `Dictionary`.
pub fn raw_definition_from_name(name: &str) -> (r: Option<Definition>)
    ensures
        match r {
            Some(definition) => named_definition(name@) == Some(definition@),
            None => named_definition(name@) is None,
        },
{
    if same_text(name, "int") {
        Some(Definition::integer())
    } else if same_text(name, "float") {
        Some(Definition::number())
    } else if same_text(name, "bool") {
        Some(Definition::boolean())
    } else if same_text(name, "String") {
        Some(Definition::string())
    } else if same_text(name, "Dictionary") {
        Some(Definition::dictionary())
    } else {
        None
    }
}

/// A mask in which no class is busy.
fn idle_mask(count: usize) -> (r: Vec<bool>)
    ensures
        r@ == idle(count as nat),
{
    let mut mask: Vec<bool> = Vec::new();
    let mut i: usize = 0;
    while i < count
        invariant
            i <= count,
            mask@.len() == i,
            forall|k: int| 0 <= k < i ==> !mask@[k],
        decreases count - i,
    {
        mask.push(false);
        i += 1;
    }
    assert(mask@ =~= idle(count as nat));
    mask
}

impl JEnum {
    /// The enum called `enum_name` among the enums of `class`. A class of
    /// the engine has an enum only where the enum has two variants at least.
    pub fn from_class_info(class: &ClassInfo, enum_name: &str) -> (r: Result<JEnum, Error>)
        ensures
            match r {
                Ok(found) => enum_of(class@, enum_name@) == Ok::<DefinitionView, ErrorView>(
                    found@,
                ),
                Err(e) => enum_of(class@, enum_name@) == Err::<DefinitionView, ErrorView>(e@),
            },
            r is Ok ==> r.unwrap()@.wf(),
    {
        let key = String::from_str(enum_name);
        proof {
            assert(keys_of(enum_views(class.enums@)) =~= names_of(class.enums@));
        }
        match find_name(&class.enums, &key) {
            None => Err(Error::EnumNotFound(class.source.definition_name(), key)),
            Some(at) => {
                let found = JEnum::new(clone_variants(&class.enums[at].1));
                let engine = match &class.source {
                    ClassSource::Engine(_) => true,
                    _ => false,
                };
                if engine && found.variants.len() < 2 {
                    Err(Error::EnumNotFound(class.source.definition_name(), key))
                } else {
                    Ok(found)
                }
            },
        }
    }

    /// The enum called `enum_name` of a script class.
    pub fn from_gdscript_class(class: &ClassInfo, enum_name: &str) -> (r: Result<JEnum, Error>)
        requires
            !(class.source@ is Engine),
        ensures
            match r {
                Ok(found) => enum_of(class@, enum_name@) == Ok::<DefinitionView, ErrorView>(
                    found@,
                ),
                Err(e) => enum_of(class@, enum_name@) == Err::<DefinitionView, ErrorView>(e@),
            },
    {
        JEnum::from_class_info(class, enum_name)
    }

    /// The enum called `enum_name` of a class of the engine. An enum with
    /// fewer than two variants counts as not found.
    pub fn from_engine_class(class: &ClassInfo, enum_name: &str) -> (r: Result<JEnum, Error>)
        requires
            class.source@ is Engine,
        ensures
            match r {
                Ok(found) => enum_of(class@, enum_name@) == Ok::<DefinitionView, ErrorView>(
                    found@,
                ),
                Err(e) => enum_of(class@, enum_name@) == Err::<DefinitionView, ErrorView>(e@),
            },
    {
        JEnum::from_class_info(class, enum_name)
    }

    /// The enum called `enum_name` of the class with the identity `source`.
    /// A class that the registry lacks is an error.
    pub fn from_class_source(source: &ClassSource, enum_name: &str, registry: &ClassRegistry) -> (r:
        Result<JEnum, Error>)
        ensures
            match source_index(registry@, source@, 0) {
                Some(i) => match r {
                    Ok(found) => enum_of(registry@[i], enum_name@) == Ok::<
                        DefinitionView,
                        ErrorView,
                    >(found@),
                    Err(e) => enum_of(registry@[i], enum_name@) == Err::<DefinitionView, ErrorView>(
                        e@,
                    ),
                },
                None => r is Err && r.unwrap_err()@ == ErrorView::ClassNotFound(
                    source@.definition_name(),
                ),
            },
    {
        match registry.find_source(source) {
            Some(at) => JEnum::from_class_info(&registry.classes[at], enum_name),
            None => Err(Error::ClassNotFound(source.definition_name())),
        }
    }

    /// The enum that the path `ClassName.EnumName` leads to, with the name
    /// under which it goes into a definitions table: the whole path. A path
    /// without a dot or with more than one, a class that the registry lacks
    /// and an enum that the class lacks are errors.
    pub fn from_enum_path(enum_path: &str, registry: &ClassRegistry) -> (r: Result<
        (JEnum, String),
        Error,
    >)
        ensures
            match r {
                Ok(found) => enum_from_path(enum_path@, registry@) == Ok::<
                    (DefinitionView, Seq<char>),
                    ErrorView,
                >((found.0@, found.1@)),
                Err(e) => enum_from_path(enum_path@, registry@) == Err::<
                    (DefinitionView, Seq<char>),
                    ErrorView,
                >(e@),
            },
            r is Ok ==> r.unwrap().0@.wf(),
    {
        let parts = match split_enum_path(enum_path) {
            Some(parts) => parts,
            None => {
                return Err(Error::EnumPathMalformed(String::from_str(enum_path)));
            },
        };
        proof {
            lemma_index_in_range(registry@, parts.0@, 0);
        }
        match registry.find_class(&parts.0) {
            None => Err(Error::ClassNotFound(parts.0)),
            Some(at) => match JEnum::from_class_info(&registry.classes[at], parts.1.as_str()) {
                Ok(found) => Ok((found, String::from_str(enum_path))),
                Err(e) => Err(e),
            },
        }
    }
}

/// Puts an enum into the table and refers to it.
fn register_enum(found: (JEnum, String), defs: &mut Definitions) -> (r: Type)
    ensures
        r@ == TypeView::Ref(None, found.1@),
        defs_view(final(defs)@) == upsert(defs_view(old(defs)@), found.1@, found.0@),
{
    let reference = JRef::new(found.1.as_str());
    proof {
        lemma_defs_set(defs@, found.1, Definition::Enum(found.0));
    }
    set_entry(defs, found.1, Definition::Enum(found.0));
    Type::Ref(reference)
}

/// The type that a second name and a hint payload give.
fn resolve_hint(
    class_name: &String,
    hint_string: &String,
    is_enum: bool,
    registry: &ClassRegistry,
    defs: &mut Definitions,
    busy: &mut Vec<bool>,
) -> (r: Result<Type, Error>)
    requires
        old(busy)@.len() == registry.classes@.len(),
    ensures
        final(busy)@.len() == old(busy)@.len(),
        r is Ok ==> final(busy)@ == old(busy)@,
        gives_type(
            r,
            defs_view(final(defs)@),
            eval_hint(
                class_name@,
                hint_string@,
                is_enum,
                registry@,
                defs_view(old(defs)@),
                old(busy)@,
            ),
        ),
    decreases free_count(old(busy)@), 1nat, 0nat,
{
    if is_enum {
        return match JEnum::from_enum_path(class_name.as_str(), registry) {
            Ok(found) => Ok(register_enum(found, defs)),
            Err(e) => Err(e),
        };
    }
    if !is_blank(class_name.as_str()) {
        return match registry.find_class(class_name) {
            Some(at) => class_reference(at, registry, defs, busy),
            None => Err(Error::ClassNotFound(class_name.clone())),
        };
    }
    if is_blank(hint_string.as_str()) {
        return Ok(Type::Definition(Definition::null()));
    }
    match VariantDefinition::try_from_name(hint_string.as_str()) {
        Some(tag) => {
            return Ok(Type::Definition(Definition::Variant(tag)));
        },
        None => {},
    }
    match raw_definition_from_name(hint_string.as_str()) {
        Some(definition) => {
            return Ok(Type::Definition(definition));
        },
        None => {},
    }
    match registry.find_class(hint_string) {
        Some(at) => {
            return class_reference(at, registry, defs, busy);
        },
        None => {},
    }
    match JEnum::from_enum_path(hint_string.as_str(), registry) {
        Ok(found) => Ok(register_enum(found, defs)),
        Err(_) => Err(Error::UnsupportedHint(hint_string.clone())),
    }
}

/// The type of a property descriptor.
fn resolve_property(
    info: &PropertyTypeInfo,
    registry: &ClassRegistry,
    defs: &mut Definitions,
    busy: &mut Vec<bool>,
) -> (r: Result<Type, Error>)
    requires
        old(busy)@.len() == registry.classes@.len(),
    ensures
        final(busy)@.len() == old(busy)@.len(),
        r is Ok ==> final(busy)@ == old(busy)@,
        gives_type(
            r,
            defs_view(final(defs)@),
            eval_type(info@, registry@, defs_view(old(defs)@), old(busy)@),
        ),
    decreases free_count(old(busy)@), 2nat, 0nat,
{
    let is_enum = info.usage.is_enum();
    match info.variant_type {
        VariantType::Object => resolve_hint(
            &info.class_name,
            &info.hint_string,
            is_enum,
            registry,
            defs,
            busy,
        ),
        VariantType::Array => {
            match info.hint {
                PropertyHint::ArrayType => match resolve_hint(
                    &info.class_name,
                    &info.hint_string,
                    is_enum,
                    registry,
                    defs,
                    busy,
                ) {
                    Ok(item) => Ok(Type::array(item)),
                    Err(e) => Err(e),
                },
                _ => Ok(Type::untyped_array()),
            }
        },
        kind => {
            if is_enum && kind == VariantType::Int {
                resolve_hint(&info.class_name, &info.hint_string, is_enum, registry, defs, busy)
            } else {
                match raw_variant_definition(kind) {
                    Some(definition) => Ok(Type::Definition(definition)),
                    None => Err(Error::UnsupportedKind(kind)),
                }
            }
        },
    }
}

/// The reference to the class at position `index`, which is generated and
/// put into the table unless it is busy.
fn class_reference(
    index: usize,
    registry: &ClassRegistry,
    defs: &mut Definitions,
    busy: &mut Vec<bool>,
) -> (r: Result<Type, Error>)
    requires
        index < registry.classes@.len(),
        old(busy)@.len() == registry.classes@.len(),
    ensures
        final(busy)@.len() == old(busy)@.len(),
        r is Ok ==> final(busy)@ == old(busy)@,
        gives_type(
            r,
            defs_view(final(defs)@),
            class_ref(index as int, registry@, defs_view(old(defs)@), old(busy)@),
        ),
    decreases free_count(old(busy)@), 0nat, 0nat,
{
    let class = &registry.classes[index];
    let name = class.source.definition_name();
    let reference = JRef::new(name.as_str());
    if busy[index] {
        return Ok(Type::Ref(reference));
    }
    proof {
        lemma_free_count_update(busy@, index as int);
    }
    busy.set(index, true);
    let properties = match collect_properties(class, registry, defs, busy) {
        Ok(properties) => properties,
        Err(e) => {
            return Err(e);
        },
    };
    busy.set(index, false);
    assert(busy@ =~= old(busy)@);
    let generated = Definition::Class(
        JClass { description: None, properties, source: class.source.clone() },
    );
    proof {
        lemma_defs_set(defs@, name, generated);
    }
    set_entry(defs, name, generated);
    Ok(Type::Ref(reference))
}

/// The properties of `class`, each descriptor turned into its type.
fn collect_properties(
    class: &ClassInfo,
    registry: &ClassRegistry,
    defs: &mut Definitions,
    busy: &mut Vec<bool>,
) -> (r: Result<Vec<(String, Type)>, Error>)
    requires
        old(busy)@.len() == registry.classes@.len(),
    ensures
        final(busy)@.len() == old(busy)@.len(),
        r is Ok ==> final(busy)@ == old(busy)@,
        gives_properties(
            r,
            defs_view(final(defs)@),
            class_properties(
                class@,
                0,
                registry@,
                defs_view(old(defs)@),
                old(busy)@,
                Seq::empty(),
            ),
        ),
    decreases free_count(old(busy)@), 3nat, class.properties@.len(),
{
    let mut properties: Vec<(String, Type)> = Vec::new();
    let engine = match &class.source {
        ClassSource::Engine(_) => true,
        _ => false,
    };
    let ghost total = class_properties(
        class@,
        0,
        registry@,
        defs_view(defs@),
        busy@,
        Seq::empty(),
    );
    let mut i: usize = 0;
    assert(property_views(properties@) =~= Seq::empty());
    while i < class.properties.len()
        invariant
            i <= class.properties.len(),
            busy@ == old(busy)@,
            busy@.len() == registry.classes@.len(),
            engine == (class.source@ is Engine),
            total == class_properties(
                class@,
                0,
                registry@,
                defs_view(old(defs)@),
                old(busy)@,
                Seq::empty(),
            ),
            class_properties(
                class@,
                i as nat,
                registry@,
                defs_view(defs@),
                busy@,
                property_views(properties@),
            ) == total,
        decreases class.properties.len() - i,
    {
        let info = &class.properties[i];
        assert(class@.properties[i as int] == info@);
        if !engine && ends_with_gd(info.property_name.as_str()) {
            i += 1;
            continue ;
        }
        match resolve_property(info, registry, defs, busy) {
            Err(e) => {
                return Err(e);
            },
            Ok(ty) => {
                let key = info.property_name.clone();
                proof {
                    lemma_property_set(properties@, key, ty);
                }
                set_entry(&mut properties, key, ty);
            },
        }
        i += 1;
    }
    Ok(properties)
}

/// The names that a text may lead to: the text itself, and the class of the
/// enum path that it may be. An empty text leads nowhere.
pub open spec fn lookup_candidates(text: Seq<char>) -> Seq<Seq<char>> {
    if text.len() == 0 {
        seq![]
    } else {
        match enum_path_parts(text) {
            Some((class_name, _)) => seq![text, class_name],
            None => seq![text],
        }
    }
}

/// Appends to `names` the names that `text` may lead to.
fn push_candidates(names: &mut Vec<String>, text: &String)
    ensures
        text_views(final(names)@) == text_views(old(names)@) + lookup_candidates(text@),
{
    if is_blank(text.as_str()) {
        assert(text_views(names@) + seq![] =~= text_views(names@));
        return ;
    }
    let ghost before = text_views(names@);
    names.push(text.clone());
    match split_enum_path(text.as_str()) {
        Some(parts) => {
            names.push(parts.0);
            assert(text_views(names@) =~= before + seq![text@, parts.0@]);
        },
        None => {
            assert(text_views(names@) =~= before + seq![text@]);
        },
    }
}

impl PropertyTypeInfo {
    /// The class names that the registry may be asked for when the type of
    /// the property is resolved: what the second name and the hint payload
    /// may lead to.
    pub fn lookup_names(&self) -> (r: Vec<String>)
        ensures
            text_views(r@) == lookup_candidates(self.class_name@) + lookup_candidates(
                self.hint_string@,
            ),
    {
        let mut names: Vec<String> = Vec::new();
        assert(text_views(names@) =~= seq![]);
        push_candidates(&mut names, &self.class_name);
        push_candidates(&mut names, &self.hint_string);
        assert(seq![] + lookup_candidates(self.class_name@) =~= lookup_candidates(
            self.class_name@,
        ));
        names
    }

    /// The type of the property. Classes and enums that the type refers to
    /// are put into `defs` under their names. An error leaves `defs` as the
    /// generation had left them when it met the error: unchanged where the
    /// property itself has no type.
    pub fn eval_type(&self, registry: &ClassRegistry, defs: &mut Definitions) -> (r: Result<
        Type,
        Error,
    >)
        ensures
            gives_type(
                r,
                defs_view(final(defs)@),
                property_type(self@, registry@, defs_view(old(defs)@)),
            ),
    {
        let mut busy = idle_mask(registry.classes.len());
        resolve_property(self, registry, defs, &mut busy)
    }
}

/// The type that a second name and a hint payload give, with no class
/// busy: see [`eval_hint`].
pub fn eval_no_type_hint(
    class_name: &str,
    hint_string: &str,
    usage: crate::kinds::PropertyUsageFlags,
    registry: &ClassRegistry,
    defs: &mut Definitions,
) -> (r: Result<Type, Error>)
    ensures
        gives_type(
            r,
            defs_view(final(defs)@),
            eval_hint(
                class_name@,
                hint_string@,
                usage.spec_is_enum(),
                registry@,
                defs_view(old(defs)@),
                idle(registry@.len()),
            ),
        ),
{
    let mut busy = idle_mask(registry.classes.len());
    let class_name = String::from_str(class_name);
    let hint_string = String::from_str(hint_string);
    resolve_hint(&class_name, &hint_string, usage.is_enum(), registry, defs, &mut busy)
}

impl ClassSource {
    /// The identity of the class called `class_name`: a class of the engine
    /// before a script with that global name. A name that the registry
    /// lacks is an error.
    pub fn from_class_name(class_name: &str, registry: &ClassRegistry) -> (r: Result<
        ClassSource,
        Error,
    >)
        ensures
            match class_index(registry@, class_name@) {
                Some(i) => r is Ok && r.unwrap()@ == registry@[i].source,
                None => r is Err && r.unwrap_err()@ == ErrorView::ClassNotFound(class_name@),
            },
    {
        let name = String::from_str(class_name);
        match registry.find_class(&name) {
            Some(at) => Ok(registry.classes[at].source.clone()),
            None => Err(Error::ClassNotFound(name)),
        }
    }

    /// The reference to the class.
    pub fn to_reference(&self) -> (r: JRef)
        ensures
            r@ == TypeView::Ref(None, self@.definition_name()),
    {
        JRef::new(self.definition_name().as_str())
    }

    /// The properties of the class by name, each with its type, in the
    /// host's order. Classes and enums that the types refer to are put into
    /// `definitions`. A class that the registry lacks is an error and
    /// leaves `definitions` as they were; a property without a type is an
    /// error and leaves them as the properties before it left them.
    pub fn fetch_property_list(&self, registry: &ClassRegistry, definitions: &mut Definitions) -> (r:
        Result<Vec<(String, Type)>, Error>)
        ensures
            match source_index(registry@, self@, 0) {
                Some(i) => gives_properties(
                    r,
                    defs_view(final(definitions)@),
                    generated_properties(i, registry@, defs_view(old(definitions)@)),
                ),
                None => r is Err && r.unwrap_err()@ == ErrorView::ClassNotFound(
                    self@.definition_name(),
                ) && final(definitions)@ == old(definitions)@,
            },
    {
        match registry.find_source(self) {
            None => Err(Error::ClassNotFound(self.definition_name())),
            Some(at) => {
                let mut busy = idle_mask(registry.classes.len());
                busy.set(at, true);
                collect_properties(&registry.classes[at], registry, definitions, &mut busy)
            },
        }
    }
}

impl JClass {
    /// The class with the identity `source`: its properties are those that
    /// the host lists, each with its type. Classes and enums that the types
    /// refer to are put into `insert_dependencies`. A class that the
    /// registry lacks is an error and leaves the table as it was; a
    /// property without a type is an error and leaves the table as the
    /// properties before it left it.
    pub fn generate(
        source: ClassSource,
        registry: &ClassRegistry,
        insert_dependencies: &mut Definitions,
    ) -> (r: Result<JClass, Error>)
        ensures
            match source_index(registry@, source@, 0) {
                Some(i) => match r {
                    Ok(class) => generated_properties(
                        i,
                        registry@,
                        defs_view(old(insert_dependencies)@),
                    ) == Ok::<(Seq<(Seq<char>, TypeView)>, DefsView), (ErrorView, DefsView)>(
                        (class.spec_properties(), defs_view(final(insert_dependencies)@)),
                    ) && class@ == DefinitionView::plain(
                        DefinitionKind::Class(source@, class.spec_properties()),
                    ),
                    Err(e) => generated_properties(
                        i,
                        registry@,
                        defs_view(old(insert_dependencies)@),
                    ) == Err::<(Seq<(Seq<char>, TypeView)>, DefsView), (ErrorView, DefsView)>(
                        (e@, defs_view(final(insert_dependencies)@)),
                    ),
                },
                None => r is Err && r.unwrap_err()@ == ErrorView::ClassNotFound(
                    source@.definition_name(),
                ) && final(insert_dependencies)@ == old(insert_dependencies)@,
            },
    {
        match source.fetch_property_list(registry, insert_dependencies) {
            Ok(properties) => Ok(JClass { description: None, properties, source }),
            Err(e) => Err(e),
        }
    }
}

} // verus!
