//! Instantiation: from a JSON value and a schema node to a native value.

use crate::error::{text_views, Error, ErrorView, ExpectedKind};
use crate::json::{json_views, lemma_member_names, member_views, JsonNumber, JsonValue};
use crate::kinds::VariantType;
use crate::names::{find_name, keys_of, names_of};
use crate::native::{native_entries, native_views, ElementType, NativeValue, NativeView};
use crate::schema::conversion::{
    after, array_items, class_members, composite_step, convert, element_type_of, first_missing,
    instantiate, integer_native, lemma_after_cons, lemma_after_nothing, lemma_after_start,
    object_entries, raw_element_type, raw_items, raw_members, raw_native, tuple_items, Converted,
};
use crate::schema::definition::Definitions;
use crate::schema::types::{
    defs_view, lemma_property_names, lemma_variant_names, property_views, type_views,
    variant_views, Definition, JClass, Type,
};
use vstd::prelude::*;

verus! {

/// `r` is the executable form of `expected`.
pub open spec fn yields(r: Result<NativeValue, Error>, expected: Converted) -> bool {
    match r {
        Ok(value) => expected == Ok::<NativeView, ErrorView>(value@),
        Err(e) => expected == Err::<NativeView, ErrorView>(e@),
    }
}

/// `r` is the executable form of the list `expected`.
pub open spec fn yields_values(
    r: Result<Vec<NativeValue>, Error>,
    expected: Result<Seq<NativeView>, ErrorView>,
) -> bool {
    match r {
        Ok(values) => expected == Ok::<Seq<NativeView>, ErrorView>(native_views(values@)),
        Err(e) => expected == Err::<Seq<NativeView>, ErrorView>(e@),
    }
}

/// `r` is the executable form of the named list `expected`.
pub open spec fn yields_entries(
    r: Result<Vec<(String, NativeValue)>, Error>,
    expected: Result<Seq<(Seq<char>, NativeView)>, ErrorView>,
) -> bool {
    match r {
        Ok(entries) => expected == Ok::<Seq<(Seq<char>, NativeView)>, ErrorView>(
            native_entries(entries@),
        ),
        Err(e) => expected == Err::<Seq<(Seq<char>, NativeView)>, ErrorView>(e@),
    }
}

/// What the items of an array are held to whose item type is `ty`.
pub fn new_array_from_def(ty: &Definition) -> (r: ElementType)
    ensures
        r@ == element_type_of(ty@),
{
    match ty {
        Definition::Class(class) => ElementType::Typed(
            VariantType::Object,
            Some(class.source.clone()),
        ),
        Definition::Boolean(_) => ElementType::Typed(VariantType::Bool, None),
        Definition::Integer(_) => ElementType::Typed(VariantType::Int, None),
        Definition::Number(_) => ElementType::Typed(VariantType::Float, None),
        Definition::String(_) => ElementType::Typed(VariantType::String, None),
        Definition::Array(_) => ElementType::Typed(VariantType::Array, None),
        Definition::Object(_) => ElementType::Typed(VariantType::Dictionary, None),
        Definition::Null(_) => ElementType::Typed(VariantType::Nil, None),
        Definition::Enum(_) => ElementType::Typed(VariantType::Int, None),
        Definition::Tuple(_) => ElementType::Typed(VariantType::Array, None),
        Definition::Variant(tag) => ElementType::Typed(tag.variant_type(), None),
    }
}

/// What the items of an untyped array are held to: the kind of the first
/// item where every item is of that kind, nothing otherwise.
fn raw_array_type(values: &Vec<NativeValue>) -> (r: ElementType)
    ensures
        r@ == raw_element_type(native_views(values@)),
{
    if values.len() == 0 {
        return ElementType::Untyped;
    }
    let first = values[0].get_type();
    let ghost views = native_views(values@);
    let mut i: usize = 1;
    while i < values.len()
        invariant
            1 <= i <= values.len(),
            views == native_views(values@),
            first == views[0].variant_type(),
            forall|k: int| 0 <= k < i ==> (#[trigger] views[k]).variant_type() == first,
        decreases values.len() - i,
    {
        if values[i].get_type() != first {
            assert(views[i as int].variant_type() != views[0].variant_type());
            return ElementType::Untyped;
        }
        i += 1;
    }
    ElementType::Typed(first, None)
}

/// The native value of a number where no type is declared.
fn raw_number_value(n: &JsonNumber) -> (r: NativeValue)
    ensures
        r@ == crate::schema::conversion::raw_number(*n),
{
    match n.as_i64() {
        Some(i) => NativeValue::Int(i),
        None => match n.as_u64() {
            Some(u) => NativeValue::UInt(u),
            None => NativeValue::Float(*n),
        },
    }
}

/// The native values of `items` where no type is declared.
fn raw_list(items: &Vec<JsonValue>) -> (r: Vec<NativeValue>)
    ensures
        native_views(r@) == raw_items(json_views(items@)),
    decreases items, 0nat,
{
    let mut values: Vec<NativeValue> = Vec::new();
    let mut i: usize = 0;
    while i < items.len()
        invariant
            i <= items.len(),
            values@.len() == i,
            forall|k: int| 0 <= k < i ==> (#[trigger] values@[k])@ == raw_native(items@[k]@),
        decreases items.len() - i,
    {
        values.push(raw_value(&items[i]));
        i += 1;
    }
    assert(native_views(values@) =~= raw_items(json_views(items@)));
    values
}

/// The native value of `value` where no type is declared.
fn raw_value(value: &JsonValue) -> (r: NativeValue)
    ensures
        r@ == raw_native(value@),
    decreases value, 1nat,
{
    match value {
        JsonValue::Null => NativeValue::Nil,
        JsonValue::Bool(b) => NativeValue::Bool(*b),
        JsonValue::Number(n) => raw_number_value(n),
        JsonValue::String(s) => NativeValue::String(s.clone()),
        JsonValue::Array(items) => {
            let values = raw_list(items);
            let element = raw_array_type(&values);
            NativeValue::Array(element, values)
        },
        JsonValue::Object(members) => NativeValue::Dictionary(raw_dictionary(members)),
    }
}

/// The native values of `members` where no type is declared.
fn raw_dictionary(members: &Vec<(String, JsonValue)>) -> (r: Vec<(String, NativeValue)>)
    ensures
        native_entries(r@) == raw_members(member_views(members@)),
    decreases members, 0nat,
{
    let mut entries: Vec<(String, NativeValue)> = Vec::new();
    let mut i: usize = 0;
    while i < members.len()
        invariant
            i <= members.len(),
            entries@.len() == i,
            forall|k: int|
                0 <= k < i ==> (#[trigger] entries@[k]).0@ == members@[k].0@ && entries@[k].1@
                    == raw_native(members@[k].1@),
        decreases members.len() - i,
    {
        entries.push((members[i].0.clone(), raw_value(&members[i].1)));
        i += 1;
    }
    assert(native_entries(entries@) =~= raw_members(member_views(members@)));
    entries
}

/// The native value of `value` where no type is declared: `null`, a
/// boolean and a string as themselves; a number as an integer where it is
/// one, else as a float; an array with its items held to the kind of the
/// first where all are of that kind; an object as a dictionary. There is no
/// JSON value for which this fails.
pub fn raw_variant_from_json(value: &JsonValue) -> (r: Result<NativeValue, Error>)
    ensures
        r is Ok,
        r.unwrap()@ == raw_native(value@),
{
    Ok(raw_value(value))
}

/// The native value of a number where an integer from `lo` to `hi` is asked for.
fn integer_value(n: &JsonNumber, lo: i64, hi: u64) -> (r: Result<NativeValue, Error>)
    ensures
        yields(r, integer_native(*n, lo as int, hi as int)),
{
    match n {
        JsonNumber::Float(_) => Err(Error::ExpectedIntegerGotFloat),
        JsonNumber::PosInt(u) => {
            let above = lo <= 0 || (lo as u64) <= *u;
            if above && *u <= hi {
                if *u <= 0x7fff_ffff_ffff_ffffu64 {
                    Ok(NativeValue::Int(*u as i64))
                } else {
                    Ok(NativeValue::UInt(*u))
                }
            } else {
                Err(Error::IntegerOutOfRange)
            }
        },
        JsonNumber::NegInt(i) => {
            let below = *i < 0 || (*i as u64) <= hi;
            if lo <= *i && below {
                Ok(NativeValue::Int(*i))
            } else {
                Err(Error::IntegerOutOfRange)
            }
        },
    }
}

/// The names of the variants, in order.
fn variant_names(variants: &Vec<(String, i64)>) -> (r: Vec<String>)
    ensures
        text_views(r@) == keys_of(variant_views(variants@)),
{
    let mut names: Vec<String> = Vec::new();
    let mut i: usize = 0;
    while i < variants.len()
        invariant
            i <= variants.len(),
            names@.len() == i,
            forall|k: int| 0 <= k < i ==> (#[trigger] names@[k])@ == variants@[k].0@,
        decreases variants.len() - i,
    {
        names.push(variants[i].0.clone());
        i += 1;
    }
    assert(text_views(names@) =~= keys_of(variant_views(variants@)));
    names
}

/// Each item converted under `definition`, or the first error.
fn convert_items(
    definition: &Definition,
    items: &Vec<JsonValue>,
    defs: &Definitions,
    lo: i64,
    hi: u64,
) -> (r: Result<Vec<NativeValue>, Error>)
    ensures
        yields_values(
            r,
            array_items(
                definition@,
                json_views(items@),
                0,
                defs_view(defs@),
                lo as int,
                hi as int,
            ),
        ),
    decreases items, 0nat,
{
    let mut values: Vec<NativeValue> = Vec::new();
    let mut i: usize = 0;
    let ghost views = json_views(items@);
    let ghost table = defs_view(defs@);
    let ghost total = array_items(definition@, views, 0, table, lo as int, hi as int);
    proof {
        lemma_after_start(total);
        assert(native_views(values@) =~= Seq::empty());
    }
    while i < items.len()
        invariant
            i <= items.len(),
            views == json_views(items@),
            table == defs_view(defs@),
            total == array_items(definition@, views, 0, table, lo as int, hi as int),
            after(
                native_views(values@),
                array_items(definition@, views, i as nat, table, lo as int, hi as int),
            ) == total,
        decreases items.len() - i,
    {
        match convert_in(definition, &items[i], defs, lo, hi) {
            Err(e) => {
                return Err(e);
            },
            Ok(value) => {
                proof {
                    lemma_after_cons(
                        native_views(values@),
                        value@,
                        array_items(
                            definition@,
                            views,
                            (i + 1) as nat,
                            table,
                            lo as int,
                            hi as int,
                        ),
                    );
                    assert(native_views(values@.push(value)) =~= native_views(values@).push(
                        value@,
                    ));
                }
                values.push(value);
            },
        }
        i += 1;
    }
    proof {
        lemma_after_nothing(native_views(values@));
    }
    Ok(values)
}

/// Each item converted under the type of its position, or the first error.
fn convert_tuple(
    types: &Vec<Type>,
    items: &Vec<JsonValue>,
    defs: &Definitions,
    lo: i64,
    hi: u64,
) -> (r: Result<Vec<NativeValue>, Error>)
    requires
        types.len() == items.len(),
    ensures
        yields_values(
            r,
            tuple_items(
                type_views(types@),
                json_views(items@),
                0,
                defs_view(defs@),
                lo as int,
                hi as int,
            ),
        ),
    decreases items, 0nat,
{
    let mut values: Vec<NativeValue> = Vec::new();
    let mut i: usize = 0;
    let ghost views = json_views(items@);
    let ghost kinds = type_views(types@);
    let ghost table = defs_view(defs@);
    let ghost total = tuple_items(kinds, views, 0, table, lo as int, hi as int);
    proof {
        lemma_after_start(total);
        assert(native_views(values@) =~= Seq::empty());
    }
    while i < items.len()
        invariant
            i <= items.len(),
            types.len() == items.len(),
            views == json_views(items@),
            kinds == type_views(types@),
            table == defs_view(defs@),
            total == tuple_items(kinds, views, 0, table, lo as int, hi as int),
            after(
                native_views(values@),
                tuple_items(kinds, views, i as nat, table, lo as int, hi as int),
            ) == total,
        decreases items.len() - i,
    {
        let definition = match types[i].resolve(defs) {
            Ok(definition) => definition,
            Err(e) => {
                return Err(e);
            },
        };
        match convert_in(definition, &items[i], defs, lo, hi) {
            Err(e) => {
                return Err(e);
            },
            Ok(value) => {
                proof {
                    lemma_after_cons(
                        native_views(values@),
                        value@,
                        tuple_items(kinds, views, (i + 1) as nat, table, lo as int, hi as int),
                    );
                    assert(native_views(values@.push(value)) =~= native_views(values@).push(
                        value@,
                    ));
                }
                values.push(value);
            },
        }
        i += 1;
    }
    proof {
        lemma_after_nothing(native_views(values@));
    }
    Ok(values)
}

/// Each declared property with its member converted, or the first error.
fn convert_object(
    properties: &Vec<(String, Type)>,
    members: &Vec<(String, JsonValue)>,
    defs: &Definitions,
    lo: i64,
    hi: u64,
) -> (r: Result<Vec<(String, NativeValue)>, Error>)
    ensures
        yields_entries(
            r,
            object_entries(
                property_views(properties@),
                0,
                member_views(members@),
                defs_view(defs@),
                lo as int,
                hi as int,
            ),
        ),
    decreases members, 0nat,
{
    let mut entries: Vec<(String, NativeValue)> = Vec::new();
    let mut i: usize = 0;
    let ghost declared = property_views(properties@);
    let ghost views = member_views(members@);
    let ghost table = defs_view(defs@);
    let ghost total = object_entries(declared, 0, views, table, lo as int, hi as int);
    proof {
        lemma_after_start(total);
        lemma_member_names(members@);
        assert(native_entries(entries@) =~= Seq::empty());
    }
    while i < properties.len()
        invariant
            i <= properties.len(),
            declared == property_views(properties@),
            views == member_views(members@),
            keys_of(views) == names_of(members@),
            table == defs_view(defs@),
            total == object_entries(declared, 0, views, table, lo as int, hi as int),
            after(
                native_entries(entries@),
                object_entries(declared, i as nat, views, table, lo as int, hi as int),
            ) == total,
        decreases properties.len() - i,
    {
        let name = &properties[i].0;
        let found = match find_name(members, name) {
            Some(at) => at,
            None => {
                return Err(Error::MissingProperty(name.clone()));
            },
        };
        let definition = match properties[i].1.resolve(defs) {
            Ok(definition) => definition,
            Err(e) => {
                return Err(e);
            },
        };
        match convert_in(definition, &members[found].1, defs, lo, hi) {
            Err(e) => {
                return Err(e);
            },
            Ok(value) => {
                let entry = (name.clone(), value);
                proof {
                    lemma_after_cons(
                        native_entries(entries@),
                        (name@, value@),
                        object_entries(declared, (i + 1) as nat, views, table, lo as int, hi as int),
                    );
                    assert(native_entries(entries@.push(entry)) =~= native_entries(entries@).push(
                        (name@, value@),
                    ));
                }
                entries.push(entry);
            },
        }
        i += 1;
    }
    proof {
        lemma_after_nothing(native_entries(entries@));
    }
    Ok(entries)
}

/// Each member converted under the property that it names, or the first error.
fn convert_members(
    properties: &Vec<(String, Type)>,
    members: &Vec<(String, JsonValue)>,
    defs: &Definitions,
    lo: i64,
    hi: u64,
) -> (r: Result<Vec<(String, NativeValue)>, Error>)
    ensures
        yields_entries(
            r,
            class_members(
                property_views(properties@),
                member_views(members@),
                0,
                defs_view(defs@),
                lo as int,
                hi as int,
            ),
        ),
    decreases members, 0nat,
{
    let mut entries: Vec<(String, NativeValue)> = Vec::new();
    let mut i: usize = 0;
    let ghost declared = property_views(properties@);
    let ghost views = member_views(members@);
    let ghost table = defs_view(defs@);
    let ghost total = class_members(declared, views, 0, table, lo as int, hi as int);
    proof {
        lemma_after_start(total);
        lemma_property_names(properties@);
        assert(native_entries(entries@) =~= Seq::empty());
    }
    while i < members.len()
        invariant
            i <= members.len(),
            declared == property_views(properties@),
            keys_of(declared) == names_of(properties@),
            views == member_views(members@),
            table == defs_view(defs@),
            total == class_members(declared, views, 0, table, lo as int, hi as int),
            after(
                native_entries(entries@),
                class_members(declared, views, i as nat, table, lo as int, hi as int),
            ) == total,
        decreases members.len() - i,
    {
        let name = &members[i].0;
        let found = match find_name(properties, name) {
            Some(at) => at,
            None => {
                return Err(Error::UnknownProperty(name.clone()));
            },
        };
        let definition = match properties[found].1.resolve(defs) {
            Ok(definition) => definition,
            Err(e) => {
                return Err(e);
            },
        };
        match convert_in(definition, &members[i].1, defs, lo, hi) {
            Err(e) => {
                return Err(e);
            },
            Ok(value) => {
                let entry = (name.clone(), value);
                proof {
                    lemma_after_cons(
                        native_entries(entries@),
                        (name@, value@),
                        class_members(declared, views, (i + 1) as nat, table, lo as int, hi as int),
                    );
                    assert(native_entries(entries@.push(entry)) =~= native_entries(entries@).push(
                        (name@, value@),
                    ));
                }
                entries.push(entry);
            },
        }
        i += 1;
    }
    proof {
        lemma_after_nothing(native_entries(entries@));
    }
    Ok(entries)
}

/// The first declared property that the object lacks.
fn find_missing(properties: &Vec<(String, Type)>, members: &Vec<(String, JsonValue)>) -> (r: Option<
    String,
>)
    ensures
        match r {
            Some(name) => first_missing(property_views(properties@), 0, member_views(members@))
                == Some(name@),
            None => first_missing(property_views(properties@), 0, member_views(members@))
                is None,
        },
{
    let ghost declared = property_views(properties@);
    let ghost views = member_views(members@);
    proof {
        lemma_member_names(members@);
    }
    let mut i: usize = 0;
    while i < properties.len()
        invariant
            i <= properties.len(),
            declared == property_views(properties@),
            views == member_views(members@),
            keys_of(views) == names_of(members@),
            first_missing(declared, i as nat, views) == first_missing(declared, 0, views),
        decreases properties.len() - i,
    {
        if find_name(members, &properties[i].0).is_none() {
            return Some(properties[i].0.clone());
        }
        i += 1;
    }
    None
}

/// The native value of `value` under `definition`, with integers held to
/// the range from `lo` to `hi`.
fn convert_in(
    definition: &Definition,
    value: &JsonValue,
    defs: &Definitions,
    lo: i64,
    hi: u64,
) -> (r: Result<NativeValue, Error>)
    ensures
        yields(r, convert(definition@, value@, defs_view(defs@), lo as int, hi as int)),
    decreases value, composite_step(definition@),
{
    match definition {
        Definition::Variant(tag) => {
            let source = tag.source_definition();
            let bounds = tag.int_bounds();
            match convert_in(&source, value, defs, bounds.0, bounds.1) {
                Ok(inner) => Ok(NativeValue::Composite(*tag, Box::new(inner))),
                Err(e) => Err(e),
            }
        },
        Definition::Null(_) => match value {
            JsonValue::Null => Ok(NativeValue::Nil),
            _ => Err(Error::TypeMismatch(ExpectedKind::Null)),
        },
        Definition::Boolean(_) => match value {
            JsonValue::Bool(b) => Ok(NativeValue::Bool(*b)),
            _ => Err(Error::TypeMismatch(ExpectedKind::Boolean)),
        },
        Definition::Integer(_) => match value {
            JsonValue::Number(n) => integer_value(n, lo, hi),
            _ => Err(Error::TypeMismatch(ExpectedKind::Integer)),
        },
        Definition::Number(_) => match value {
            JsonValue::Number(n) => Ok(NativeValue::Float(*n)),
            _ => Err(Error::TypeMismatch(ExpectedKind::Number)),
        },
        Definition::String(_) => match value {
            JsonValue::String(s) => Ok(NativeValue::String(s.clone())),
            _ => Err(Error::TypeMismatch(ExpectedKind::String)),
        },
        Definition::Object(object) => match value {
            JsonValue::Object(members) => {
                if object.properties.len() == 0 {
                    Ok(raw_value(value))
                } else if object.properties.len() != members.len() {
                    Err(Error::PropertyCountMismatch(object.properties.len(), members.len()))
                } else {
                    match convert_object(&object.properties, members, defs, lo, hi) {
                        Ok(entries) => Ok(NativeValue::Dictionary(entries)),
                        Err(e) => Err(e),
                    }
                }
            },
            _ => Err(Error::TypeMismatch(ExpectedKind::Object)),
        },
        Definition::Array(array) => match value {
            JsonValue::Array(items) => match &array.items_ty {
                Some(item) => match item.resolve(defs) {
                    Err(e) => Err(e),
                    Ok(item_definition) => {
                        let element = new_array_from_def(item_definition);
                        match convert_items(item_definition, items, defs, lo, hi) {
                            Ok(values) => Ok(NativeValue::Array(element, values)),
                            Err(e) => Err(e),
                        }
                    },
                },
                None => Ok(raw_value(value)),
            },
            _ => Err(Error::TypeMismatch(ExpectedKind::Array)),
        },
        Definition::Tuple(tuple) => match value {
            JsonValue::Array(items) => {
                if tuple.items.len() != items.len() {
                    Err(Error::TupleArityMismatch(tuple.items.len(), items.len()))
                } else {
                    match convert_tuple(&tuple.items, items, defs, lo, hi) {
                        Ok(values) => Ok(NativeValue::Array(ElementType::Untyped, values)),
                        Err(e) => Err(e),
                    }
                }
            },
            _ => Err(Error::TypeMismatch(ExpectedKind::Tuple)),
        },
        Definition::Enum(choice) => match value {
            JsonValue::String(s) => {
                proof {
                    lemma_variant_names(choice.variants@);
                }
                match find_name(&choice.variants, s) {
                    Some(at) => Ok(NativeValue::Int(choice.variants[at].1)),
                    None => Err(Error::UnknownVariant(s.clone(), variant_names(&choice.variants))),
                }
            },
            _ => Err(Error::TypeMismatch(ExpectedKind::Enum)),
        },
        Definition::Class(class) => match value {
            JsonValue::Object(members) => {
                match convert_members(&class.properties, members, defs, lo, hi) {
                    Err(e) => Err(e),
                    Ok(entries) => match find_missing(&class.properties, members) {
                        Some(name) => Err(Error::MissingProperty(name)),
                        None => Ok(NativeValue::Object(class.source.clone(), entries)),
                    },
                }
            },
            _ => Err(Error::TypeMismatch(ExpectedKind::Class)),
        },
    }
}

impl Definition {
    /// The native value that `value` stands for under the node, with the
    /// references resolved in `defs`; or the first error that the
    /// conversion meets.
    pub fn variant_from_json(&self, value: &JsonValue, defs: &Definitions) -> (r: Result<
        NativeValue,
        Error,
    >)
        ensures
            yields(r, instantiate(self@, value@, defs_view(defs@))),
    {
        convert_in(self, value, defs, -0x8000_0000_0000_0000i64, 0xffff_ffff_ffff_ffffu64)
    }

    /// The native value that `value` stands for under the node: the same
    /// as [`Definition::variant_from_json`].
    pub fn instantiate(&self, value: &JsonValue, defs: &Definitions) -> (r: Result<
        NativeValue,
        Error,
    >)
        ensures
            yields(r, instantiate(self@, value@, defs_view(defs@))),
    {
        self.variant_from_json(value, defs)
    }
}

impl JClass {
    /// The instance of the class that the members of a JSON object stand
    /// for: each member is converted under the type of the property that
    /// it names, with the references resolved in `defs`. A member that
    /// names no property and a property that has no member are errors.
    pub fn instantiate(&self, defs: &Definitions, property_values: &Vec<(String, JsonValue)>) -> (r:
        Result<NativeValue, Error>)
        ensures
            yields(
                r,
                instantiate(
                    self@,
                    crate::json::JsonView::Object(member_views(property_values@)),
                    defs_view(defs@),
                ),
            ),
    {
        match convert_members(
            &self.properties,
            property_values,
            defs,
            -0x8000_0000_0000_0000i64,
            0xffff_ffff_ffff_ffffu64,
        ) {
            Err(e) => Err(e),
            Ok(entries) => match find_missing(&self.properties, property_values) {
                Some(name) => Err(Error::MissingProperty(name)),
                None => Ok(NativeValue::Object(self.source.clone(), entries)),
            },
        }
    }
}

} // verus!
