//! Types that know their schema node, and types that are read out of JSON.

use crate::error::{Error, ErrorView, ExpectedKind};
use crate::json::{json_views, JsonNumber, JsonValue, JsonView};
use crate::schema::model::{DefinitionKind, DefinitionView, TypeView};
use crate::schema::types::{
    clone_definition, type_view, type_views, Boolean, Definition, Integer, JString, JTuple, Null,
    Number, Type,
};
use vstd::prelude::*;

verus! {

/// A type whose values have a schema node.
pub trait GetDefinition {
    /// The node of the type.
    spec fn spec_definition() -> DefinitionView;

    /// The node of the type.
    fn get_definition() -> (r: Definition)
        ensures
            r@ == Self::spec_definition(),
    ;
}

/// The node of `T`, as a type written in place.
pub fn json_type_of<T: GetDefinition>() -> (r: Type)
    ensures
        r@ == TypeView::Definition(T::spec_definition()),
{
    Type::Definition(T::get_definition())
}

/// The node of `T`.
pub fn definition_of<T: GetDefinition>() -> (r: Definition)
    ensures
        r@ == T::spec_definition(),
{
    T::get_definition()
}

impl GetDefinition for () {
    open spec fn spec_definition() -> DefinitionView {
        DefinitionView::plain(DefinitionKind::Null)
    }

    fn get_definition() -> Definition {
        Definition::null()
    }
}

impl GetDefinition for Null {
    open spec fn spec_definition() -> DefinitionView {
        DefinitionView::plain(DefinitionKind::Null)
    }

    fn get_definition() -> Definition {
        Definition::null()
    }
}

impl GetDefinition for bool {
    open spec fn spec_definition() -> DefinitionView {
        DefinitionView::plain(DefinitionKind::Boolean)
    }

    fn get_definition() -> Definition {
        Definition::boolean()
    }
}

impl GetDefinition for Boolean {
    open spec fn spec_definition() -> DefinitionView {
        DefinitionView::plain(DefinitionKind::Boolean)
    }

    fn get_definition() -> Definition {
        Definition::boolean()
    }
}

impl GetDefinition for Integer {
    open spec fn spec_definition() -> DefinitionView {
        DefinitionView::plain(DefinitionKind::Integer)
    }

    fn get_definition() -> Definition {
        Definition::integer()
    }
}

impl GetDefinition for Number {
    open spec fn spec_definition() -> DefinitionView {
        DefinitionView::plain(DefinitionKind::Number)
    }

    fn get_definition() -> Definition {
        Definition::number()
    }
}

impl GetDefinition for JString {
    open spec fn spec_definition() -> DefinitionView {
        DefinitionView::plain(DefinitionKind::String)
    }

    fn get_definition() -> Definition {
        Definition::string()
    }
}

impl GetDefinition for String {
    open spec fn spec_definition() -> DefinitionView {
        DefinitionView::plain(DefinitionKind::String)
    }

    fn get_definition() -> Definition {
        Definition::string()
    }
}

impl GetDefinition for i8 {
    open spec fn spec_definition() -> DefinitionView {
        DefinitionView::plain(DefinitionKind::Integer)
    }

    fn get_definition() -> Definition {
        Definition::integer()
    }
}

impl GetDefinition for i16 {
    open spec fn spec_definition() -> DefinitionView {
        DefinitionView::plain(DefinitionKind::Integer)
    }

    fn get_definition() -> Definition {
        Definition::integer()
    }
}

impl GetDefinition for i32 {
    open spec fn spec_definition() -> DefinitionView {
        DefinitionView::plain(DefinitionKind::Integer)
    }

    fn get_definition() -> Definition {
        Definition::integer()
    }
}

impl GetDefinition for i64 {
    open spec fn spec_definition() -> DefinitionView {
        DefinitionView::plain(DefinitionKind::Integer)
    }

    fn get_definition() -> Definition {
        Definition::integer()
    }
}

impl GetDefinition for u8 {
    open spec fn spec_definition() -> DefinitionView {
        DefinitionView::plain(DefinitionKind::Integer)
    }

    fn get_definition() -> Definition {
        Definition::integer()
    }
}

impl GetDefinition for u16 {
    open spec fn spec_definition() -> DefinitionView {
        DefinitionView::plain(DefinitionKind::Integer)
    }

    fn get_definition() -> Definition {
        Definition::integer()
    }
}

impl GetDefinition for u32 {
    open spec fn spec_definition() -> DefinitionView {
        DefinitionView::plain(DefinitionKind::Integer)
    }

    fn get_definition() -> Definition {
        Definition::integer()
    }
}

impl GetDefinition for u64 {
    open spec fn spec_definition() -> DefinitionView {
        DefinitionView::plain(DefinitionKind::Integer)
    }

    fn get_definition() -> Definition {
        Definition::integer()
    }
}

impl GetDefinition for i128 {
    open spec fn spec_definition() -> DefinitionView {
        DefinitionView::plain(DefinitionKind::Integer)
    }

    fn get_definition() -> Definition {
        Definition::integer()
    }
}

impl GetDefinition for isize {
    open spec fn spec_definition() -> DefinitionView {
        DefinitionView::plain(DefinitionKind::Integer)
    }

    fn get_definition() -> Definition {
        Definition::integer()
    }
}

impl GetDefinition for u128 {
    open spec fn spec_definition() -> DefinitionView {
        DefinitionView::plain(DefinitionKind::Integer)
    }

    fn get_definition() -> Definition {
        Definition::integer()
    }
}

impl GetDefinition for usize {
    open spec fn spec_definition() -> DefinitionView {
        DefinitionView::plain(DefinitionKind::Integer)
    }

    fn get_definition() -> Definition {
        Definition::integer()
    }
}

impl<T: GetDefinition> GetDefinition for Vec<T> {
    open spec fn spec_definition() -> DefinitionView {
        DefinitionView::plain(
            DefinitionKind::Array(Some(Box::new(TypeView::Definition(T::spec_definition())))),
        )
    }

    fn get_definition() -> Definition {
        Definition::array(Type::Definition(T::get_definition()))
    }
}

impl<T: GetDefinition, const N: usize> GetDefinition for [T; N] {
    open spec fn spec_definition() -> DefinitionView {
        DefinitionView::plain(
            DefinitionKind::Tuple(
                Seq::new(N as nat, |i: int| TypeView::Definition(T::spec_definition())),
            ),
        )
    }

    fn get_definition() -> Definition {
        let definition = T::get_definition();
        let mut items: Vec<Type> = Vec::new();
        let mut i: usize = 0;
        while i < N
            invariant
                i <= N,
                definition@ == T::spec_definition(),
                items@.len() == i,
                forall|k: int|
                    0 <= k < i ==> type_view(#[trigger] items@[k]) == TypeView::Definition(
                        T::spec_definition(),
                    ),
            decreases N - i,
        {
            items.push(Type::Definition(clone_definition(&definition)));
            i += 1;
        }
        assert(type_views(items@) =~= Seq::new(
            N as nat,
            |i: int| TypeView::Definition(T::spec_definition()),
        ));
        Definition::Tuple(JTuple { description: None, items })
    }
}

impl<K, V: GetDefinition> GetDefinition for std::collections::HashMap<K, V> {
    open spec fn spec_definition() -> DefinitionView {
        DefinitionView::plain(DefinitionKind::Object(Seq::empty()))
    }

    fn get_definition() -> Definition {
        Definition::dictionary()
    }
}

impl<K, V: GetDefinition> GetDefinition for std::collections::BTreeMap<K, V> {
    open spec fn spec_definition() -> DefinitionView {
        DefinitionView::plain(DefinitionKind::Object(Seq::empty()))
    }

    fn get_definition() -> Definition {
        Definition::dictionary()
    }
}

impl<T: GetDefinition> GetDefinition for std::collections::HashSet<T> {
    open spec fn spec_definition() -> DefinitionView {
        DefinitionView::plain(
            DefinitionKind::Array(Some(Box::new(TypeView::Definition(T::spec_definition())))),
        )
    }

    fn get_definition() -> Definition {
        Definition::array(Type::Definition(T::get_definition()))
    }
}

impl<T: GetDefinition> GetDefinition for std::collections::BTreeSet<T> {
    open spec fn spec_definition() -> DefinitionView {
        DefinitionView::plain(
            DefinitionKind::Array(Some(Box::new(TypeView::Definition(T::spec_definition())))),
        )
    }

    fn get_definition() -> Definition {
        Definition::array(Type::Definition(T::get_definition()))
    }
}

/// What reading a JSON value as an integer from `lo` to `hi` gives.
pub open spec fn integer_from_json(json: JsonView, lo: int, hi: int) -> Result<int, ErrorView> {
    match json {
        JsonView::Number(JsonNumber::Float(_)) => Err(ErrorView::ExpectedIntegerGotFloat),
        JsonView::Number(JsonNumber::PosInt(u)) => if lo <= u <= hi {
            Ok(u as int)
        } else {
            Err(ErrorView::IntegerOutOfRange)
        },
        JsonView::Number(JsonNumber::NegInt(i)) => if lo <= i <= hi {
            Ok(i as int)
        } else {
            Err(ErrorView::IntegerOutOfRange)
        },
        _ => Err(ErrorView::TypeMismatch(ExpectedKind::Integer)),
    }
}

/// Reads a JSON value as an integer from `lo` to `hi`, which lies in the
/// signed 64-bit range.
fn read_signed(json: &JsonValue, lo: i64, hi: i64) -> (r: Result<i64, Error>)
    ensures
        match r {
            Ok(v) => integer_from_json(json@, lo as int, hi as int) == Ok::<int, ErrorView>(
                v as int,
            ),
            Err(e) => integer_from_json(json@, lo as int, hi as int) == Err::<int, ErrorView>(e@),
        },
{
    match json {
        JsonValue::Number(JsonNumber::Float(_)) => Err(Error::ExpectedIntegerGotFloat),
        JsonValue::Number(JsonNumber::PosInt(u)) => {
            if hi >= 0 && (lo <= 0 || lo as u64 <= *u) && *u <= hi as u64 {
                Ok(*u as i64)
            } else {
                Err(Error::IntegerOutOfRange)
            }
        },
        JsonValue::Number(JsonNumber::NegInt(i)) => {
            if lo <= *i && *i <= hi {
                Ok(*i)
            } else {
                Err(Error::IntegerOutOfRange)
            }
        },
        _ => Err(Error::TypeMismatch(ExpectedKind::Integer)),
    }
}

/// Reads a JSON value as an unsigned integer up to `hi`.
fn read_unsigned(json: &JsonValue, hi: u64) -> (r: Result<u64, Error>)
    ensures
        match r {
            Ok(v) => integer_from_json(json@, 0, hi as int) == Ok::<int, ErrorView>(v as int),
            Err(e) => integer_from_json(json@, 0, hi as int) == Err::<int, ErrorView>(e@),
        },
{
    match json {
        JsonValue::Number(JsonNumber::Float(_)) => Err(Error::ExpectedIntegerGotFloat),
        JsonValue::Number(JsonNumber::PosInt(u)) => {
            if *u <= hi {
                Ok(*u)
            } else {
                Err(Error::IntegerOutOfRange)
            }
        },
        JsonValue::Number(JsonNumber::NegInt(i)) => {
            if 0 <= *i && *i as u64 <= hi {
                Ok(*i as u64)
            } else {
                Err(Error::IntegerOutOfRange)
            }
        },
        _ => Err(Error::TypeMismatch(ExpectedKind::Integer)),
    }
}

/// A type whose values are read out of JSON.
pub trait FromJson: Sized {
    /// Whether reading `json` may end in `outcome`.
    spec fn reads(json: JsonView, outcome: Result<Self, ErrorView>) -> bool;

    /// Reads a value out of `json`.
    fn try_from_json(json: &JsonValue) -> (r: Result<Self, Error>)
        ensures
            Self::reads(
                json@,
                match r {
                    Ok(v) => Ok(v),
                    Err(e) => Err(e@),
                },
            ),
    ;
}

impl FromJson for () {
    /// `null` is read as the unit; nothing else is.
    open spec fn reads(json: JsonView, outcome: Result<(), ErrorView>) -> bool {
        outcome == if json is Null {
            Ok::<(), ErrorView>(())
        } else {
            Err::<(), ErrorView>(ErrorView::TypeMismatch(ExpectedKind::Null))
        }
    }

    fn try_from_json(json: &JsonValue) -> (r: Result<(), Error>) {
        match json {
            JsonValue::Null => Ok(()),
            _ => Err(Error::TypeMismatch(ExpectedKind::Null)),
        }
    }
}

impl FromJson for bool {
    /// A boolean is read as itself; nothing else is a boolean.
    open spec fn reads(json: JsonView, outcome: Result<bool, ErrorView>) -> bool {
        outcome == match json {
            JsonView::Bool(b) => Ok::<bool, ErrorView>(b),
            _ => Err::<bool, ErrorView>(ErrorView::TypeMismatch(ExpectedKind::Boolean)),
        }
    }

    fn try_from_json(json: &JsonValue) -> (r: Result<bool, Error>) {
        match json {
            JsonValue::Bool(b) => Ok(*b),
            _ => Err(Error::TypeMismatch(ExpectedKind::Boolean)),
        }
    }
}

impl FromJson for String {
    /// A string is read as itself; nothing else is a string.
    open spec fn reads(json: JsonView, outcome: Result<String, ErrorView>) -> bool {
        match outcome {
            Ok(s) => json == JsonView::String(s@),
            Err(e) => !(json is String) && e == ErrorView::TypeMismatch(ExpectedKind::String),
        }
    }

    fn try_from_json(json: &JsonValue) -> (r: Result<String, Error>) {
        match json {
            JsonValue::String(s) => Ok(s.clone()),
            _ => Err(Error::TypeMismatch(ExpectedKind::String)),
        }
    }
}

impl FromJson for i8 {
    /// An integer of the range of the type is read as itself.
    open spec fn reads(json: JsonView, outcome: Result<i8, ErrorView>) -> bool {
        match outcome {
            Ok(v) => integer_from_json(json, i8::MIN as int, i8::MAX as int) == Ok::<
                int,
                ErrorView,
            >(v as int),
            Err(e) => integer_from_json(json, i8::MIN as int, i8::MAX as int) == Err::<
                int,
                ErrorView,
            >(e),
        }
    }

    fn try_from_json(json: &JsonValue) -> (r: Result<i8, Error>) {
        match read_signed(json, -0x80, 0x7f) {
            Ok(v) => Ok(v as i8),
            Err(e) => Err(e),
        }
    }
}

impl FromJson for i16 {
    /// An integer of the range of the type is read as itself.
    open spec fn reads(json: JsonView, outcome: Result<i16, ErrorView>) -> bool {
        match outcome {
            Ok(v) => integer_from_json(json, i16::MIN as int, i16::MAX as int) == Ok::<
                int,
                ErrorView,
            >(v as int),
            Err(e) => integer_from_json(json, i16::MIN as int, i16::MAX as int) == Err::<
                int,
                ErrorView,
            >(e),
        }
    }

    fn try_from_json(json: &JsonValue) -> (r: Result<i16, Error>) {
        match read_signed(json, -0x8000, 0x7fff) {
            Ok(v) => Ok(v as i16),
            Err(e) => Err(e),
        }
    }
}

impl FromJson for i32 {
    /// An integer of the range of the type is read as itself.
    open spec fn reads(json: JsonView, outcome: Result<i32, ErrorView>) -> bool {
        match outcome {
            Ok(v) => integer_from_json(json, i32::MIN as int, i32::MAX as int) == Ok::<
                int,
                ErrorView,
            >(v as int),
            Err(e) => integer_from_json(json, i32::MIN as int, i32::MAX as int) == Err::<
                int,
                ErrorView,
            >(e),
        }
    }

    fn try_from_json(json: &JsonValue) -> (r: Result<i32, Error>) {
        match read_signed(json, -0x8000_0000, 0x7fff_ffff) {
            Ok(v) => Ok(v as i32),
            Err(e) => Err(e),
        }
    }
}

impl FromJson for i64 {
    /// An integer of the range of the type is read as itself.
    open spec fn reads(json: JsonView, outcome: Result<i64, ErrorView>) -> bool {
        match outcome {
            Ok(v) => integer_from_json(json, i64::MIN as int, i64::MAX as int) == Ok::<
                int,
                ErrorView,
            >(v as int),
            Err(e) => integer_from_json(json, i64::MIN as int, i64::MAX as int) == Err::<
                int,
                ErrorView,
            >(e),
        }
    }

    fn try_from_json(json: &JsonValue) -> (r: Result<i64, Error>) {
        read_signed(json, -0x8000_0000_0000_0000, 0x7fff_ffff_ffff_ffff)
    }
}

impl FromJson for u8 {
    /// An integer of the range of the type is read as itself.
    open spec fn reads(json: JsonView, outcome: Result<u8, ErrorView>) -> bool {
        match outcome {
            Ok(v) => integer_from_json(json, 0, u8::MAX as int) == Ok::<int, ErrorView>(v as int),
            Err(e) => integer_from_json(json, 0, u8::MAX as int) == Err::<int, ErrorView>(e),
        }
    }

    fn try_from_json(json: &JsonValue) -> (r: Result<u8, Error>) {
        match read_unsigned(json, 0xff) {
            Ok(v) => Ok(v as u8),
            Err(e) => Err(e),
        }
    }
}

impl FromJson for u16 {
    /// An integer of the range of the type is read as itself.
    open spec fn reads(json: JsonView, outcome: Result<u16, ErrorView>) -> bool {
        match outcome {
            Ok(v) => integer_from_json(json, 0, u16::MAX as int) == Ok::<int, ErrorView>(v as int),
            Err(e) => integer_from_json(json, 0, u16::MAX as int) == Err::<int, ErrorView>(e),
        }
    }

    fn try_from_json(json: &JsonValue) -> (r: Result<u16, Error>) {
        match read_unsigned(json, 0xffff) {
            Ok(v) => Ok(v as u16),
            Err(e) => Err(e),
        }
    }
}

impl FromJson for u32 {
    /// An integer of the range of the type is read as itself.
    open spec fn reads(json: JsonView, outcome: Result<u32, ErrorView>) -> bool {
        match outcome {
            Ok(v) => integer_from_json(json, 0, u32::MAX as int) == Ok::<int, ErrorView>(v as int),
            Err(e) => integer_from_json(json, 0, u32::MAX as int) == Err::<int, ErrorView>(e),
        }
    }

    fn try_from_json(json: &JsonValue) -> (r: Result<u32, Error>) {
        match read_unsigned(json, 0xffff_ffff) {
            Ok(v) => Ok(v as u32),
            Err(e) => Err(e),
        }
    }
}

impl FromJson for u64 {
    /// An integer of the range of the type is read as itself.
    open spec fn reads(json: JsonView, outcome: Result<u64, ErrorView>) -> bool {
        match outcome {
            Ok(v) => integer_from_json(json, 0, u64::MAX as int) == Ok::<int, ErrorView>(v as int),
            Err(e) => integer_from_json(json, 0, u64::MAX as int) == Err::<int, ErrorView>(e),
        }
    }

    fn try_from_json(json: &JsonValue) -> (r: Result<u64, Error>) {
        read_unsigned(json, 0xffff_ffff_ffff_ffff)
    }
}

impl FromJson for i128 {
    /// Every integer that JSON text is read into lies in the range of the
    /// type, and is read as itself.
    open spec fn reads(json: JsonView, outcome: Result<i128, ErrorView>) -> bool {
        match outcome {
            Ok(v) => integer_from_json(json, i64::MIN as int, u64::MAX as int) == Ok::<
                int,
                ErrorView,
            >(v as int),
            Err(e) => integer_from_json(json, i64::MIN as int, u64::MAX as int) == Err::<
                int,
                ErrorView,
            >(e),
        }
    }

    fn try_from_json(json: &JsonValue) -> (r: Result<i128, Error>) {
        match json {
            JsonValue::Number(JsonNumber::Float(_)) => Err(Error::ExpectedIntegerGotFloat),
            JsonValue::Number(JsonNumber::PosInt(u)) => Ok(*u as i128),
            JsonValue::Number(JsonNumber::NegInt(i)) => Ok(*i as i128),
            _ => Err(Error::TypeMismatch(ExpectedKind::Integer)),
        }
    }
}

impl FromJson for u128 {
    /// An integer that is not below zero is read as itself.
    open spec fn reads(json: JsonView, outcome: Result<u128, ErrorView>) -> bool {
        match outcome {
            Ok(v) => integer_from_json(json, 0, u64::MAX as int) == Ok::<int, ErrorView>(v as int),
            Err(e) => integer_from_json(json, 0, u64::MAX as int) == Err::<int, ErrorView>(e),
        }
    }

    fn try_from_json(json: &JsonValue) -> (r: Result<u128, Error>) {
        match read_unsigned(json, 0xffff_ffff_ffff_ffff) {
            Ok(v) => Ok(v as u128),
            Err(e) => Err(e),
        }
    }
}

impl FromJson for isize {
    /// An integer of the range of the type is read as itself.
    open spec fn reads(json: JsonView, outcome: Result<isize, ErrorView>) -> bool {
        match outcome {
            Ok(v) => integer_from_json(json, isize::MIN as int, isize::MAX as int) == Ok::<
                int,
                ErrorView,
            >(v as int),
            Err(e) => integer_from_json(json, isize::MIN as int, isize::MAX as int) == Err::<
                int,
                ErrorView,
            >(e),
        }
    }

    fn try_from_json(json: &JsonValue) -> (r: Result<isize, Error>) {
        match read_signed(json, isize::MIN as i64, isize::MAX as i64) {
            Ok(v) => Ok(v as isize),
            Err(e) => Err(e),
        }
    }
}

impl FromJson for usize {
    /// An integer of the range of the type is read as itself.
    open spec fn reads(json: JsonView, outcome: Result<usize, ErrorView>) -> bool {
        match outcome {
            Ok(v) => integer_from_json(json, 0, usize::MAX as int) == Ok::<int, ErrorView>(
                v as int,
            ),
            Err(e) => integer_from_json(json, 0, usize::MAX as int) == Err::<int, ErrorView>(e),
        }
    }

    fn try_from_json(json: &JsonValue) -> (r: Result<usize, Error>) {
        match read_unsigned(json, usize::MAX as u64) {
            Ok(v) => Ok(v as usize),
            Err(e) => Err(e),
        }
    }
}

/// Every item is read into the value of its position.
pub open spec fn all_read<T: FromJson>(items: Seq<JsonView>, values: Seq<T>) -> bool {
    values.len() == items.len() && forall|i: int|
        0 <= i < items.len() ==> T::reads(#[trigger] items[i], Ok(values[i]))
}

/// The item at position `at` is read into a value.
pub open spec fn is_read<T: FromJson>(items: Seq<JsonView>, at: int) -> bool {
    exists|value: T| T::reads(items[at], Ok::<T, ErrorView>(value))
}

/// Reading one of the items ends in the error `e`, and every item before
/// it is read into a value.
pub open spec fn one_fails<T: FromJson>(items: Seq<JsonView>, e: ErrorView) -> bool {
    exists|i: int|
        0 <= i < items.len() && T::reads(#[trigger] items[i], Err::<T, ErrorView>(e)) && forall|
            j: int,
        | 0 <= j < i ==> #[trigger] is_read::<T>(items, j)
}

impl<T: FromJson> FromJson for Vec<T> {
    /// An array is read item by item: into the values of its items where
    /// every item is read, else into the error of the item at which the
    /// reading stops. Nothing else is an array.
    open spec fn reads(json: JsonView, outcome: Result<Vec<T>, ErrorView>) -> bool {
        match json {
            JsonView::Array(items) => match outcome {
                Ok(values) => all_read::<T>(items, values@),
                Err(e) => one_fails::<T>(items, e),
            },
            _ => outcome == Err::<Vec<T>, ErrorView>(ErrorView::TypeMismatch(ExpectedKind::Array)),
        }
    }

    fn try_from_json(json: &JsonValue) -> (r: Result<Vec<T>, Error>) {
        match json {
            JsonValue::Array(items) => {
                let mut values: Vec<T> = Vec::new();
                let mut i: usize = 0;
                while i < items.len()
                    invariant
                        i <= items.len(),
                        values@.len() == i,
                        json@ == JsonView::Array(json_views(items@)),
                        forall|k: int|
                            0 <= k < i ==> T::reads(
                                #[trigger] json_views(items@)[k],
                                Ok::<T, ErrorView>(values@[k]),
                            ),
                    decreases items.len() - i,
                {
                    match T::try_from_json(&items[i]) {
                        Ok(value) => {
                            values.push(value);
                        },
                        Err(e) => {
                            proof {
                                let views = json_views(items@);
                                let failed = Err::<T, ErrorView>(e@);
                                assert(views[i as int] == items@[i as int]@);
                                assert(T::reads(views[i as int], failed));
                                assert forall|j: int| 0 <= j < i implies #[trigger] is_read::<T>(
                                    views,
                                    j,
                                ) by {
                                    assert(T::reads(views[j], Ok::<T, ErrorView>(values@[j])));
                                }
                                assert(one_fails::<T>(views, e@));
                            }
                            return Err(e);
                        },
                    }
                    i += 1;
                }
                Ok(values)
            },
            _ => Err(Error::TypeMismatch(ExpectedKind::Array)),
        }
    }
}

/// Calls `<[T; N]>::try_from` of std on a vector: the array of the items of
/// the vector where there are `N` of them, nothing where there are not.
#[verifier::external_body]
fn vec_into_array<T, const N: usize>(items: Vec<T>) -> (r: Option<[T; N]>)
    ensures
        r is Some <==> items@.len() == N,
        r matches Some(array) ==> array@ == items@,
{
    <[T; N]>::try_from(items).ok()
}

impl<T: FromJson, const N: usize> FromJson for [T; N] {
    /// An array of `N` items is read item by item, as a vector is. An
    /// array of another length, and what is no array, is refused.
    open spec fn reads(json: JsonView, outcome: Result<[T; N], ErrorView>) -> bool {
        match json {
            JsonView::Array(items) => if items.len() != N {
                outcome == Err::<[T; N], ErrorView>(
                    ErrorView::TupleArityMismatch(N as nat, items.len()),
                )
            } else {
                match outcome {
                    Ok(values) => all_read::<T>(items, values@),
                    Err(e) => one_fails::<T>(items, e),
                }
            },
            _ => outcome == Err::<[T; N], ErrorView>(ErrorView::TypeMismatch(ExpectedKind::Tuple)),
        }
    }

    fn try_from_json(json: &JsonValue) -> (r: Result<[T; N], Error>) {
        match json {
            JsonValue::Array(items) => {
                if items.len() != N {
                    return Err(Error::TupleArityMismatch(N, items.len()));
                }
                match Vec::<T>::try_from_json(json) {
                    Ok(values) => match vec_into_array(values) {
                        Some(array) => Ok(array),
                        None => Err(Error::TupleArityMismatch(N, items.len())),
                    },
                    Err(e) => Err(e),
                }
            },
            _ => Err(Error::TypeMismatch(ExpectedKind::Tuple)),
        }
    }
}

impl<T1: GetDefinition> GetDefinition for (T1,) {
    open spec fn spec_definition() -> DefinitionView {
        DefinitionView::plain(
            DefinitionKind::Tuple(
                seq![
                    TypeView::Definition(T1::spec_definition()),
                ],
            ),
        )
    }

    fn get_definition() -> Definition {
        let mut items: Vec<Type> = Vec::new();
        items.push(Type::Definition(T1::get_definition()));
        assert(type_views(items@) =~= Self::spec_definition().kind->Tuple_0);
        Definition::Tuple(JTuple { description: None, items })
    }
}

impl<T1: FromJson> FromJson for (T1,) {
    /// An array of 1 item is read position by position, each item
    /// into the type of its position: into the values where every item is
    /// read, else into the error of the item at which the reading stops.
    /// An array of another length, and what is no array, is refused.
    open spec fn reads(json: JsonView, outcome: Result<(T1,), ErrorView>) -> bool {
        match json {
            JsonView::Array(items) => if items.len() != 1 {
                outcome == Err::<(T1,), ErrorView>(ErrorView::TupleArityMismatch(1, items.len()))
            } else {
                match outcome {
                    Ok(values) => T1::reads(items[0], Ok::<T1, ErrorView>(values.0)),
                    Err(e) => (T1::reads(items[0], Err::<T1, ErrorView>(e))),
                }
            },
            _ => outcome == Err::<(T1,), ErrorView>(ErrorView::TypeMismatch(ExpectedKind::Tuple)),
        }
    }

    fn try_from_json(json: &JsonValue) -> (r: Result<(T1,), Error>) {
        match json {
            JsonValue::Array(items) => {
                if items.len() != 1 {
                    return Err(Error::TupleArityMismatch(1, items.len()));
                }
                let ghost views = json_views(items@);
                let v1 = match T1::try_from_json(&items[0]) {
                    Ok(value) => value,
                    Err(e) => {
                        proof {
                            assert(T1::reads(views[0], Err::<T1, ErrorView>(e@)));
                        }
                        return Err(e);
                    },
                };
                assert(T1::reads(views[0], Ok::<T1, ErrorView>(v1)));
                Ok((v1,))
            },
            _ => Err(Error::TypeMismatch(ExpectedKind::Tuple)),
        }
    }
}

impl<T1: GetDefinition, T2: GetDefinition> GetDefinition for (T1, T2) {
    open spec fn spec_definition() -> DefinitionView {
        DefinitionView::plain(
            DefinitionKind::Tuple(
                seq![
                    TypeView::Definition(T1::spec_definition()),
                    TypeView::Definition(T2::spec_definition()),
                ],
            ),
        )
    }

    fn get_definition() -> Definition {
        let mut items: Vec<Type> = Vec::new();
        items.push(Type::Definition(T1::get_definition()));
        items.push(Type::Definition(T2::get_definition()));
        assert(type_views(items@) =~= Self::spec_definition().kind->Tuple_0);
        Definition::Tuple(JTuple { description: None, items })
    }
}

impl<T1: FromJson, T2: FromJson> FromJson for (T1, T2) {
    /// An array of 2 items is read position by position, each item
    /// into the type of its position: into the values where every item is
    /// read, else into the error of the item at which the reading stops.
    /// An array of another length, and what is no array, is refused.
    open spec fn reads(json: JsonView, outcome: Result<(T1, T2), ErrorView>) -> bool {
        match json {
            JsonView::Array(items) => if items.len() != 2 {
                outcome == Err::<(T1, T2), ErrorView>(ErrorView::TupleArityMismatch(2, items.len()))
            } else {
                match outcome {
                    Ok(values) => T1::reads(items[0], Ok::<T1, ErrorView>(values.0)) && T2::reads(items[1], Ok::<T2, ErrorView>(values.1)),
                    Err(e) => (T1::reads(items[0], Err::<T1, ErrorView>(e)))
                        || (is_read::<T1>(items, 0) && T2::reads(items[1], Err::<T2, ErrorView>(e))),
                }
            },
            _ => outcome == Err::<(T1, T2), ErrorView>(ErrorView::TypeMismatch(ExpectedKind::Tuple)),
        }
    }

    fn try_from_json(json: &JsonValue) -> (r: Result<(T1, T2), Error>) {
        match json {
            JsonValue::Array(items) => {
                if items.len() != 2 {
                    return Err(Error::TupleArityMismatch(2, items.len()));
                }
                let ghost views = json_views(items@);
                let v1 = match T1::try_from_json(&items[0]) {
                    Ok(value) => value,
                    Err(e) => {
                        proof {
                            assert(T1::reads(views[0], Err::<T1, ErrorView>(e@)));
                        }
                        return Err(e);
                    },
                };
                assert(T1::reads(views[0], Ok::<T1, ErrorView>(v1)));
                let v2 = match T2::try_from_json(&items[1]) {
                    Ok(value) => value,
                    Err(e) => {
                        proof {
                            assert(T2::reads(views[1], Err::<T2, ErrorView>(e@)));
                            assert(is_read::<T1>(views, 0));
                        }
                        return Err(e);
                    },
                };
                assert(T2::reads(views[1], Ok::<T2, ErrorView>(v2)));
                Ok((v1, v2))
            },
            _ => Err(Error::TypeMismatch(ExpectedKind::Tuple)),
        }
    }
}

impl<T1: GetDefinition, T2: GetDefinition, T3: GetDefinition> GetDefinition for (T1, T2, T3) {
    open spec fn spec_definition() -> DefinitionView {
        DefinitionView::plain(
            DefinitionKind::Tuple(
                seq![
                    TypeView::Definition(T1::spec_definition()),
                    TypeView::Definition(T2::spec_definition()),
                    TypeView::Definition(T3::spec_definition()),
                ],
            ),
        )
    }

    fn get_definition() -> Definition {
        let mut items: Vec<Type> = Vec::new();
        items.push(Type::Definition(T1::get_definition()));
        items.push(Type::Definition(T2::get_definition()));
        items.push(Type::Definition(T3::get_definition()));
        assert(type_views(items@) =~= Self::spec_definition().kind->Tuple_0);
        Definition::Tuple(JTuple { description: None, items })
    }
}

impl<T1: FromJson, T2: FromJson, T3: FromJson> FromJson for (T1, T2, T3) {
    /// An array of 3 items is read position by position, each item
    /// into the type of its position: into the values where every item is
    /// read, else into the error of the item at which the reading stops.
    /// An array of another length, and what is no array, is refused.
    open spec fn reads(json: JsonView, outcome: Result<(T1, T2, T3), ErrorView>) -> bool {
        match json {
            JsonView::Array(items) => if items.len() != 3 {
                outcome == Err::<(T1, T2, T3), ErrorView>(ErrorView::TupleArityMismatch(3, items.len()))
            } else {
                match outcome {
                    Ok(values) => T1::reads(items[0], Ok::<T1, ErrorView>(values.0)) && T2::reads(items[1], Ok::<T2, ErrorView>(values.1)) && T3::reads(items[2], Ok::<T3, ErrorView>(values.2)),
                    Err(e) => (T1::reads(items[0], Err::<T1, ErrorView>(e)))
                        || (is_read::<T1>(items, 0) && T2::reads(items[1], Err::<T2, ErrorView>(e)))
                        || (is_read::<T1>(items, 0) && is_read::<T2>(items, 1) && T3::reads(items[2], Err::<T3, ErrorView>(e))),
                }
            },
            _ => outcome == Err::<(T1, T2, T3), ErrorView>(ErrorView::TypeMismatch(ExpectedKind::Tuple)),
        }
    }

    fn try_from_json(json: &JsonValue) -> (r: Result<(T1, T2, T3), Error>) {
        match json {
            JsonValue::Array(items) => {
                if items.len() != 3 {
                    return Err(Error::TupleArityMismatch(3, items.len()));
                }
                let ghost views = json_views(items@);
                let v1 = match T1::try_from_json(&items[0]) {
                    Ok(value) => value,
                    Err(e) => {
                        proof {
                            assert(T1::reads(views[0], Err::<T1, ErrorView>(e@)));
                        }
                        return Err(e);
                    },
                };
                assert(T1::reads(views[0], Ok::<T1, ErrorView>(v1)));
                let v2 = match T2::try_from_json(&items[1]) {
                    Ok(value) => value,
                    Err(e) => {
                        proof {
                            assert(T2::reads(views[1], Err::<T2, ErrorView>(e@)));
                            assert(is_read::<T1>(views, 0));
                        }
                        return Err(e);
                    },
                };
                assert(T2::reads(views[1], Ok::<T2, ErrorView>(v2)));
                let v3 = match T3::try_from_json(&items[2]) {
                    Ok(value) => value,
                    Err(e) => {
                        proof {
                            assert(T3::reads(views[2], Err::<T3, ErrorView>(e@)));
                            assert(is_read::<T1>(views, 0));
                            assert(is_read::<T2>(views, 1));
                        }
                        return Err(e);
                    },
                };
                assert(T3::reads(views[2], Ok::<T3, ErrorView>(v3)));
                Ok((v1, v2, v3))
            },
            _ => Err(Error::TypeMismatch(ExpectedKind::Tuple)),
        }
    }
}

impl<T1: GetDefinition, T2: GetDefinition, T3: GetDefinition, T4: GetDefinition> GetDefinition for (T1, T2, T3, T4) {
    open spec fn spec_definition() -> DefinitionView {
        DefinitionView::plain(
            DefinitionKind::Tuple(
                seq![
                    TypeView::Definition(T1::spec_definition()),
                    TypeView::Definition(T2::spec_definition()),
                    TypeView::Definition(T3::spec_definition()),
                    TypeView::Definition(T4::spec_definition()),
                ],
            ),
        )
    }

    fn get_definition() -> Definition {
        let mut items: Vec<Type> = Vec::new();
        items.push(Type::Definition(T1::get_definition()));
        items.push(Type::Definition(T2::get_definition()));
        items.push(Type::Definition(T3::get_definition()));
        items.push(Type::Definition(T4::get_definition()));
        assert(type_views(items@) =~= Self::spec_definition().kind->Tuple_0);
        Definition::Tuple(JTuple { description: None, items })
    }
}

impl<T1: FromJson, T2: FromJson, T3: FromJson, T4: FromJson> FromJson for (T1, T2, T3, T4) {
    /// An array of 4 items is read position by position, each item
    /// into the type of its position: into the values where every item is
    /// read, else into the error of the item at which the reading stops.
    /// An array of another length, and what is no array, is refused.
    open spec fn reads(json: JsonView, outcome: Result<(T1, T2, T3, T4), ErrorView>) -> bool {
        match json {
            JsonView::Array(items) => if items.len() != 4 {
                outcome == Err::<(T1, T2, T3, T4), ErrorView>(ErrorView::TupleArityMismatch(4, items.len()))
            } else {
                match outcome {
                    Ok(values) => T1::reads(items[0], Ok::<T1, ErrorView>(values.0)) && T2::reads(items[1], Ok::<T2, ErrorView>(values.1)) && T3::reads(items[2], Ok::<T3, ErrorView>(values.2)) && T4::reads(items[3], Ok::<T4, ErrorView>(values.3)),
                    Err(e) => (T1::reads(items[0], Err::<T1, ErrorView>(e)))
                        || (is_read::<T1>(items, 0) && T2::reads(items[1], Err::<T2, ErrorView>(e)))
                        || (is_read::<T1>(items, 0) && is_read::<T2>(items, 1) && T3::reads(items[2], Err::<T3, ErrorView>(e)))
                        || (is_read::<T1>(items, 0) && is_read::<T2>(items, 1) && is_read::<T3>(items, 2) && T4::reads(items[3], Err::<T4, ErrorView>(e))),
                }
            },
            _ => outcome == Err::<(T1, T2, T3, T4), ErrorView>(ErrorView::TypeMismatch(ExpectedKind::Tuple)),
        }
    }

    fn try_from_json(json: &JsonValue) -> (r: Result<(T1, T2, T3, T4), Error>) {
        match json {
            JsonValue::Array(items) => {
                if items.len() != 4 {
                    return Err(Error::TupleArityMismatch(4, items.len()));
                }
                let ghost views = json_views(items@);
                let v1 = match T1::try_from_json(&items[0]) {
                    Ok(value) => value,
                    Err(e) => {
                        proof {
                            assert(T1::reads(views[0], Err::<T1, ErrorView>(e@)));
                        }
                        return Err(e);
                    },
                };
                assert(T1::reads(views[0], Ok::<T1, ErrorView>(v1)));
                let v2 = match T2::try_from_json(&items[1]) {
                    Ok(value) => value,
                    Err(e) => {
                        proof {
                            assert(T2::reads(views[1], Err::<T2, ErrorView>(e@)));
                            assert(is_read::<T1>(views, 0));
                        }
                        return Err(e);
                    },
                };
                assert(T2::reads(views[1], Ok::<T2, ErrorView>(v2)));
                let v3 = match T3::try_from_json(&items[2]) {
                    Ok(value) => value,
                    Err(e) => {
                        proof {
                            assert(T3::reads(views[2], Err::<T3, ErrorView>(e@)));
                            assert(is_read::<T1>(views, 0));
                            assert(is_read::<T2>(views, 1));
                        }
                        return Err(e);
                    },
                };
                assert(T3::reads(views[2], Ok::<T3, ErrorView>(v3)));
                let v4 = match T4::try_from_json(&items[3]) {
                    Ok(value) => value,
                    Err(e) => {
                        proof {
                            assert(T4::reads(views[3], Err::<T4, ErrorView>(e@)));
                            assert(is_read::<T1>(views, 0));
                            assert(is_read::<T2>(views, 1));
                            assert(is_read::<T3>(views, 2));
                        }
                        return Err(e);
                    },
                };
                assert(T4::reads(views[3], Ok::<T4, ErrorView>(v4)));
                Ok((v1, v2, v3, v4))
            },
            _ => Err(Error::TypeMismatch(ExpectedKind::Tuple)),
        }
    }
}

impl<T1: GetDefinition, T2: GetDefinition, T3: GetDefinition, T4: GetDefinition, T5: GetDefinition> GetDefinition for (T1, T2, T3, T4, T5) {
    open spec fn spec_definition() -> DefinitionView {
        DefinitionView::plain(
            DefinitionKind::Tuple(
                seq![
                    TypeView::Definition(T1::spec_definition()),
                    TypeView::Definition(T2::spec_definition()),
                    TypeView::Definition(T3::spec_definition()),
                    TypeView::Definition(T4::spec_definition()),
                    TypeView::Definition(T5::spec_definition()),
                ],
            ),
        )
    }

    fn get_definition() -> Definition {
        let mut items: Vec<Type> = Vec::new();
        items.push(Type::Definition(T1::get_definition()));
        items.push(Type::Definition(T2::get_definition()));
        items.push(Type::Definition(T3::get_definition()));
        items.push(Type::Definition(T4::get_definition()));
        items.push(Type::Definition(T5::get_definition()));
        assert(type_views(items@) =~= Self::spec_definition().kind->Tuple_0);
        Definition::Tuple(JTuple { description: None, items })
    }
}

impl<T1: FromJson, T2: FromJson, T3: FromJson, T4: FromJson, T5: FromJson> FromJson for (T1, T2, T3, T4, T5) {
    /// An array of 5 items is read position by position, each item
    /// into the type of its position: into the values where every item is
    /// read, else into the error of the item at which the reading stops.
    /// An array of another length, and what is no array, is refused.
    open spec fn reads(json: JsonView, outcome: Result<(T1, T2, T3, T4, T5), ErrorView>) -> bool {
        match json {
            JsonView::Array(items) => if items.len() != 5 {
                outcome == Err::<(T1, T2, T3, T4, T5), ErrorView>(ErrorView::TupleArityMismatch(5, items.len()))
            } else {
                match outcome {
                    Ok(values) => T1::reads(items[0], Ok::<T1, ErrorView>(values.0)) && T2::reads(items[1], Ok::<T2, ErrorView>(values.1)) && T3::reads(items[2], Ok::<T3, ErrorView>(values.2)) && T4::reads(items[3], Ok::<T4, ErrorView>(values.3)) && T5::reads(items[4], Ok::<T5, ErrorView>(values.4)),
                    Err(e) => (T1::reads(items[0], Err::<T1, ErrorView>(e)))
                        || (is_read::<T1>(items, 0) && T2::reads(items[1], Err::<T2, ErrorView>(e)))
                        || (is_read::<T1>(items, 0) && is_read::<T2>(items, 1) && T3::reads(items[2], Err::<T3, ErrorView>(e)))
                        || (is_read::<T1>(items, 0) && is_read::<T2>(items, 1) && is_read::<T3>(items, 2) && T4::reads(items[3], Err::<T4, ErrorView>(e)))
                        || (is_read::<T1>(items, 0) && is_read::<T2>(items, 1) && is_read::<T3>(items, 2) && is_read::<T4>(items, 3) && T5::reads(items[4], Err::<T5, ErrorView>(e))),
                }
            },
            _ => outcome == Err::<(T1, T2, T3, T4, T5), ErrorView>(ErrorView::TypeMismatch(ExpectedKind::Tuple)),
        }
    }

    fn try_from_json(json: &JsonValue) -> (r: Result<(T1, T2, T3, T4, T5), Error>) {
        match json {
            JsonValue::Array(items) => {
                if items.len() != 5 {
                    return Err(Error::TupleArityMismatch(5, items.len()));
                }
                let ghost views = json_views(items@);
                let v1 = match T1::try_from_json(&items[0]) {
                    Ok(value) => value,
                    Err(e) => {
                        proof {
                            assert(T1::reads(views[0], Err::<T1, ErrorView>(e@)));
                        }
                        return Err(e);
                    },
                };
                assert(T1::reads(views[0], Ok::<T1, ErrorView>(v1)));
                let v2 = match T2::try_from_json(&items[1]) {
                    Ok(value) => value,
                    Err(e) => {
                        proof {
                            assert(T2::reads(views[1], Err::<T2, ErrorView>(e@)));
                            assert(is_read::<T1>(views, 0));
                        }
                        return Err(e);
                    },
                };
                assert(T2::reads(views[1], Ok::<T2, ErrorView>(v2)));
                let v3 = match T3::try_from_json(&items[2]) {
                    Ok(value) => value,
                    Err(e) => {
                        proof {
                            assert(T3::reads(views[2], Err::<T3, ErrorView>(e@)));
                            assert(is_read::<T1>(views, 0));
                            assert(is_read::<T2>(views, 1));
                        }
                        return Err(e);
                    },
                };
                assert(T3::reads(views[2], Ok::<T3, ErrorView>(v3)));
                let v4 = match T4::try_from_json(&items[3]) {
                    Ok(value) => value,
                    Err(e) => {
                        proof {
                            assert(T4::reads(views[3], Err::<T4, ErrorView>(e@)));
                            assert(is_read::<T1>(views, 0));
                            assert(is_read::<T2>(views, 1));
                            assert(is_read::<T3>(views, 2));
                        }
                        return Err(e);
                    },
                };
                assert(T4::reads(views[3], Ok::<T4, ErrorView>(v4)));
                let v5 = match T5::try_from_json(&items[4]) {
                    Ok(value) => value,
                    Err(e) => {
                        proof {
                            assert(T5::reads(views[4], Err::<T5, ErrorView>(e@)));
                            assert(is_read::<T1>(views, 0));
                            assert(is_read::<T2>(views, 1));
                            assert(is_read::<T3>(views, 2));
                            assert(is_read::<T4>(views, 3));
                        }
                        return Err(e);
                    },
                };
                assert(T5::reads(views[4], Ok::<T5, ErrorView>(v5)));
                Ok((v1, v2, v3, v4, v5))
            },
            _ => Err(Error::TypeMismatch(ExpectedKind::Tuple)),
        }
    }
}

impl<T1: GetDefinition, T2: GetDefinition, T3: GetDefinition, T4: GetDefinition, T5: GetDefinition, T6: GetDefinition> GetDefinition for (T1, T2, T3, T4, T5, T6) {
    open spec fn spec_definition() -> DefinitionView {
        DefinitionView::plain(
            DefinitionKind::Tuple(
                seq![
                    TypeView::Definition(T1::spec_definition()),
                    TypeView::Definition(T2::spec_definition()),
                    TypeView::Definition(T3::spec_definition()),
                    TypeView::Definition(T4::spec_definition()),
                    TypeView::Definition(T5::spec_definition()),
                    TypeView::Definition(T6::spec_definition()),
                ],
            ),
        )
    }

    fn get_definition() -> Definition {
        let mut items: Vec<Type> = Vec::new();
        items.push(Type::Definition(T1::get_definition()));
        items.push(Type::Definition(T2::get_definition()));
        items.push(Type::Definition(T3::get_definition()));
        items.push(Type::Definition(T4::get_definition()));
        items.push(Type::Definition(T5::get_definition()));
        items.push(Type::Definition(T6::get_definition()));
        assert(type_views(items@) =~= Self::spec_definition().kind->Tuple_0);
        Definition::Tuple(JTuple { description: None, items })
    }
}

impl<T1: FromJson, T2: FromJson, T3: FromJson, T4: FromJson, T5: FromJson, T6: FromJson> FromJson for (T1, T2, T3, T4, T5, T6) {
    /// An array of 6 items is read position by position, each item
    /// into the type of its position: into the values where every item is
    /// read, else into the error of the item at which the reading stops.
    /// An array of another length, and what is no array, is refused.
    open spec fn reads(json: JsonView, outcome: Result<(T1, T2, T3, T4, T5, T6), ErrorView>) -> bool {
        match json {
            JsonView::Array(items) => if items.len() != 6 {
                outcome == Err::<(T1, T2, T3, T4, T5, T6), ErrorView>(ErrorView::TupleArityMismatch(6, items.len()))
            } else {
                match outcome {
                    Ok(values) => T1::reads(items[0], Ok::<T1, ErrorView>(values.0)) && T2::reads(items[1], Ok::<T2, ErrorView>(values.1)) && T3::reads(items[2], Ok::<T3, ErrorView>(values.2)) && T4::reads(items[3], Ok::<T4, ErrorView>(values.3)) && T5::reads(items[4], Ok::<T5, ErrorView>(values.4)) && T6::reads(items[5], Ok::<T6, ErrorView>(values.5)),
                    Err(e) => (T1::reads(items[0], Err::<T1, ErrorView>(e)))
                        || (is_read::<T1>(items, 0) && T2::reads(items[1], Err::<T2, ErrorView>(e)))
                        || (is_read::<T1>(items, 0) && is_read::<T2>(items, 1) && T3::reads(items[2], Err::<T3, ErrorView>(e)))
                        || (is_read::<T1>(items, 0) && is_read::<T2>(items, 1) && is_read::<T3>(items, 2) && T4::reads(items[3], Err::<T4, ErrorView>(e)))
                        || (is_read::<T1>(items, 0) && is_read::<T2>(items, 1) && is_read::<T3>(items, 2) && is_read::<T4>(items, 3) && T5::reads(items[4], Err::<T5, ErrorView>(e)))
                        || (is_read::<T1>(items, 0) && is_read::<T2>(items, 1) && is_read::<T3>(items, 2) && is_read::<T4>(items, 3) && is_read::<T5>(items, 4) && T6::reads(items[5], Err::<T6, ErrorView>(e))),
                }
            },
            _ => outcome == Err::<(T1, T2, T3, T4, T5, T6), ErrorView>(ErrorView::TypeMismatch(ExpectedKind::Tuple)),
        }
    }

    fn try_from_json(json: &JsonValue) -> (r: Result<(T1, T2, T3, T4, T5, T6), Error>) {
        match json {
            JsonValue::Array(items) => {
                if items.len() != 6 {
                    return Err(Error::TupleArityMismatch(6, items.len()));
                }
                let ghost views = json_views(items@);
                let v1 = match T1::try_from_json(&items[0]) {
                    Ok(value) => value,
                    Err(e) => {
                        proof {
                            assert(T1::reads(views[0], Err::<T1, ErrorView>(e@)));
                        }
                        return Err(e);
                    },
                };
                assert(T1::reads(views[0], Ok::<T1, ErrorView>(v1)));
                let v2 = match T2::try_from_json(&items[1]) {
                    Ok(value) => value,
                    Err(e) => {
                        proof {
                            assert(T2::reads(views[1], Err::<T2, ErrorView>(e@)));
                            assert(is_read::<T1>(views, 0));
                        }
                        return Err(e);
                    },
                };
                assert(T2::reads(views[1], Ok::<T2, ErrorView>(v2)));
                let v3 = match T3::try_from_json(&items[2]) {
                    Ok(value) => value,
                    Err(e) => {
                        proof {
                            assert(T3::reads(views[2], Err::<T3, ErrorView>(e@)));
                            assert(is_read::<T1>(views, 0));
                            assert(is_read::<T2>(views, 1));
                        }
                        return Err(e);
                    },
                };
                assert(T3::reads(views[2], Ok::<T3, ErrorView>(v3)));
                let v4 = match T4::try_from_json(&items[3]) {
                    Ok(value) => value,
                    Err(e) => {
                        proof {
                            assert(T4::reads(views[3], Err::<T4, ErrorView>(e@)));
                            assert(is_read::<T1>(views, 0));
                            assert(is_read::<T2>(views, 1));
                            assert(is_read::<T3>(views, 2));
                        }
                        return Err(e);
                    },
                };
                assert(T4::reads(views[3], Ok::<T4, ErrorView>(v4)));
                let v5 = match T5::try_from_json(&items[4]) {
                    Ok(value) => value,
                    Err(e) => {
                        proof {
                            assert(T5::reads(views[4], Err::<T5, ErrorView>(e@)));
                            assert(is_read::<T1>(views, 0));
                            assert(is_read::<T2>(views, 1));
                            assert(is_read::<T3>(views, 2));
                            assert(is_read::<T4>(views, 3));
                        }
                        return Err(e);
                    },
                };
                assert(T5::reads(views[4], Ok::<T5, ErrorView>(v5)));
                let v6 = match T6::try_from_json(&items[5]) {
                    Ok(value) => value,
                    Err(e) => {
                        proof {
                            assert(T6::reads(views[5], Err::<T6, ErrorView>(e@)));
                            assert(is_read::<T1>(views, 0));
                            assert(is_read::<T2>(views, 1));
                            assert(is_read::<T3>(views, 2));
                            assert(is_read::<T4>(views, 3));
                            assert(is_read::<T5>(views, 4));
                        }
                        return Err(e);
                    },
                };
                assert(T6::reads(views[5], Ok::<T6, ErrorView>(v6)));
                Ok((v1, v2, v3, v4, v5, v6))
            },
            _ => Err(Error::TypeMismatch(ExpectedKind::Tuple)),
        }
    }
}

impl<T1: GetDefinition, T2: GetDefinition, T3: GetDefinition, T4: GetDefinition, T5: GetDefinition, T6: GetDefinition, T7: GetDefinition> GetDefinition for (T1, T2, T3, T4, T5, T6, T7) {
    open spec fn spec_definition() -> DefinitionView {
        DefinitionView::plain(
            DefinitionKind::Tuple(
                seq![
                    TypeView::Definition(T1::spec_definition()),
                    TypeView::Definition(T2::spec_definition()),
                    TypeView::Definition(T3::spec_definition()),
                    TypeView::Definition(T4::spec_definition()),
                    TypeView::Definition(T5::spec_definition()),
                    TypeView::Definition(T6::spec_definition()),
                    TypeView::Definition(T7::spec_definition()),
                ],
            ),
        )
    }

    fn get_definition() -> Definition {
        let mut items: Vec<Type> = Vec::new();
        items.push(Type::Definition(T1::get_definition()));
        items.push(Type::Definition(T2::get_definition()));
        items.push(Type::Definition(T3::get_definition()));
        items.push(Type::Definition(T4::get_definition()));
        items.push(Type::Definition(T5::get_definition()));
        items.push(Type::Definition(T6::get_definition()));
        items.push(Type::Definition(T7::get_definition()));
        assert(type_views(items@) =~= Self::spec_definition().kind->Tuple_0);
        Definition::Tuple(JTuple { description: None, items })
    }
}

impl<T1: FromJson, T2: FromJson, T3: FromJson, T4: FromJson, T5: FromJson, T6: FromJson, T7: FromJson> FromJson for (T1, T2, T3, T4, T5, T6, T7) {
    /// An array of 7 items is read position by position, each item
    /// into the type of its position: into the values where every item is
    /// read, else into the error of the item at which the reading stops.
    /// An array of another length, and what is no array, is refused.
    open spec fn reads(json: JsonView, outcome: Result<(T1, T2, T3, T4, T5, T6, T7), ErrorView>) -> bool {
        match json {
            JsonView::Array(items) => if items.len() != 7 {
                outcome == Err::<(T1, T2, T3, T4, T5, T6, T7), ErrorView>(ErrorView::TupleArityMismatch(7, items.len()))
            } else {
                match outcome {
                    Ok(values) => T1::reads(items[0], Ok::<T1, ErrorView>(values.0)) && T2::reads(items[1], Ok::<T2, ErrorView>(values.1)) && T3::reads(items[2], Ok::<T3, ErrorView>(values.2)) && T4::reads(items[3], Ok::<T4, ErrorView>(values.3)) && T5::reads(items[4], Ok::<T5, ErrorView>(values.4)) && T6::reads(items[5], Ok::<T6, ErrorView>(values.5)) && T7::reads(items[6], Ok::<T7, ErrorView>(values.6)),
                    Err(e) => (T1::reads(items[0], Err::<T1, ErrorView>(e)))
                        || (is_read::<T1>(items, 0) && T2::reads(items[1], Err::<T2, ErrorView>(e)))
                        || (is_read::<T1>(items, 0) && is_read::<T2>(items, 1) && T3::reads(items[2], Err::<T3, ErrorView>(e)))
                        || (is_read::<T1>(items, 0) && is_read::<T2>(items, 1) && is_read::<T3>(items, 2) && T4::reads(items[3], Err::<T4, ErrorView>(e)))
                        || (is_read::<T1>(items, 0) && is_read::<T2>(items, 1) && is_read::<T3>(items, 2) && is_read::<T4>(items, 3) && T5::reads(items[4], Err::<T5, ErrorView>(e)))
                        || (is_read::<T1>(items, 0) && is_read::<T2>(items, 1) && is_read::<T3>(items, 2) && is_read::<T4>(items, 3) && is_read::<T5>(items, 4) && T6::reads(items[5], Err::<T6, ErrorView>(e)))
                        || (is_read::<T1>(items, 0) && is_read::<T2>(items, 1) && is_read::<T3>(items, 2) && is_read::<T4>(items, 3) && is_read::<T5>(items, 4) && is_read::<T6>(items, 5) && T7::reads(items[6], Err::<T7, ErrorView>(e))),
                }
            },
            _ => outcome == Err::<(T1, T2, T3, T4, T5, T6, T7), ErrorView>(ErrorView::TypeMismatch(ExpectedKind::Tuple)),
        }
    }

    fn try_from_json(json: &JsonValue) -> (r: Result<(T1, T2, T3, T4, T5, T6, T7), Error>) {
        match json {
            JsonValue::Array(items) => {
                if items.len() != 7 {
                    return Err(Error::TupleArityMismatch(7, items.len()));
                }
                let ghost views = json_views(items@);
                let v1 = match T1::try_from_json(&items[0]) {
                    Ok(value) => value,
                    Err(e) => {
                        proof {
                            assert(T1::reads(views[0], Err::<T1, ErrorView>(e@)));
                        }
                        return Err(e);
                    },
                };
                assert(T1::reads(views[0], Ok::<T1, ErrorView>(v1)));
                let v2 = match T2::try_from_json(&items[1]) {
                    Ok(value) => value,
                    Err(e) => {
                        proof {
                            assert(T2::reads(views[1], Err::<T2, ErrorView>(e@)));
                            assert(is_read::<T1>(views, 0));
                        }
                        return Err(e);
                    },
                };
                assert(T2::reads(views[1], Ok::<T2, ErrorView>(v2)));
                let v3 = match T3::try_from_json(&items[2]) {
                    Ok(value) => value,
                    Err(e) => {
                        proof {
                            assert(T3::reads(views[2], Err::<T3, ErrorView>(e@)));
                            assert(is_read::<T1>(views, 0));
                            assert(is_read::<T2>(views, 1));
                        }
                        return Err(e);
                    },
                };
                assert(T3::reads(views[2], Ok::<T3, ErrorView>(v3)));
                let v4 = match T4::try_from_json(&items[3]) {
                    Ok(value) => value,
                    Err(e) => {
                        proof {
                            assert(T4::reads(views[3], Err::<T4, ErrorView>(e@)));
                            assert(is_read::<T1>(views, 0));
                            assert(is_read::<T2>(views, 1));
                            assert(is_read::<T3>(views, 2));
                        }
                        return Err(e);
                    },
                };
                assert(T4::reads(views[3], Ok::<T4, ErrorView>(v4)));
                let v5 = match T5::try_from_json(&items[4]) {
                    Ok(value) => value,
                    Err(e) => {
                        proof {
                            assert(T5::reads(views[4], Err::<T5, ErrorView>(e@)));
                            assert(is_read::<T1>(views, 0));
                            assert(is_read::<T2>(views, 1));
                            assert(is_read::<T3>(views, 2));
                            assert(is_read::<T4>(views, 3));
                        }
                        return Err(e);
                    },
                };
                assert(T5::reads(views[4], Ok::<T5, ErrorView>(v5)));
                let v6 = match T6::try_from_json(&items[5]) {
                    Ok(value) => value,
                    Err(e) => {
                        proof {
                            assert(T6::reads(views[5], Err::<T6, ErrorView>(e@)));
                            assert(is_read::<T1>(views, 0));
                            assert(is_read::<T2>(views, 1));
                            assert(is_read::<T3>(views, 2));
                            assert(is_read::<T4>(views, 3));
                            assert(is_read::<T5>(views, 4));
                        }
                        return Err(e);
                    },
                };
                assert(T6::reads(views[5], Ok::<T6, ErrorView>(v6)));
                let v7 = match T7::try_from_json(&items[6]) {
                    Ok(value) => value,
                    Err(e) => {
                        proof {
                            assert(T7::reads(views[6], Err::<T7, ErrorView>(e@)));
                            assert(is_read::<T1>(views, 0));
                            assert(is_read::<T2>(views, 1));
                            assert(is_read::<T3>(views, 2));
                            assert(is_read::<T4>(views, 3));
                            assert(is_read::<T5>(views, 4));
                            assert(is_read::<T6>(views, 5));
                        }
                        return Err(e);
                    },
                };
                assert(T7::reads(views[6], Ok::<T7, ErrorView>(v7)));
                Ok((v1, v2, v3, v4, v5, v6, v7))
            },
            _ => Err(Error::TypeMismatch(ExpectedKind::Tuple)),
        }
    }
}

impl<T1: GetDefinition, T2: GetDefinition, T3: GetDefinition, T4: GetDefinition, T5: GetDefinition, T6: GetDefinition, T7: GetDefinition, T8: GetDefinition> GetDefinition for (T1, T2, T3, T4, T5, T6, T7, T8) {
    open spec fn spec_definition() -> DefinitionView {
        DefinitionView::plain(
            DefinitionKind::Tuple(
                seq![
                    TypeView::Definition(T1::spec_definition()),
                    TypeView::Definition(T2::spec_definition()),
                    TypeView::Definition(T3::spec_definition()),
                    TypeView::Definition(T4::spec_definition()),
                    TypeView::Definition(T5::spec_definition()),
                    TypeView::Definition(T6::spec_definition()),
                    TypeView::Definition(T7::spec_definition()),
                    TypeView::Definition(T8::spec_definition()),
                ],
            ),
        )
    }

    fn get_definition() -> Definition {
        let mut items: Vec<Type> = Vec::new();
        items.push(Type::Definition(T1::get_definition()));
        items.push(Type::Definition(T2::get_definition()));
        items.push(Type::Definition(T3::get_definition()));
        items.push(Type::Definition(T4::get_definition()));
        items.push(Type::Definition(T5::get_definition()));
        items.push(Type::Definition(T6::get_definition()));
        items.push(Type::Definition(T7::get_definition()));
        items.push(Type::Definition(T8::get_definition()));
        assert(type_views(items@) =~= Self::spec_definition().kind->Tuple_0);
        Definition::Tuple(JTuple { description: None, items })
    }
}

impl<T1: FromJson, T2: FromJson, T3: FromJson, T4: FromJson, T5: FromJson, T6: FromJson, T7: FromJson, T8: FromJson> FromJson for (T1, T2, T3, T4, T5, T6, T7, T8) {
    /// An array of 8 items is read position by position, each item
    /// into the type of its position: into the values where every item is
    /// read, else into the error of the item at which the reading stops.
    /// An array of another length, and what is no array, is refused.
    open spec fn reads(json: JsonView, outcome: Result<(T1, T2, T3, T4, T5, T6, T7, T8), ErrorView>) -> bool {
        match json {
            JsonView::Array(items) => if items.len() != 8 {
                outcome == Err::<(T1, T2, T3, T4, T5, T6, T7, T8), ErrorView>(ErrorView::TupleArityMismatch(8, items.len()))
            } else {
                match outcome {
                    Ok(values) => T1::reads(items[0], Ok::<T1, ErrorView>(values.0)) && T2::reads(items[1], Ok::<T2, ErrorView>(values.1)) && T3::reads(items[2], Ok::<T3, ErrorView>(values.2)) && T4::reads(items[3], Ok::<T4, ErrorView>(values.3)) && T5::reads(items[4], Ok::<T5, ErrorView>(values.4)) && T6::reads(items[5], Ok::<T6, ErrorView>(values.5)) && T7::reads(items[6], Ok::<T7, ErrorView>(values.6)) && T8::reads(items[7], Ok::<T8, ErrorView>(values.7)),
                    Err(e) => (T1::reads(items[0], Err::<T1, ErrorView>(e)))
                        || (is_read::<T1>(items, 0) && T2::reads(items[1], Err::<T2, ErrorView>(e)))
                        || (is_read::<T1>(items, 0) && is_read::<T2>(items, 1) && T3::reads(items[2], Err::<T3, ErrorView>(e)))
                        || (is_read::<T1>(items, 0) && is_read::<T2>(items, 1) && is_read::<T3>(items, 2) && T4::reads(items[3], Err::<T4, ErrorView>(e)))
                        || (is_read::<T1>(items, 0) && is_read::<T2>(items, 1) && is_read::<T3>(items, 2) && is_read::<T4>(items, 3) && T5::reads(items[4], Err::<T5, ErrorView>(e)))
                        || (is_read::<T1>(items, 0) && is_read::<T2>(items, 1) && is_read::<T3>(items, 2) && is_read::<T4>(items, 3) && is_read::<T5>(items, 4) && T6::reads(items[5], Err::<T6, ErrorView>(e)))
                        || (is_read::<T1>(items, 0) && is_read::<T2>(items, 1) && is_read::<T3>(items, 2) && is_read::<T4>(items, 3) && is_read::<T5>(items, 4) && is_read::<T6>(items, 5) && T7::reads(items[6], Err::<T7, ErrorView>(e)))
                        || (is_read::<T1>(items, 0) && is_read::<T2>(items, 1) && is_read::<T3>(items, 2) && is_read::<T4>(items, 3) && is_read::<T5>(items, 4) && is_read::<T6>(items, 5) && is_read::<T7>(items, 6) && T8::reads(items[7], Err::<T8, ErrorView>(e))),
                }
            },
            _ => outcome == Err::<(T1, T2, T3, T4, T5, T6, T7, T8), ErrorView>(ErrorView::TypeMismatch(ExpectedKind::Tuple)),
        }
    }

    fn try_from_json(json: &JsonValue) -> (r: Result<(T1, T2, T3, T4, T5, T6, T7, T8), Error>) {
        match json {
            JsonValue::Array(items) => {
                if items.len() != 8 {
                    return Err(Error::TupleArityMismatch(8, items.len()));
                }
                let ghost views = json_views(items@);
                let v1 = match T1::try_from_json(&items[0]) {
                    Ok(value) => value,
                    Err(e) => {
                        proof {
                            assert(T1::reads(views[0], Err::<T1, ErrorView>(e@)));
                        }
                        return Err(e);
                    },
                };
                assert(T1::reads(views[0], Ok::<T1, ErrorView>(v1)));
                let v2 = match T2::try_from_json(&items[1]) {
                    Ok(value) => value,
                    Err(e) => {
                        proof {
                            assert(T2::reads(views[1], Err::<T2, ErrorView>(e@)));
                            assert(is_read::<T1>(views, 0));
                        }
                        return Err(e);
                    },
                };
                assert(T2::reads(views[1], Ok::<T2, ErrorView>(v2)));
                let v3 = match T3::try_from_json(&items[2]) {
                    Ok(value) => value,
                    Err(e) => {
                        proof {
                            assert(T3::reads(views[2], Err::<T3, ErrorView>(e@)));
                            assert(is_read::<T1>(views, 0));
                            assert(is_read::<T2>(views, 1));
                        }
                        return Err(e);
                    },
                };
                assert(T3::reads(views[2], Ok::<T3, ErrorView>(v3)));
                let v4 = match T4::try_from_json(&items[3]) {
                    Ok(value) => value,
                    Err(e) => {
                        proof {
                            assert(T4::reads(views[3], Err::<T4, ErrorView>(e@)));
                            assert(is_read::<T1>(views, 0));
                            assert(is_read::<T2>(views, 1));
                            assert(is_read::<T3>(views, 2));
                        }
                        return Err(e);
                    },
                };
                assert(T4::reads(views[3], Ok::<T4, ErrorView>(v4)));
                let v5 = match T5::try_from_json(&items[4]) {
                    Ok(value) => value,
                    Err(e) => {
                        proof {
                            assert(T5::reads(views[4], Err::<T5, ErrorView>(e@)));
                            assert(is_read::<T1>(views, 0));
                            assert(is_read::<T2>(views, 1));
                            assert(is_read::<T3>(views, 2));
                            assert(is_read::<T4>(views, 3));
                        }
                        return Err(e);
                    },
                };
                assert(T5::reads(views[4], Ok::<T5, ErrorView>(v5)));
                let v6 = match T6::try_from_json(&items[5]) {
                    Ok(value) => value,
                    Err(e) => {
                        proof {
                            assert(T6::reads(views[5], Err::<T6, ErrorView>(e@)));
                            assert(is_read::<T1>(views, 0));
                            assert(is_read::<T2>(views, 1));
                            assert(is_read::<T3>(views, 2));
                            assert(is_read::<T4>(views, 3));
                            assert(is_read::<T5>(views, 4));
                        }
                        return Err(e);
                    },
                };
                assert(T6::reads(views[5], Ok::<T6, ErrorView>(v6)));
                let v7 = match T7::try_from_json(&items[6]) {
                    Ok(value) => value,
                    Err(e) => {
                        proof {
                            assert(T7::reads(views[6], Err::<T7, ErrorView>(e@)));
                            assert(is_read::<T1>(views, 0));
                            assert(is_read::<T2>(views, 1));
                            assert(is_read::<T3>(views, 2));
                            assert(is_read::<T4>(views, 3));
                            assert(is_read::<T5>(views, 4));
                            assert(is_read::<T6>(views, 5));
                        }
                        return Err(e);
                    },
                };
                assert(T7::reads(views[6], Ok::<T7, ErrorView>(v7)));
                let v8 = match T8::try_from_json(&items[7]) {
                    Ok(value) => value,
                    Err(e) => {
                        proof {
                            assert(T8::reads(views[7], Err::<T8, ErrorView>(e@)));
                            assert(is_read::<T1>(views, 0));
                            assert(is_read::<T2>(views, 1));
                            assert(is_read::<T3>(views, 2));
                            assert(is_read::<T4>(views, 3));
                            assert(is_read::<T5>(views, 4));
                            assert(is_read::<T6>(views, 5));
                            assert(is_read::<T7>(views, 6));
                        }
                        return Err(e);
                    },
                };
                assert(T8::reads(views[7], Ok::<T8, ErrorView>(v8)));
                Ok((v1, v2, v3, v4, v5, v6, v7, v8))
            },
            _ => Err(Error::TypeMismatch(ExpectedKind::Tuple)),
        }
    }
}

} // verus!
