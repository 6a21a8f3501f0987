//! The errors of generation, validation and instantiation.

use crate::kinds::VariantType;
use vstd::prelude::*;

verus! {

/// The shape that a schema node asks of a JSON value.
#[derive(Clone, Copy, Debug, PartialEq, Eq, Structural)]
pub enum ExpectedKind {
    Null,
    Boolean,
    Integer,
    Number,
    String,
    Array,
    Object,
    Tuple,
    Enum,
    Class,
}

/// The family that an error belongs to.
#[derive(Clone, Copy, Debug, PartialEq, Eq, Structural)]
pub enum ErrorCategory {
    /// A class, enum or hint could not be turned into a type.
    Resolution,
    /// A reference names no node of the definitions table.
    Graph,
    /// A text is no JSON, a document no schema, or a value breaks its schema.
    Validation,
    /// A JSON value does not have the shape of its schema node.
    Conversion,
}

/// What went wrong.
#[derive(Clone, Debug, PartialEq, Eq)]
pub enum Error {
    /// An enum path is not of the form `ClassName.EnumName`.
    EnumPathMalformed(String),
    /// The host knows no class of this name.
    ClassNotFound(String),
    /// The class (first) has no enum of this name (second), or one with
    /// fewer than two variants.
    EnumNotFound(String, String),
    /// A hint payload names nothing that is known.
    UnsupportedHint(String),
    /// A value kind has no schema node.
    UnsupportedKind(VariantType),
    /// A reference names no node of the definitions table.
    DanglingReference(String),
    /// A text is not JSON; the message is the parser's.
    Parse(String),
    /// A generated document is no valid schema; the message is the engine's.
    InvalidSchema(String),
    /// A value breaks its schema; the messages are the engine's, one for
    /// each violation.
    Validation(Vec<String>),
    /// A document could not be written out; the message is the writer's.
    Serialization(String),
    /// The JSON value is of another shape than the node asks for.
    TypeMismatch(ExpectedKind),
    /// A number with a fraction stands where an integer is asked for.
    ExpectedIntegerGotFloat,
    /// An integer lies outside the range of the integer kind it is meant for.
    IntegerOutOfRange,
    /// An object has another number of members (second) than its node has
    /// properties (first).
    PropertyCountMismatch(usize, usize),
    /// An object lacks a declared property.
    MissingProperty(String),
    /// An object has a member that is no declared property.
    UnknownProperty(String),
    /// An array has another length (second) than its tuple has positions
    /// (first).
    TupleArityMismatch(usize, usize),
    /// A string (first) is none of the variant names (second).
    UnknownVariant(String, Vec<String>),
}

/// The mathematical value of an [`Error`].
pub enum ErrorView {
    EnumPathMalformed(Seq<char>),
    ClassNotFound(Seq<char>),
    EnumNotFound(Seq<char>, Seq<char>),
    UnsupportedHint(Seq<char>),
    UnsupportedKind(VariantType),
    DanglingReference(Seq<char>),
    Parse(Seq<char>),
    InvalidSchema(Seq<char>),
    Validation(Seq<Seq<char>>),
    Serialization(Seq<char>),
    TypeMismatch(ExpectedKind),
    ExpectedIntegerGotFloat,
    IntegerOutOfRange,
    PropertyCountMismatch(nat, nat),
    MissingProperty(Seq<char>),
    UnknownProperty(Seq<char>),
    TupleArityMismatch(nat, nat),
    UnknownVariant(Seq<char>, Seq<Seq<char>>),
}

impl ErrorView {
    /// The family of the error.
    pub open spec fn category(self) -> ErrorCategory {
        match self {
            ErrorView::EnumPathMalformed(_)
            | ErrorView::ClassNotFound(_)
            | ErrorView::EnumNotFound(_, _)
            | ErrorView::UnsupportedHint(_)
            | ErrorView::UnsupportedKind(_) => ErrorCategory::Resolution,
            ErrorView::DanglingReference(_) => ErrorCategory::Graph,
            ErrorView::Parse(_)
            | ErrorView::InvalidSchema(_)
            | ErrorView::Validation(_)
            | ErrorView::Serialization(_) => ErrorCategory::Validation,
            _ => ErrorCategory::Conversion,
        }
    }
}

/// The texts of a list of strings.
pub open spec fn text_views(list: Seq<String>) -> Seq<Seq<char>> {
    Seq::new(list.len(), |i: int| list[i]@)
}

impl View for Error {
    type V = ErrorView;

    open spec fn view(&self) -> ErrorView {
        match self {
            Error::EnumPathMalformed(path) => ErrorView::EnumPathMalformed(path@),
            Error::ClassNotFound(name) => ErrorView::ClassNotFound(name@),
            Error::EnumNotFound(class, name) => ErrorView::EnumNotFound(class@, name@),
            Error::UnsupportedHint(hint) => ErrorView::UnsupportedHint(hint@),
            Error::UnsupportedKind(kind) => ErrorView::UnsupportedKind(*kind),
            Error::DanglingReference(name) => ErrorView::DanglingReference(name@),
            Error::Parse(message) => ErrorView::Parse(message@),
            Error::InvalidSchema(message) => ErrorView::InvalidSchema(message@),
            Error::Validation(messages) => ErrorView::Validation(text_views(messages@)),
            Error::Serialization(message) => ErrorView::Serialization(message@),
            Error::TypeMismatch(kind) => ErrorView::TypeMismatch(*kind),
            Error::ExpectedIntegerGotFloat => ErrorView::ExpectedIntegerGotFloat,
            Error::IntegerOutOfRange => ErrorView::IntegerOutOfRange,
            Error::PropertyCountMismatch(expected, found) => ErrorView::PropertyCountMismatch(
                *expected as nat,
                *found as nat,
            ),
            Error::MissingProperty(name) => ErrorView::MissingProperty(name@),
            Error::UnknownProperty(name) => ErrorView::UnknownProperty(name@),
            Error::TupleArityMismatch(expected, found) => ErrorView::TupleArityMismatch(
                *expected as nat,
                *found as nat,
            ),
            Error::UnknownVariant(found, valid) => ErrorView::UnknownVariant(
                found@,
                text_views(valid@),
            ),
        }
    }
}

impl Error {
    /// The family of the error.
    pub fn category(&self) -> (r: ErrorCategory)
        ensures
            r == self@.category(),
    {
        match self {
            Error::EnumPathMalformed(_)
            | Error::ClassNotFound(_)
            | Error::EnumNotFound(_, _)
            | Error::UnsupportedHint(_)
            | Error::UnsupportedKind(_) => ErrorCategory::Resolution,
            Error::DanglingReference(_) => ErrorCategory::Graph,
            Error::Parse(_)
            | Error::InvalidSchema(_)
            | Error::Validation(_)
            | Error::Serialization(_) => ErrorCategory::Validation,
            _ => ErrorCategory::Conversion,
        }
    }
}

} // verus!
