//! What can go wrong while parsing a shape.
use vstd::prelude::*;

verus! {

/// Why a shape could not be parsed. Each variant names the construct at fault.
#[derive(Debug, PartialEq, Eq)]
pub enum ParseError {
    /// The shape's JSON value is not an object.
    ExpectedObject,
    /// The `type` entry is missing or is not a string.
    TypeStringMissing,
    /// The `type` entry names no known shape kind.
    InvalidTypeString,
    /// A member's `location` names no supported location.
    NotImplemented,
    /// An integer shape's `max` is not an `i64`.
    InvalidMaxInteger,
    /// An integer shape's `min` is not an `i64`.
    InvalidMinInteger,
    /// A list shape has no `member` entry.
    MissingListMember,
    /// A list shape's `member` is not an object.
    InvalidListMember,
    /// A list shape's `member` has no `shape` entry.
    MissingListShape,
    /// A list shape's `member.shape` is not a string.
    InvalidListShape,
    /// A string shape's `enum` is not an array.
    InvalidStringEnum,
    /// An entry of a string shape's `enum` is not a string.
    InvalidStringVariant,
    /// A string shape's `min` is not an `i64`.
    InvalidStringMin,
    /// A string shape's `max` is not an `i64`.
    InvalidStringMax,
    /// A string shape's `pattern` is not a string.
    InvalidStringPattern,
    /// A structure has no `members` entry.
    StructureHasNoMembers,
    /// A structure's `members` is not an object.
    InvalidStructureMembers,
    /// An entry of a structure's `required` is not a string.
    InvalidRequired,
    /// The member so named (or its location) is malformed.
    InvalidMember(String),
    /// An exception lacks an integer `error.httpStatusCode`.
    MissingErrorInException,
}

/// [`ParseError`] with its text as a sequence of characters.
pub enum ParseErrorView {
    ExpectedObject,
    TypeStringMissing,
    InvalidTypeString,
    NotImplemented,
    InvalidMaxInteger,
    InvalidMinInteger,
    MissingListMember,
    InvalidListMember,
    MissingListShape,
    InvalidListShape,
    InvalidStringEnum,
    InvalidStringVariant,
    InvalidStringMin,
    InvalidStringMax,
    InvalidStringPattern,
    StructureHasNoMembers,
    InvalidStructureMembers,
    InvalidRequired,
    InvalidMember(Seq<char>),
    MissingErrorInException,
}

impl View for ParseError {
    type V = ParseErrorView;

    open spec fn view(&self) -> ParseErrorView {
        match self {
            ParseError::ExpectedObject => ParseErrorView::ExpectedObject,
            ParseError::TypeStringMissing => ParseErrorView::TypeStringMissing,
            ParseError::InvalidTypeString => ParseErrorView::InvalidTypeString,
            ParseError::NotImplemented => ParseErrorView::NotImplemented,
            ParseError::InvalidMaxInteger => ParseErrorView::InvalidMaxInteger,
            ParseError::InvalidMinInteger => ParseErrorView::InvalidMinInteger,
            ParseError::MissingListMember => ParseErrorView::MissingListMember,
            ParseError::InvalidListMember => ParseErrorView::InvalidListMember,
            ParseError::MissingListShape => ParseErrorView::MissingListShape,
            ParseError::InvalidListShape => ParseErrorView::InvalidListShape,
            ParseError::InvalidStringEnum => ParseErrorView::InvalidStringEnum,
            ParseError::InvalidStringVariant => ParseErrorView::InvalidStringVariant,
            ParseError::InvalidStringMin => ParseErrorView::InvalidStringMin,
            ParseError::InvalidStringMax => ParseErrorView::InvalidStringMax,
            ParseError::InvalidStringPattern => ParseErrorView::InvalidStringPattern,
            ParseError::StructureHasNoMembers => ParseErrorView::StructureHasNoMembers,
            ParseError::InvalidStructureMembers => ParseErrorView::InvalidStructureMembers,
            ParseError::InvalidRequired => ParseErrorView::InvalidRequired,
            ParseError::InvalidMember(name) => ParseErrorView::InvalidMember(name@),
            ParseError::MissingErrorInException => ParseErrorView::MissingErrorInException,
        }
    }
}

} // verus!
