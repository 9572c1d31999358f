//! The shape model: a named schema node and the kinds it can take.
use vstd::prelude::*;

verus! {

/// A named schema node.
#[derive(Debug, PartialEq)]
pub struct Shape {
    pub shape_type: ShapeType,
    pub name: String,
}

/// The kind of a shape, with the data that kind carries.
#[derive(Debug, PartialEq)]
pub enum ShapeType {
    Blob(Blob),
    Boolean,
    Double,
    Float,
    Integer(Integer),
    List(List),
    Long,
    StringEnum(StringEnum),
    StringPattern(StringPattern),
    Structure(Structure),
    Exception(Exception),
    Timestamp,
}

/// A byte sequence; the flag says whether it is streamed.
#[derive(Debug, PartialEq)]
pub struct Blob(pub bool);

/// An integer with optional bounds.
#[derive(Debug, PartialEq)]
pub struct Integer {
    pub min: Option<i64>,
    pub max: Option<i64>,
}

/// A sequence of the shape so named.
#[derive(Debug, PartialEq)]
pub struct List(pub String);

/// An enumeration of strings, in their declared order.
#[derive(Debug, PartialEq)]
pub struct StringEnum(pub Vec<String>);

/// A string with a pattern and optional length bounds.
#[derive(Debug, PartialEq)]
pub struct StringPattern {
    pub pattern: String,
    pub min: Option<i64>,
    pub max: Option<i64>,
}

/// A record of members.
#[derive(Debug, PartialEq)]
pub struct Structure(pub Vec<Member>);

/// A record of members that describes an error, with its HTTP status code.
#[derive(Debug, PartialEq)]
pub struct Exception {
    pub members: Vec<Member>,
    pub status_code: i64,
    pub documentation: Option<String>,
}

/// One field of a structure or exception. `shape` names the field's shape.
#[derive(Debug, PartialEq)]
pub struct Member {
    pub shape: String,
    pub required: bool,
    pub documentation: Option<String>,
    pub name: String,
    pub location: Location,
}

/// Where a member's value travels on the wire.
#[derive(Debug, PartialEq)]
pub enum Location {
    Body,
    StatusCode,
    URI(String),
    QueryString(String),
    Header(String),
}

/// [`Location`] with its text as characters.
pub enum LocationView {
    Body,
    StatusCode,
    URI(Seq<char>),
    QueryString(Seq<char>),
    Header(Seq<char>),
}

/// [`Member`] with its text as characters.
pub struct MemberView {
    pub shape: Seq<char>,
    pub required: bool,
    pub documentation: Option<Seq<char>>,
    pub name: Seq<char>,
    pub location: LocationView,
}

/// [`ShapeType`] with its text as characters and its vectors as sequences.
pub enum ShapeTypeView {
    Blob { streaming: bool },
    Boolean,
    Double,
    Float,
    Integer { min: Option<i64>, max: Option<i64> },
    List { element: Seq<char> },
    Long,
    StringEnum { variants: Seq<Seq<char>> },
    StringPattern { pattern: Seq<char>, min: Option<i64>, max: Option<i64> },
    Structure { members: Seq<MemberView> },
    Exception { members: Seq<MemberView>, status_code: i64, documentation: Option<Seq<char>> },
    Timestamp,
}

/// [`Shape`] with its text as characters.
pub struct ShapeView {
    pub shape_type: ShapeTypeView,
    pub name: Seq<char>,
}

pub open spec fn opt_str_view(o: Option<String>) -> Option<Seq<char>> {
    match o {
        Some(s) => Some(s@),
        None => None,
    }
}

pub open spec fn strings_view(v: Seq<String>) -> Seq<Seq<char>> {
    v.map_values(|s: String| s@)
}

pub open spec fn members_view(v: Seq<Member>) -> Seq<MemberView> {
    v.map_values(|m: Member| m@)
}

impl View for Location {
    type V = LocationView;

    open spec fn view(&self) -> LocationView {
        match self {
            Location::Body => LocationView::Body,
            Location::StatusCode => LocationView::StatusCode,
            Location::URI(n) => LocationView::URI(n@),
            Location::QueryString(n) => LocationView::QueryString(n@),
            Location::Header(n) => LocationView::Header(n@),
        }
    }
}

impl View for Member {
    type V = MemberView;

    open spec fn view(&self) -> MemberView {
        MemberView {
            shape: self.shape@,
            required: self.required,
            documentation: opt_str_view(self.documentation),
            name: self.name@,
            location: self.location@,
        }
    }
}

impl View for ShapeType {
    type V = ShapeTypeView;

    open spec fn view(&self) -> ShapeTypeView {
        match self {
            ShapeType::Blob(b) => ShapeTypeView::Blob { streaming: b.0 },
            ShapeType::Boolean => ShapeTypeView::Boolean,
            ShapeType::Double => ShapeTypeView::Double,
            ShapeType::Float => ShapeTypeView::Float,
            ShapeType::Integer(i) => ShapeTypeView::Integer { min: i.min, max: i.max },
            ShapeType::List(l) => ShapeTypeView::List { element: l.0@ },
            ShapeType::Long => ShapeTypeView::Long,
            ShapeType::StringEnum(e) => ShapeTypeView::StringEnum { variants: strings_view(e.0@) },
            ShapeType::StringPattern(p) => ShapeTypeView::StringPattern {
                pattern: p.pattern@,
                min: p.min,
                max: p.max,
            },
            ShapeType::Structure(s) => ShapeTypeView::Structure { members: members_view(s.0@) },
            ShapeType::Exception(e) => ShapeTypeView::Exception {
                members: members_view(e.members@),
                status_code: e.status_code,
                documentation: opt_str_view(e.documentation),
            },
            ShapeType::Timestamp => ShapeTypeView::Timestamp,
        }
    }
}

impl View for Shape {
    type V = ShapeView;

    open spec fn view(&self) -> ShapeView {
        ShapeView { shape_type: self.shape_type@, name: self.name@ }
    }
}

} // verus!
