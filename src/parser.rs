//! Turns the JSON object of one shape into a [`Shape`], or a [`ParseError`]
//! that names the construct at fault.
//!
//! The members of a structure or exception are taken in the order of the
//! entries of its `members` object.
use vstd::prelude::*;
use crate::error::{ParseError, ParseErrorView};
use crate::json::{JsonValue, lookup, has_key, get, contains_key, str_eq};
use crate::shape::{
    Shape, ShapeType, Blob, Integer, List, StringEnum, StringPattern, Structure, Exception,
    Member, Location, ShapeView, ShapeTypeView, MemberView, LocationView, opt_str_view,
    strings_view, members_view,
};

verus! {

// ---------------------------------------------------------------------------
// What parsing yields
// ---------------------------------------------------------------------------

pub open spec fn deref_opt(o: Option<&JsonValue>) -> Option<JsonValue> {
    match o {
        Some(v) => Some(*v),
        None => None,
    }
}

/// An optional integer entry: absent is `Ok(None)`, an `i64` is `Ok(Some(n))`,
/// anything else is `Err(())`.
pub open spec fn opt_int(v: Option<JsonValue>) -> Result<Option<i64>, ()> {
    match v {
        None => Ok(None),
        Some(JsonValue::Integer(n)) => Ok(Some(n)),
        Some(_) => Err(()),
    }
}

/// The strings of an array, when every item is a string.
pub open spec fn string_list(items: Seq<JsonValue>) -> Option<Seq<Seq<char>>> {
    if forall|i: int| 0 <= i < items.len() ==> (#[trigger] items[i]) is Str {
        Some(items.map_values(|v: JsonValue| v->Str_0@))
    } else {
        None
    }
}

/// An optional `documentation` entry: absent is `Ok(None)`, a string is
/// `Ok(Some(d))`, anything else is `Err(())`.
pub open spec fn spec_documentation(obj: Seq<(String, JsonValue)>) -> Result<Option<Seq<char>>, ()> {
    match lookup(obj, "documentation"@) {
        None => Ok(None),
        Some(JsonValue::Str(d)) => Ok(Some(d@)),
        Some(_) => Err(()),
    }
}

/// An exception's documentation. No error kind names a malformed one, so a
/// `documentation` that is not a string leaves the exception undocumented.
pub open spec fn spec_exception_documentation(obj: Seq<(String, JsonValue)>) -> Option<Seq<char>> {
    match spec_documentation(obj) {
        Ok(d) => d,
        Err(_) => None,
    }
}

pub open spec fn spec_parse_integer(obj: Seq<(String, JsonValue)>) -> Result<ShapeTypeView, ParseErrorView> {
    match opt_int(lookup(obj, "max"@)) {
        Err(_) => Err(ParseErrorView::InvalidMaxInteger),
        Ok(max) => match opt_int(lookup(obj, "min"@)) {
            Err(_) => Err(ParseErrorView::InvalidMinInteger),
            Ok(min) => Ok(ShapeTypeView::Integer { min, max }),
        },
    }
}

pub open spec fn spec_parse_list(obj: Seq<(String, JsonValue)>) -> Result<ShapeTypeView, ParseErrorView> {
    match lookup(obj, "member"@) {
        None => Err(ParseErrorView::MissingListMember),
        Some(JsonValue::Object(member)) => match lookup(member@, "shape"@) {
            None => Err(ParseErrorView::MissingListShape),
            Some(JsonValue::Str(s)) => Ok(ShapeTypeView::List { element: s@ }),
            Some(_) => Err(ParseErrorView::InvalidListShape),
        },
        Some(_) => Err(ParseErrorView::InvalidListMember),
    }
}

pub open spec fn spec_parse_string_enum(obj: Seq<(String, JsonValue)>) -> Result<ShapeTypeView, ParseErrorView> {
    match lookup(obj, "enum"@) {
        Some(JsonValue::Array(items)) => match string_list(items@) {
            Some(variants) => Ok(ShapeTypeView::StringEnum { variants }),
            None => Err(ParseErrorView::InvalidStringVariant),
        },
        _ => Err(ParseErrorView::InvalidStringEnum),
    }
}

/// A minimum length of zero is no minimum.
pub open spec fn normalize_min(min: Option<i64>) -> Option<i64> {
    if min == Some(0i64) {
        None
    } else {
        min
    }
}

pub open spec fn spec_parse_string_pattern(obj: Seq<(String, JsonValue)>) -> Result<ShapeTypeView, ParseErrorView> {
    match opt_int(lookup(obj, "max"@)) {
        Err(_) => Err(ParseErrorView::InvalidStringMax),
        Ok(max) => match opt_int(lookup(obj, "min"@)) {
            Err(_) => Err(ParseErrorView::InvalidStringMin),
            Ok(min) => match lookup(obj, "pattern"@) {
                None => Ok(ShapeTypeView::StringPattern { pattern: ".*"@, min: normalize_min(min), max }),
                Some(JsonValue::Str(p)) => Ok(ShapeTypeView::StringPattern { pattern: p@, min: normalize_min(min), max }),
                Some(_) => Err(ParseErrorView::InvalidStringPattern),
            },
        },
    }
}

pub open spec fn spec_parse_string(obj: Seq<(String, JsonValue)>) -> Result<ShapeTypeView, ParseErrorView> {
    if has_key(obj, "enum"@) {
        spec_parse_string_enum(obj)
    } else {
        spec_parse_string_pattern(obj)
    }
}

pub open spec fn spec_parse_location(location: Option<JsonValue>, location_name: Option<JsonValue>) -> Result<LocationView, ParseErrorView> {
    match location {
        None => Ok(LocationView::Body),
        Some(JsonValue::Str(loc)) => if loc@ == "statusCode"@ {
            Ok(LocationView::StatusCode)
        } else {
            match location_name {
                Some(JsonValue::Str(n)) => if loc@ == "uri"@ {
                    Ok(LocationView::URI(n@))
                } else if loc@ == "querystring"@ {
                    Ok(LocationView::QueryString(n@))
                } else if loc@ == "header"@ {
                    Ok(LocationView::Header(n@))
                } else {
                    Err(ParseErrorView::NotImplemented)
                },
                _ => Err(ParseErrorView::InvalidMember("Unknown"@)),
            }
        },
        Some(_) => Err(ParseErrorView::InvalidMember("Unknown"@)),
    }
}

pub open spec fn spec_parse_member(name: Seq<char>, required: bool, raw: JsonValue) -> Result<MemberView, ParseErrorView> {
    match raw {
        JsonValue::Object(obj) => match lookup(obj@, "shape"@) {
            Some(JsonValue::Str(shape)) => match spec_documentation(obj@) {
                Err(_) => Err(ParseErrorView::InvalidMember(name)),
                Ok(documentation) => match spec_parse_location(
                    lookup(obj@, "location"@),
                    lookup(obj@, "locationName"@),
                ) {
                    Ok(location) => Ok(MemberView { shape: shape@, required, documentation, name, location }),
                    Err(e) => Err(e),
                },
            },
            _ => Err(ParseErrorView::InvalidMember(name)),
        },
        _ => Err(ParseErrorView::InvalidMember(name)),
    }
}

/// The names listed under `required`; an entry that is not an array lists none.
pub open spec fn spec_required(obj: Seq<(String, JsonValue)>) -> Result<Seq<Seq<char>>, ParseErrorView> {
    match lookup(obj, "required"@) {
        Some(JsonValue::Array(items)) => match string_list(items@) {
            Some(names) => Ok(names),
            None => Err(ParseErrorView::InvalidRequired),
        },
        _ => Ok(Seq::empty()),
    }
}

/// The members of `entries` in order, or the error of the first that fails.
pub open spec fn spec_parse_members(entries: Seq<(String, JsonValue)>, required: Seq<Seq<char>>) -> Result<Seq<MemberView>, ParseErrorView>
    decreases entries.len(),
{
    if entries.len() == 0 {
        Ok(Seq::empty())
    } else {
        let name = entries[0].0@;
        match spec_parse_member(name, required.contains(name), entries[0].1) {
            Err(e) => Err(e),
            Ok(m) => match spec_parse_members(entries.drop_first(), required) {
                Err(e) => Err(e),
                Ok(ms) => Ok(seq![m] + ms),
            },
        }
    }
}

/// `prefix` followed by the members of `r`, or the error of `r`.
pub open spec fn prepend(prefix: Seq<MemberView>, r: Result<Seq<MemberView>, ParseErrorView>) -> Result<Seq<MemberView>, ParseErrorView> {
    match r {
        Ok(ms) => Ok(prefix + ms),
        Err(e) => Err(e),
    }
}

/// The members of a structure (and of an exception).
pub open spec fn spec_structure_members(obj: Seq<(String, JsonValue)>) -> Result<Seq<MemberView>, ParseErrorView> {
    match spec_required(obj) {
        Err(e) => Err(e),
        Ok(required) => match lookup(obj, "members"@) {
            None => Err(ParseErrorView::StructureHasNoMembers),
            Some(JsonValue::Object(entries)) => spec_parse_members(entries@, required),
            Some(_) => Err(ParseErrorView::InvalidStructureMembers),
        },
    }
}

pub open spec fn spec_parse_structure(obj: Seq<(String, JsonValue)>) -> Result<ShapeTypeView, ParseErrorView> {
    match spec_structure_members(obj) {
        Ok(members) => Ok(ShapeTypeView::Structure { members }),
        Err(e) => Err(e),
    }
}

/// The status code under `error.httpStatusCode`.
pub open spec fn spec_status_code(obj: Seq<(String, JsonValue)>) -> Option<i64> {
    match lookup(obj, "error"@) {
        Some(JsonValue::Object(err)) => match lookup(err@, "httpStatusCode"@) {
            Some(JsonValue::Integer(code)) => Some(code),
            _ => None,
        },
        _ => None,
    }
}

pub open spec fn spec_parse_exception(obj: Seq<(String, JsonValue)>) -> Result<ShapeTypeView, ParseErrorView> {
    match spec_structure_members(obj) {
        Err(e) => Err(e),
        Ok(members) => match spec_status_code(obj) {
            Some(status_code) => Ok(ShapeTypeView::Exception {
                members,
                status_code,
                documentation: spec_exception_documentation(obj),
            }),
            None => Err(ParseErrorView::MissingErrorInException),
        },
    }
}

pub open spec fn spec_parse_structure_or_exception(obj: Seq<(String, JsonValue)>) -> Result<ShapeTypeView, ParseErrorView> {
    if has_key(obj, "exception"@) {
        spec_parse_exception(obj)
    } else {
        spec_parse_structure(obj)
    }
}

/// The shape kind that the `type` entry selects, with its data.
pub open spec fn spec_parse_shape_type(obj: Seq<(String, JsonValue)>) -> Result<ShapeTypeView, ParseErrorView> {
    match lookup(obj, "type"@) {
        Some(JsonValue::Str(t)) => {
            let t = t@;
            if t == "blob"@ {
                Ok(ShapeTypeView::Blob { streaming: has_key(obj, "streaming"@) })
            } else if t == "boolean"@ {
                Ok(ShapeTypeView::Boolean)
            } else if t == "double"@ {
                Ok(ShapeTypeView::Double)
            } else if t == "float"@ {
                Ok(ShapeTypeView::Float)
            } else if t == "integer"@ {
                spec_parse_integer(obj)
            } else if t == "list"@ {
                spec_parse_list(obj)
            } else if t == "long"@ {
                Ok(ShapeTypeView::Long)
            } else if t == "structure"@ {
                spec_parse_structure_or_exception(obj)
            } else if t == "timestamp"@ {
                Ok(ShapeTypeView::Timestamp)
            } else if t == "string"@ {
                spec_parse_string(obj)
            } else {
                Err(ParseErrorView::InvalidTypeString)
            }
        },
        _ => Err(ParseErrorView::TypeStringMissing),
    }
}

/// The shape named `name` that `json` describes.
pub open spec fn spec_parse_shape(name: Seq<char>, json: JsonValue) -> Result<ShapeView, ParseErrorView> {
    match json {
        JsonValue::Object(obj) => match spec_parse_shape_type(obj@) {
            Ok(shape_type) => Ok(ShapeView { shape_type, name }),
            Err(e) => Err(e),
        },
        _ => Err(ParseErrorView::ExpectedObject),
    }
}

pub open spec fn shape_result_view(r: Result<Shape, ParseError>) -> Result<ShapeView, ParseErrorView> {
    match r {
        Ok(s) => Ok(s@),
        Err(e) => Err(e@),
    }
}

pub open spec fn type_result_view(r: Result<ShapeType, ParseError>) -> Result<ShapeTypeView, ParseErrorView> {
    match r {
        Ok(t) => Ok(t@),
        Err(e) => Err(e@),
    }
}

// ---------------------------------------------------------------------------
// Parsing
// ---------------------------------------------------------------------------

/// Reads an optional integer entry.
fn read_opt_int(v: Option<&JsonValue>) -> (r: Result<Option<i64>, ()>)
    ensures
        r == opt_int(deref_opt(v)),
{
    match v {
        None => Ok(None),
        Some(JsonValue::Integer(n)) => Ok(Some(*n)),
        Some(_) => Err(()),
    }
}

/// The strings of an array, when every item is a string.
fn read_string_list(items: &Vec<JsonValue>) -> (r: Option<Vec<String>>)
    ensures
        match r {
            Some(v) => string_list(items@) == Some(strings_view(v@)),
            None => string_list(items@) is None,
        },
{
    let mut out: Vec<String> = Vec::new();
    let mut i: usize = 0;
    while i < items.len()
        invariant
            i <= items@.len(),
            out@.len() == i,
            forall|j: int| 0 <= j < i ==> (#[trigger] items@[j]) is Str,
            forall|j: int| 0 <= j < i ==> (#[trigger] out@[j])@ == items@[j]->Str_0@,
        decreases items@.len() - i,
    {
        match &items[i] {
            JsonValue::Str(s) => {
                out.push(s.clone());
            },
            _ => {
                return None;
            },
        }
        i = i + 1;
    }
    assert(strings_view(out@) =~= items@.map_values(|v: JsonValue| v->Str_0@));
    Some(out)
}

/// Reads an optional `documentation` entry.
fn read_documentation(obj: &Vec<(String, JsonValue)>) -> (r: Result<Option<String>, ()>)
    ensures
        match r {
            Ok(d) => spec_documentation(obj@) == Ok::<Option<Seq<char>>, ()>(opt_str_view(d)),
            Err(_) => spec_documentation(obj@) is Err,
        },
{
    match get(obj, "documentation") {
        None => Ok(None),
        Some(JsonValue::Str(d)) => Ok(Some(d.clone())),
        Some(_) => Err(()),
    }
}

impl Blob {
    /// A blob; it is streamed when the object has a `streaming` entry.
    pub fn parse(obj: &Vec<(String, JsonValue)>) -> (r: Result<ShapeType, ParseError>)
        ensures
            type_result_view(r) == Ok::<ShapeTypeView, ParseErrorView>(
                ShapeTypeView::Blob { streaming: has_key(obj@, "streaming"@) },
            ),
    {
        let streaming = contains_key(obj, "streaming");
        Ok(ShapeType::Blob(Blob(streaming)))
    }
}

impl Integer {
    /// An integer with its optional `min` and `max` bounds.
    pub fn parse(obj: &Vec<(String, JsonValue)>) -> (r: Result<ShapeType, ParseError>)
        ensures
            type_result_view(r) == spec_parse_integer(obj@),
    {
        let max = match read_opt_int(get(obj, "max")) {
            Ok(max) => max,
            Err(_) => return Err(ParseError::InvalidMaxInteger),
        };
        let min = match read_opt_int(get(obj, "min")) {
            Ok(min) => min,
            Err(_) => return Err(ParseError::InvalidMinInteger),
        };
        Ok(ShapeType::Integer(Integer { min, max }))
    }
}

impl List {
    /// A list, keeping the name of its element shape from `member.shape`.
    pub fn parse(obj: &Vec<(String, JsonValue)>) -> (r: Result<ShapeType, ParseError>)
        ensures
            type_result_view(r) == spec_parse_list(obj@),
    {
        let member = match get(obj, "member") {
            None => return Err(ParseError::MissingListMember),
            Some(JsonValue::Object(member)) => member,
            Some(_) => return Err(ParseError::InvalidListMember),
        };
        match get(member, "shape") {
            None => Err(ParseError::MissingListShape),
            Some(JsonValue::Str(s)) => Ok(ShapeType::List(List(s.clone()))),
            Some(_) => Err(ParseError::InvalidListShape),
        }
    }
}

impl StringEnum {
    /// An enumeration whose variants are the strings of `enum`, in order.
    pub fn parse(obj: &Vec<(String, JsonValue)>) -> (r: Result<ShapeType, ParseError>)
        ensures
            type_result_view(r) == spec_parse_string_enum(obj@),
    {
        match get(obj, "enum") {
            Some(JsonValue::Array(items)) => match read_string_list(items) {
                Some(variants) => Ok(ShapeType::StringEnum(StringEnum(variants))),
                None => Err(ParseError::InvalidStringVariant),
            },
            _ => Err(ParseError::InvalidStringEnum),
        }
    }
}

impl StringPattern {
    /// A string with its `pattern` (`.*` when absent) and its optional
    /// `min` and `max` lengths; a `min` of zero is no minimum.
    pub fn parse(obj: &Vec<(String, JsonValue)>) -> (r: Result<ShapeType, ParseError>)
        ensures
            type_result_view(r) == spec_parse_string_pattern(obj@),
    {
        let max = match read_opt_int(get(obj, "max")) {
            Ok(max) => max,
            Err(_) => return Err(ParseError::InvalidStringMax),
        };
        let min = match read_opt_int(get(obj, "min")) {
            Ok(Some(0)) => None,
            Ok(min) => min,
            Err(_) => return Err(ParseError::InvalidStringMin),
        };
        let pattern = match get(obj, "pattern") {
            None => ".*".to_owned(),
            Some(JsonValue::Str(p)) => p.clone(),
            Some(_) => return Err(ParseError::InvalidStringPattern),
        };
        Ok(ShapeType::StringPattern(StringPattern { pattern, min, max }))
    }
}

/// A string shape: an enumeration when the object has an `enum` entry, else a
/// pattern.
pub fn parse_string_enum_or_pattern(obj: &Vec<(String, JsonValue)>) -> (r: Result<ShapeType, ParseError>)
    ensures
        type_result_view(r) == spec_parse_string(obj@),
{
    if contains_key(obj, "enum") {
        return StringEnum::parse(obj);
    }
    StringPattern::parse(obj)
}

impl Location {
    /// Where a member travels: `Body` when there is no `location`,
    /// `StatusCode` for `"statusCode"`, else the location named by
    /// `location` (`uri`, `querystring` or `header`) under `locationName`.
    pub fn parse(location: Option<&JsonValue>, location_name: Option<&JsonValue>) -> (r: Result<Location, ParseError>)
        ensures
            match r {
                Ok(l) => spec_parse_location(deref_opt(location), deref_opt(location_name)) == Ok::<LocationView, ParseErrorView>(l@),
                Err(e) => spec_parse_location(deref_opt(location), deref_opt(location_name)) == Err::<LocationView, ParseErrorView>(e@),
            },
    {
        let loc = match location {
            None => return Ok(Location::Body),
            Some(JsonValue::Str(loc)) => loc,
            Some(_) => return Err(ParseError::InvalidMember("Unknown".to_owned())),
        };
        if str_eq(loc.as_str(), "statusCode") {
            return Ok(Location::StatusCode);
        }
        let name = match location_name {
            Some(JsonValue::Str(n)) => n,
            _ => return Err(ParseError::InvalidMember("Unknown".to_owned())),
        };
        if str_eq(loc.as_str(), "uri") {
            Ok(Location::URI(name.clone()))
        } else if str_eq(loc.as_str(), "querystring") {
            Ok(Location::QueryString(name.clone()))
        } else if str_eq(loc.as_str(), "header") {
            Ok(Location::Header(name.clone()))
        } else {
            Err(ParseError::NotImplemented)
        }
    }
}

impl Member {
    /// The member `name` described by `raw_member`.
    pub fn parse(name: &str, required: bool, raw_member: &JsonValue) -> (r: Result<Member, ParseError>)
        ensures
            match r {
                Ok(m) => spec_parse_member(name@, required, *raw_member) == Ok::<MemberView, ParseErrorView>(m@),
                Err(e) => spec_parse_member(name@, required, *raw_member) == Err::<MemberView, ParseErrorView>(e@),
            },
    {
        let obj = match raw_member {
            JsonValue::Object(obj) => obj,
            _ => return Err(ParseError::InvalidMember(name.to_owned())),
        };
        let shape = match get(obj, "shape") {
            Some(JsonValue::Str(shape)) => shape,
            _ => return Err(ParseError::InvalidMember(name.to_owned())),
        };
        let documentation = match read_documentation(obj) {
            Ok(documentation) => documentation,
            Err(_) => return Err(ParseError::InvalidMember(name.to_owned())),
        };
        let location = match Location::parse(get(obj, "location"), get(obj, "locationName")) {
            Ok(location) => location,
            Err(e) => return Err(e),
        };
        Ok(Member { name: name.to_owned(), required, documentation, shape: shape.clone(), location })
    }
}

/// Whether `names` holds `name`.
fn contains_name(names: &Vec<String>, name: &str) -> (r: bool)
    ensures
        r == strings_view(names@).contains(name@),
{
    let mut i: usize = 0;
    while i < names.len()
        invariant
            i <= names@.len(),
            forall|j: int| 0 <= j < i ==> (#[trigger] names@[j])@ != name@,
        decreases names@.len() - i,
    {
        if str_eq(names[i].as_str(), name) {
            assert(strings_view(names@)[i as int] == name@);
            return true;
        }
        i = i + 1;
    }
    assert(!strings_view(names@).contains(name@)) by {
        if strings_view(names@).contains(name@) {
            let j = choose|j: int| 0 <= j < strings_view(names@).len() && strings_view(names@)[j] == name@;
            assert(names@[j]@ == name@);
        }
    }
    false
}

/// The names listed under `required`.
fn read_required(obj: &Vec<(String, JsonValue)>) -> (r: Result<Vec<String>, ParseError>)
    ensures
        match r {
            Ok(names) => spec_required(obj@) == Ok::<Seq<Seq<char>>, ParseErrorView>(strings_view(names@)),
            Err(e) => spec_required(obj@) == Err::<Seq<Seq<char>>, ParseErrorView>(e@),
        },
{
    match get(obj, "required") {
        Some(JsonValue::Array(items)) => match read_string_list(items) {
            Some(names) => Ok(names),
            None => Err(ParseError::InvalidRequired),
        },
        _ => {
            let names: Vec<String> = Vec::new();
            assert(strings_view(names@) =~= Seq::<Seq<char>>::empty());
            Ok(names)
        },
    }
}

/// The members of a structure (and of an exception), in the order of the
/// entries of `members`.
fn parse_members(obj: &Vec<(String, JsonValue)>) -> (r: Result<Vec<Member>, ParseError>)
    ensures
        match r {
            Ok(ms) => spec_structure_members(obj@) == Ok::<Seq<MemberView>, ParseErrorView>(members_view(ms@)),
            Err(e) => spec_structure_members(obj@) == Err::<Seq<MemberView>, ParseErrorView>(e@),
        },
{
    let required = match read_required(obj) {
        Ok(required) => required,
        Err(e) => return Err(e),
    };
    let entries = match get(obj, "members") {
        None => return Err(ParseError::StructureHasNoMembers),
        Some(JsonValue::Object(entries)) => entries,
        Some(_) => return Err(ParseError::InvalidStructureMembers),
    };
    let ghost req = strings_view(required@);
    let mut members: Vec<Member> = Vec::new();
    let mut i: usize = 0;
    assert(entries@.skip(0) =~= entries@);
    assert(members_view(members@) =~= Seq::<MemberView>::empty());
    while i < entries.len()
        invariant
            i <= entries@.len(),
            req == strings_view(required@),
            spec_required(obj@) == Ok::<Seq<Seq<char>>, ParseErrorView>(req),
            lookup(obj@, "members"@) == Some(JsonValue::Object(*entries)),
            spec_parse_members(entries@, req) == prepend(
                members_view(members@),
                spec_parse_members(entries@.skip(i as int), req),
            ),
        decreases entries@.len() - i,
    {
        let ghost rest = entries@.skip(i as int);
        assert(rest.drop_first() =~= entries@.skip(i + 1));
        let name = entries[i].0.as_str();
        let required_here = contains_name(&required, name);
        let member = match Member::parse(name, required_here, &entries[i].1) {
            Ok(member) => member,
            Err(e) => return Err(e),
        };
        let ghost before = members_view(members@);
        members.push(member);
        assert(members_view(members@) =~= before.push(member@));
        proof {
            match spec_parse_members(entries@.skip(i + 1), req) {
                Ok(ms) => {
                    assert(before + (seq![member@] + ms) =~= before.push(member@) + ms);
                },
                Err(_) => {},
            }
        }
        i = i + 1;
    }
    assert(entries@.skip(i as int) =~= Seq::<(String, JsonValue)>::empty());
    assert(members_view(members@) + Seq::<MemberView>::empty() =~= members_view(members@));
    Ok(members)
}

impl Structure {
    /// A structure whose members are marked required when `required` lists
    /// them.
    pub fn parse(obj: &Vec<(String, JsonValue)>) -> (r: Result<ShapeType, ParseError>)
        ensures
            type_result_view(r) == spec_parse_structure(obj@),
    {
        match parse_members(obj) {
            Ok(members) => Ok(ShapeType::Structure(Structure(members))),
            Err(e) => Err(e),
        }
    }
}

impl Exception {
    /// An exception: the members of a structure, an optional
    /// `documentation` (one that is not a string leaves it undocumented), and
    /// the status code under `error.httpStatusCode`.
    pub fn parse(obj: &Vec<(String, JsonValue)>) -> (r: Result<ShapeType, ParseError>)
        ensures
            type_result_view(r) == spec_parse_exception(obj@),
    {
        let members = match parse_members(obj) {
            Ok(members) => members,
            Err(e) => return Err(e),
        };
        let documentation = match read_documentation(obj) {
            Ok(documentation) => documentation,
            Err(_) => None,
        };
        let err = match get(obj, "error") {
            Some(JsonValue::Object(err)) => err,
            _ => return Err(ParseError::MissingErrorInException),
        };
        let status_code = match get(err, "httpStatusCode") {
            Some(JsonValue::Integer(code)) => *code,
            _ => return Err(ParseError::MissingErrorInException),
        };
        Ok(ShapeType::Exception(Exception { members, status_code, documentation }))
    }
}

/// A structure shape: an exception when the object has an `exception` entry,
/// else a plain structure.
pub fn parse_structure_or_exception(obj: &Vec<(String, JsonValue)>) -> (r: Result<ShapeType, ParseError>)
    ensures
        type_result_view(r) == spec_parse_structure_or_exception(obj@),
{
    if !contains_key(obj, "exception") {
        return Structure::parse(obj);
    }
    Exception::parse(obj)
}

impl ShapeType {
    /// The shape kind that the `type` entry selects, parsed from `obj`.
    pub fn parse(obj: &Vec<(String, JsonValue)>) -> (r: Result<ShapeType, ParseError>)
        ensures
            type_result_view(r) == spec_parse_shape_type(obj@),
    {
        let t = match get(obj, "type") {
            Some(JsonValue::Str(t)) => t.as_str(),
            _ => return Err(ParseError::TypeStringMissing),
        };
        if str_eq(t, "blob") {
            Blob::parse(obj)
        } else if str_eq(t, "boolean") {
            Ok(ShapeType::Boolean)
        } else if str_eq(t, "double") {
            Ok(ShapeType::Double)
        } else if str_eq(t, "float") {
            Ok(ShapeType::Float)
        } else if str_eq(t, "integer") {
            Integer::parse(obj)
        } else if str_eq(t, "list") {
            List::parse(obj)
        } else if str_eq(t, "long") {
            Ok(ShapeType::Long)
        } else if str_eq(t, "structure") {
            parse_structure_or_exception(obj)
        } else if str_eq(t, "timestamp") {
            Ok(ShapeType::Timestamp)
        } else if str_eq(t, "string") {
            parse_string_enum_or_pattern(obj)
        } else {
            Err(ParseError::InvalidTypeString)
        }
    }
}

impl Shape {
    /// The shape `name` that `json` describes.
    pub fn parse(name: &str, json: &JsonValue) -> (r: Result<Shape, ParseError>)
        ensures
            shape_result_view(r) == spec_parse_shape(name@, *json),
    {
        let obj = match json {
            JsonValue::Object(obj) => obj,
            _ => return Err(ParseError::ExpectedObject),
        };
        match ShapeType::parse(obj) {
            Ok(shape_type) => Ok(Shape { name: name.to_owned(), shape_type }),
            Err(e) => Err(e),
        }
    }
}

} // verus!
