use awsparser::json::JsonValue;
use awsparser::service::{generate_shapes, parse_shapes};
use awsparser::shape::{
    Blob, Exception, Integer, List, Location, Member, Shape, ShapeType, StringEnum, StringPattern,
    Structure,
};

fn rendered(shape: &Shape) -> String {
    let mut out = String::new();
    shape.generate(&mut out);
    out
}

fn shape(name: &str, shape_type: ShapeType) -> Shape {
    Shape { name: name.to_string(), shape_type }
}

fn body_member(name: &str, shape: &str, required: bool) -> Member {
    Member {
        name: name.to_string(),
        shape: shape.to_string(),
        documentation: None,
        required,
        location: Location::Body,
    }
}

#[test]
fn generate_boolean() {
    assert_eq!(rendered(&shape("Enabled", ShapeType::Boolean)), "pub type Enabled = bool;\n");
}

#[test]
fn generate_double() {
    assert_eq!(rendered(&shape("Trouble", ShapeType::Double)), "pub type Trouble = f64;\n");
}

#[test]
fn generate_scalars() {
    assert_eq!(rendered(&shape("F", ShapeType::Float)), "pub type F = f32;\n");
    assert_eq!(rendered(&shape("L", ShapeType::Long)), "pub type L = i64;\n");
    assert_eq!(rendered(&shape("Date", ShapeType::Timestamp)), "pub type Date = String;\n");
    assert_eq!(rendered(&shape("B", ShapeType::Blob(Blob(true)))), "pub type B = Vec<u8>;\n");
    assert_eq!(
        rendered(&shape("Size", ShapeType::Integer(Integer { min: Some(128), max: Some(1536) }))),
        "pub type Size = i32;\n"
    );
}

#[test]
fn generate_list() {
    let list = shape("AllTheThings", ShapeType::List(List("Thing".to_string())));
    assert_eq!(rendered(&list), "pub type AllTheThings = Vec<Thing>;\n");
}

#[test]
fn generate_string_pattern() {
    let pattern = shape(
        "AsciiArt",
        ShapeType::StringPattern(StringPattern { pattern: ".*".to_string(), min: None, max: None }),
    );
    assert_eq!(rendered(&pattern), "pub type AsciiArt = String;\n");
}

#[test]
fn generate_string_enum() {
    let e = shape(
        "WhereIsCarmenSanDiego",
        ShapeType::StringEnum(StringEnum(vec![
            "Berlin".to_string(),
            "Madrid".to_string(),
            "Toronto".to_string(),
            "Beijing".to_string(),
        ])),
    );
    assert_eq!(
        rendered(&e),
        "pub enum WhereIsCarmenSanDiego {\n    Berlin,\n    Madrid,\n    Toronto,\n    Beijing,\n};\n"
    );
}

#[test]
fn generate_empty_string_enum() {
    let e = shape("Nothing", ShapeType::StringEnum(StringEnum(vec![])));
    assert_eq!(rendered(&e), "pub enum Nothing {\n};\n");
}

#[test]
fn generate_structure() {
    let s = shape(
        "GenieInABottle",
        ShapeType::Structure(Structure(vec![
            body_member("owner", "Person", false),
            body_member("wishes", "integer", true),
        ])),
    );
    assert_eq!(
        rendered(&s),
        "#[derive(Debug, Default)]\npub struct GenieInABottle {\n    pub owner: Option<Person>,\n    pub wishes: integer,\n}\n"
    );
}

#[test]
fn generate_empty_structure() {
    let s = shape("Empty", ShapeType::Structure(Structure(vec![])));
    assert_eq!(rendered(&s), "#[derive(Debug, Default)]\npub struct Empty {\n}\n");
}

#[test]
fn generate_member_with_documentation() {
    let mut m = body_member("owner", "Person", true);
    m.documentation = Some("Who rubbed the lamp.".to_string());
    let mut out = String::from("x");
    m.generate(&mut out);
    assert_eq!(out, "x    /// Who rubbed the lamp.\n    pub owner: Person,\n");
}

const SERVICE_EXCEPTION: &str = "#[derive(Debug)]
/// The AWS Lambda service encountered an internal error.
pub struct ServiceException {
    pub Type: String,
    pub Message: String,
}

impl ::std::error::Error for ServiceException {
    pub fn description(&self) -> &str {
        &format!(\"ServiceException: {} {}\", self.Type, self.Message);
    }

    pub fn cause(&self) -> Option<&Error> {
        None
    }
}
";

#[test]
fn generate_exception() {
    let e = shape(
        "ServiceException",
        ShapeType::Exception(Exception {
            documentation: Some("The AWS Lambda service encountered an internal error.".to_string()),
            status_code: 500,
            members: vec![body_member("Type", "String", true), body_member("Message", "String", true)],
        }),
    );
    assert_eq!(rendered(&e), SERVICE_EXCEPTION);
}

#[test]
fn generate_exception_without_members() {
    let e = Exception { documentation: None, status_code: 404, members: vec![] };
    let mut out = String::new();
    e.generate(&mut out, "NotFound");
    assert_eq!(
        out,
        "#[derive(Debug)]\npub struct NotFound {\n}\n\nimpl ::std::error::Error for NotFound {\n    pub fn description(&self) -> &str {\n        &format!(\"NotFound:\");\n    }\n\n    pub fn cause(&self) -> Option<&Error> {\n        None\n    }\n}\n"
    );
}

fn text(s: &str) -> JsonValue {
    JsonValue::Str(s.to_string())
}

fn object(pairs: Vec<(&str, JsonValue)>) -> JsonValue {
    JsonValue::Object(pairs.into_iter().map(|(k, v)| (k.to_string(), v)).collect())
}

#[test]
fn parse_then_generate_scalars() {
    let cases = [
        ("boolean", "bool"),
        ("double", "f64"),
        ("float", "f32"),
        ("long", "i64"),
        ("timestamp", "String"),
    ];
    for (kind, target) in cases {
        let parsed = Shape::parse("Name", &object(vec![("type", text(kind))])).unwrap();
        assert_eq!(rendered(&parsed), format!("pub type Name = {};\n", target));
    }
}

#[test]
fn parse_then_generate_list() {
    let json = object(vec![("type", text("list")), ("member", object(vec![("shape", text("Thing"))]))]);
    let parsed = Shape::parse("AllTheThings", &json).unwrap();
    assert_eq!(parsed.shape_type, ShapeType::List(List("Thing".to_string())));
    assert_eq!(rendered(&parsed), "pub type AllTheThings = Vec<Thing>;\n");
}

#[test]
fn parse_then_generate_structure() {
    let json = object(vec![
        ("type", text("structure")),
        ("required", JsonValue::Array(vec![text("wishes")])),
        (
            "members",
            object(vec![
                ("owner", object(vec![("shape", text("Person"))])),
                ("wishes", object(vec![("shape", text("integer"))])),
            ]),
        ),
    ]);
    let parsed = Shape::parse("GenieInABottle", &json).unwrap();
    assert_eq!(
        rendered(&parsed),
        "#[derive(Debug, Default)]\npub struct GenieInABottle {\n    pub owner: Option<Person>,\n    pub wishes: integer,\n}\n"
    );
}

#[test]
fn parse_then_generate_exception() {
    let json = object(vec![
        ("type", text("structure")),
        ("exception", JsonValue::Bool(true)),
        ("error", object(vec![("httpStatusCode", JsonValue::Integer(500))])),
        ("documentation", text("The AWS Lambda service encountered an internal error.")),
        ("required", JsonValue::Array(vec![text("Type"), text("Message")])),
        (
            "members",
            object(vec![
                ("Type", object(vec![("shape", text("String"))])),
                ("Message", object(vec![("shape", text("String"))])),
            ]),
        ),
    ]);
    let parsed = Shape::parse("ServiceException", &json).unwrap();
    match &parsed.shape_type {
        ShapeType::Exception(e) => assert_eq!(e.status_code, 500),
        _ => panic!("not an exception"),
    }
    assert_eq!(rendered(&parsed), SERVICE_EXCEPTION);
}

#[test]
fn parse_then_generate_enum() {
    let json = object(vec![
        ("type", text("string")),
        (
            "enum",
            JsonValue::Array(vec![text("Berlin"), text("Madrid"), text("Toronto"), text("Beijing")]),
        ),
    ]);
    let parsed = Shape::parse("WhereIsCarmenSanDiego", &json).unwrap();
    assert_eq!(
        rendered(&parsed),
        "pub enum WhereIsCarmenSanDiego {\n    Berlin,\n    Madrid,\n    Toronto,\n    Beijing,\n};\n"
    );
}

#[test]
fn shapes_of_a_document() {
    let shapes = vec![
        ("Enabled".to_string(), object(vec![("type", text("boolean"))])),
        (
            "Names".to_string(),
            object(vec![("type", text("list")), ("member", object(vec![("shape", text("Name"))]))]),
        ),
    ];
    let parsed = parse_shapes(&shapes).unwrap();
    assert_eq!(parsed, vec![
        shape("Enabled", ShapeType::Boolean),
        shape("Names", ShapeType::List(List("Name".to_string()))),
    ]);
    let mut out = String::new();
    generate_shapes(&parsed, &mut out);
    assert_eq!(out, "pub type Enabled = bool;\npub type Names = Vec<Name>;\n");
}

#[test]
fn shapes_of_a_document_stop_at_first_error() {
    let shapes = vec![
        ("Enabled".to_string(), object(vec![("type", text("boolean"))])),
        ("Broken".to_string(), object(vec![("type", text("bogus"))])),
        ("Loose".to_string(), text("nothing")),
    ];
    assert_eq!(parse_shapes(&shapes), Err(awsparser::error::ParseError::InvalidTypeString));
}
