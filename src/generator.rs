//! Renders a [`Shape`] as Rust type declarations, appended to a text sink.
use vstd::prelude::*;
use crate::shape::{
    Shape, ShapeType, List, StringEnum, Structure, Exception, Member, ShapeView, ShapeTypeView,
    MemberView, opt_str_view, strings_view, members_view,
};

verus! {

// ---------------------------------------------------------------------------
// What rendering yields
// ---------------------------------------------------------------------------

/// `pub type <name> = <target>;`
pub open spec fn render_alias(name: Seq<char>, target: Seq<char>) -> Seq<char> {
    "pub type "@ + name + " = "@ + target + ";\n"@
}

/// One field line, preceded by a doc line when the member has documentation.
/// An optional member's type is wrapped in `Option`.
pub open spec fn render_member(m: MemberView) -> Seq<char> {
    let doc = match m.documentation {
        Some(d) => "    /// "@ + d + "\n"@,
        None => Seq::empty(),
    };
    let field = if m.required {
        "    pub "@ + m.name + ": "@ + m.shape + ",\n"@
    } else {
        "    pub "@ + m.name + ": Option<"@ + m.shape + ">,\n"@
    };
    doc + field
}

pub open spec fn render_members(ms: Seq<MemberView>) -> Seq<char>
    decreases ms.len(),
{
    if ms.len() == 0 {
        Seq::empty()
    } else {
        render_members(ms.drop_last()) + render_member(ms.last())
    }
}

pub open spec fn render_variants(vs: Seq<Seq<char>>) -> Seq<char>
    decreases vs.len(),
{
    if vs.len() == 0 {
        Seq::empty()
    } else {
        render_variants(vs.drop_last()) + "    "@ + vs.last() + ",\n"@
    }
}

/// An enumeration with one variant per entry of `vs`, in order.
pub open spec fn render_enum(name: Seq<char>, vs: Seq<Seq<char>>) -> Seq<char> {
    "pub enum "@ + name + " {\n"@ + render_variants(vs) + "};\n"@
}

pub open spec fn render_structure(name: Seq<char>, ms: Seq<MemberView>) -> Seq<char> {
    "#[derive(Debug, Default)]\n"@ + "pub struct "@ + name + " {\n"@ + render_members(ms) + "}\n"@
}

/// One ` {}` placeholder per member.
pub open spec fn render_placeholders(ms: Seq<MemberView>) -> Seq<char>
    decreases ms.len(),
{
    if ms.len() == 0 {
        Seq::empty()
    } else {
        render_placeholders(ms.drop_last()) + " {}"@
    }
}

/// `, self.<name>` for each member, in order.
pub open spec fn render_field_args(ms: Seq<MemberView>) -> Seq<char>
    decreases ms.len(),
{
    if ms.len() == 0 {
        Seq::empty()
    } else {
        render_field_args(ms.drop_last()) + ", self."@ + ms.last().name
    }
}

/// The record of an exception, with its documentation above it.
pub open spec fn render_exception_record(name: Seq<char>, ms: Seq<MemberView>, doc: Option<Seq<char>>) -> Seq<char> {
    let doc_line = match doc {
        Some(d) => "/// "@ + d + "\n"@,
        None => Seq::empty(),
    };
    "#[derive(Debug)]\n"@ + doc_line + "pub struct "@ + name + " {\n"@ + render_members(ms) + "}\n\n"@
}

/// The error description line: the shape's name, then every member in order.
pub open spec fn render_description(name: Seq<char>, ms: Seq<MemberView>) -> Seq<char> {
    "        &format!(\""@ + name + ":"@ + render_placeholders(ms) + "\""@ + render_field_args(ms)
        + ");\n"@
}

/// The error impl of an exception: its description, and a cause that is
/// always `None`.
pub open spec fn render_error_impl(name: Seq<char>, ms: Seq<MemberView>) -> Seq<char> {
    "impl ::std::error::Error for "@ + name + " {\n"@
        + "    pub fn description(&self) -> &str {\n"@
        + render_description(name, ms)
        + "    }\n\n"@
        + "    pub fn cause(&self) -> Option<&Error> {\n"@
        + "        None\n"@
        + "    }\n"@
        + "}\n"@
}

pub open spec fn render_exception(name: Seq<char>, ms: Seq<MemberView>, doc: Option<Seq<char>>) -> Seq<char> {
    render_exception_record(name, ms, doc) + render_error_impl(name, ms)
}

/// The declaration of shape `s`.
pub open spec fn render_shape(s: ShapeView) -> Seq<char> {
    match s.shape_type {
        ShapeTypeView::Blob { .. } => render_alias(s.name, "Vec<u8>"@),
        ShapeTypeView::Boolean => render_alias(s.name, "bool"@),
        ShapeTypeView::Double => render_alias(s.name, "f64"@),
        ShapeTypeView::Float => render_alias(s.name, "f32"@),
        ShapeTypeView::Integer { .. } => render_alias(s.name, "i32"@),
        ShapeTypeView::List { element } => render_alias(s.name, "Vec<"@ + element + ">"@),
        ShapeTypeView::Long => render_alias(s.name, "i64"@),
        ShapeTypeView::StringEnum { variants } => render_enum(s.name, variants),
        ShapeTypeView::Timestamp => render_alias(s.name, "String"@),
        ShapeTypeView::StringPattern { .. } => render_alias(s.name, "String"@),
        ShapeTypeView::Structure { members } => render_structure(s.name, members),
        ShapeTypeView::Exception { members, documentation, .. } => render_exception(
            s.name,
            members,
            documentation,
        ),
    }
}

// ---------------------------------------------------------------------------
// Rendering
// ---------------------------------------------------------------------------

impl Member {
    /// Appends this member's field to `out`.
    pub fn generate(&self, out: &mut String)
        ensures
            final(out)@ == old(out)@ + render_member(self@),
    {
        let ghost start = out@;
        if let Some(documentation) = &self.documentation {
            out.append("    /// ");
            out.append(documentation.as_str());
            out.append("\n");
        }
        let ghost after_doc = out@;
        out.append("    pub ");
        out.append(self.name.as_str());
        if self.required {
            out.append(": ");
            out.append(self.shape.as_str());
            out.append(",\n");
        } else {
            out.append(": Option<");
            out.append(self.shape.as_str());
            out.append(">,\n");
        }
        assert(out@ =~= start + render_member(self@));
    }
}

/// Appends the fields of `members` to `out`.
fn generate_members(members: &Vec<Member>, out: &mut String)
    ensures
        final(out)@ == old(out)@ + render_members(members_view(members@)),
{
    let ghost start = out@;
    let ghost ms = members_view(members@);
    let mut i: usize = 0;
    assert(ms.take(0) =~= Seq::<MemberView>::empty());
    assert(out@ =~= start + render_members(ms.take(0)));
    while i < members.len()
        invariant
            i <= members@.len(),
            ms == members_view(members@),
            out@ == start + render_members(ms.take(i as int)),
        decreases members@.len() - i,
    {
        members[i].generate(out);
        assert(ms.take(i + 1).drop_last() =~= ms.take(i as int));
        assert(out@ =~= start + render_members(ms.take(i + 1)));
        i = i + 1;
    }
    assert(ms.take(i as int) =~= ms);
}

impl StringEnum {
    /// Appends an enumeration named `name` with one variant per entry, in
    /// order. Unlike the other kinds this is no type alias.
    pub fn generate(&self, out: &mut String, name: &str)
        ensures
            final(out)@ == old(out)@ + render_enum(name@, strings_view(self.0@)),
    {
        let ghost start = out@;
        let ghost vs = strings_view(self.0@);
        out.append("pub enum ");
        out.append(name);
        out.append(" {\n");
        let ghost head = out@;
        let mut i: usize = 0;
        assert(vs.take(0) =~= Seq::<Seq<char>>::empty());
        assert(out@ =~= head + render_variants(vs.take(0)));
        while i < self.0.len()
            invariant
                i <= self.0@.len(),
                vs == strings_view(self.0@),
                out@ == head + render_variants(vs.take(i as int)),
            decreases self.0@.len() - i,
        {
            out.append("    ");
            out.append(self.0[i].as_str());
            out.append(",\n");
            assert(vs.take(i + 1).drop_last() =~= vs.take(i as int));
            assert(out@ =~= head + render_variants(vs.take(i + 1)));
            i = i + 1;
        }
        assert(vs.take(i as int) =~= vs);
        out.append("};\n");
        assert(out@ =~= start + render_enum(name@, vs));
    }
}

impl Structure {
    /// Appends a record named `name` with one field per member.
    pub fn generate(&self, out: &mut String, name: &str)
        ensures
            final(out)@ == old(out)@ + render_structure(name@, members_view(self.0@)),
    {
        let ghost start = out@;
        out.append("#[derive(Debug, Default)]\n");
        out.append("pub struct ");
        out.append(name);
        out.append(" {\n");
        generate_members(&self.0, out);
        out.append("}\n");
        assert(out@ =~= start + render_structure(name@, members_view(self.0@)));
    }
}

/// Appends one ` {}` per member.
fn generate_placeholders(members: &Vec<Member>, out: &mut String)
    ensures
        final(out)@ == old(out)@ + render_placeholders(members_view(members@)),
{
    let ghost start = out@;
    let ghost ms = members_view(members@);
    let mut i: usize = 0;
    assert(ms.take(0) =~= Seq::<MemberView>::empty());
    assert(out@ =~= start + render_placeholders(ms.take(0)));
    while i < members.len()
        invariant
            i <= members@.len(),
            ms == members_view(members@),
            out@ == start + render_placeholders(ms.take(i as int)),
        decreases members@.len() - i,
    {
        out.append(" {}");
        assert(ms.take(i + 1).drop_last() =~= ms.take(i as int));
        assert(out@ =~= start + render_placeholders(ms.take(i + 1)));
        i = i + 1;
    }
    assert(ms.take(i as int) =~= ms);
}

/// Appends `, self.<name>` for each member, in order.
fn generate_field_args(members: &Vec<Member>, out: &mut String)
    ensures
        final(out)@ == old(out)@ + render_field_args(members_view(members@)),
{
    let ghost start = out@;
    let ghost ms = members_view(members@);
    let mut i: usize = 0;
    assert(ms.take(0) =~= Seq::<MemberView>::empty());
    assert(out@ =~= start + render_field_args(ms.take(0)));
    while i < members.len()
        invariant
            i <= members@.len(),
            ms == members_view(members@),
            out@ == start + render_field_args(ms.take(i as int)),
        decreases members@.len() - i,
    {
        out.append(", self.");
        out.append(members[i].name.as_str());
        assert(ms.take(i + 1).drop_last() =~= ms.take(i as int));
        assert(out@ =~= start + render_field_args(ms.take(i + 1)));
        i = i + 1;
    }
    assert(ms.take(i as int) =~= ms);
}

/// Appends the error description line of an exception named `name`.
fn generate_description(members: &Vec<Member>, out: &mut String, name: &str)
    ensures
        final(out)@ == old(out)@ + render_description(name@, members_view(members@)),
{
    let ghost start = out@;
    out.append("        &format!(\"");
    out.append(name);
    out.append(":");
    generate_placeholders(members, out);
    out.append("\"");
    generate_field_args(members, out);
    out.append(");\n");
    assert(out@ =~= start + render_description(name@, members_view(members@)));
}

impl Exception {
    /// Appends a record named `name` with one field per member, and its
    /// error description and cause.
    pub fn generate(&self, out: &mut String, name: &str)
        ensures
            final(out)@ == old(out)@ + render_exception(
                name@,
                members_view(self.members@),
                opt_str_view(self.documentation),
            ),
    {
        let ghost start = out@;
        let ghost ms = members_view(self.members@);
        out.append("#[derive(Debug)]\n");
        if let Some(docs) = &self.documentation {
            out.append("/// ");
            out.append(docs.as_str());
            out.append("\n");
        }
        out.append("pub struct ");
        out.append(name);
        out.append(" {\n");
        generate_members(&self.members, out);
        out.append("}\n\n");
        let ghost record = out@;
        assert(record =~= start + render_exception_record(
            name@,
            ms,
            opt_str_view(self.documentation),
        ));
        out.append("impl ::std::error::Error for ");
        out.append(name);
        out.append(" {\n");
        out.append("    pub fn description(&self) -> &str {\n");
        generate_description(&self.members, out, name);
        out.append("    }\n\n");
        out.append("    pub fn cause(&self) -> Option<&Error> {\n");
        out.append("        None\n");
        out.append("    }\n");
        out.append("}\n");
        assert(out@ =~= record + render_error_impl(name@, ms));
    }
}

impl Shape {
    /// Appends the declaration of this shape to `out`: a type alias for the
    /// scalar kinds, lists and patterned strings, an enumeration for a string
    /// enumeration, a record for a structure or an exception.
    pub fn generate(&self, out: &mut String)
        ensures
            final(out)@ == old(out)@ + render_shape(self@),
    {
        let ghost start = out@;
        let name = self.name.as_str();
        let target: String = match &self.shape_type {
            ShapeType::Blob(_) => "Vec<u8>".to_owned(),
            ShapeType::Boolean => "bool".to_owned(),
            ShapeType::Double => "f64".to_owned(),
            ShapeType::Float => "f32".to_owned(),
            ShapeType::Integer(_) => "i32".to_owned(),
            ShapeType::List(List(element)) => {
                let mut t = "Vec<".to_owned();
                t.append(element.as_str());
                t.append(">");
                t
            },
            ShapeType::Long => "i64".to_owned(),
            ShapeType::StringEnum(string_enum) => {
                string_enum.generate(out, name);
                return;
            },
            ShapeType::Timestamp | ShapeType::StringPattern(_) => "String".to_owned(),
            ShapeType::Structure(structure) => {
                structure.generate(out, name);
                return;
            },
            ShapeType::Exception(exception) => {
                exception.generate(out, name);
                return;
            },
        };
        out.append("pub type ");
        out.append(name);
        out.append(" = ");
        out.append(target.as_str());
        out.append(";\n");
        assert(out@ =~= start + render_shape(self@));
    }
}

} // verus!
