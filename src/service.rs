//! The shapes of a whole service document: parsed one by one, rendered one
//! after another.
use vstd::prelude::*;
use crate::error::{ParseError, ParseErrorView};
use crate::generator::render_shape;
use crate::json::JsonValue;
use crate::parser::spec_parse_shape;
use crate::shape::{Shape, ShapeView};

verus! {

pub open spec fn shapes_view(v: Seq<Shape>) -> Seq<ShapeView> {
    v.map_values(|s: Shape| s@)
}

/// The shapes of `entries` (name, then JSON value) in order, or the error of
/// the first that fails.
pub open spec fn spec_parse_shapes(entries: Seq<(String, JsonValue)>) -> Result<Seq<ShapeView>, ParseErrorView>
    decreases entries.len(),
{
    if entries.len() == 0 {
        Ok(Seq::empty())
    } else {
        match spec_parse_shape(entries[0].0@, entries[0].1) {
            Err(e) => Err(e),
            Ok(s) => match spec_parse_shapes(entries.drop_first()) {
                Err(e) => Err(e),
                Ok(rest) => Ok(seq![s] + rest),
            },
        }
    }
}

pub open spec fn prepend_shapes(prefix: Seq<ShapeView>, r: Result<Seq<ShapeView>, ParseErrorView>) -> Result<Seq<ShapeView>, ParseErrorView> {
    match r {
        Ok(rest) => Ok(prefix + rest),
        Err(e) => Err(e),
    }
}

/// The declarations of `shapes`, one after another.
pub open spec fn render_shapes(shapes: Seq<ShapeView>) -> Seq<char>
    decreases shapes.len(),
{
    if shapes.len() == 0 {
        Seq::empty()
    } else {
        render_shapes(shapes.drop_last()) + render_shape(shapes.last())
    }
}

/// Parses every shape of a document's `shapes` object, stopping at the first
/// that fails.
pub fn parse_shapes(entries: &Vec<(String, JsonValue)>) -> (r: Result<Vec<Shape>, ParseError>)
    ensures
        match r {
            Ok(shapes) => spec_parse_shapes(entries@) == Ok::<Seq<ShapeView>, ParseErrorView>(shapes_view(shapes@)),
            Err(e) => spec_parse_shapes(entries@) == Err::<Seq<ShapeView>, ParseErrorView>(e@),
        },
{
    let mut shapes: Vec<Shape> = Vec::new();
    let mut i: usize = 0;
    assert(entries@.skip(0) =~= entries@);
    assert(shapes_view(shapes@) =~= Seq::<ShapeView>::empty());
    while i < entries.len()
        invariant
            i <= entries@.len(),
            spec_parse_shapes(entries@) == prepend_shapes(
                shapes_view(shapes@),
                spec_parse_shapes(entries@.skip(i as int)),
            ),
        decreases entries@.len() - i,
    {
        assert(entries@.skip(i as int).drop_first() =~= entries@.skip(i + 1));
        let shape = match Shape::parse(entries[i].0.as_str(), &entries[i].1) {
            Ok(shape) => shape,
            Err(e) => return Err(e),
        };
        let ghost before = shapes_view(shapes@);
        shapes.push(shape);
        assert(shapes_view(shapes@) =~= before.push(shape@));
        proof {
            match spec_parse_shapes(entries@.skip(i + 1)) {
                Ok(rest) => {
                    assert(before + (seq![shape@] + rest) =~= before.push(shape@) + rest);
                },
                Err(_) => {},
            }
        }
        i = i + 1;
    }
    assert(entries@.skip(i as int) =~= Seq::<(String, JsonValue)>::empty());
    assert(shapes_view(shapes@) + Seq::<ShapeView>::empty() =~= shapes_view(shapes@));
    Ok(shapes)
}

/// Appends the declaration of every shape to `out`, in order.
pub fn generate_shapes(shapes: &Vec<Shape>, out: &mut String)
    ensures
        final(out)@ == old(out)@ + render_shapes(shapes_view(shapes@)),
{
    let ghost start = out@;
    let ghost all = shapes_view(shapes@);
    let mut i: usize = 0;
    assert(all.take(0) =~= Seq::<ShapeView>::empty());
    assert(out@ =~= start + render_shapes(all.take(0)));
    while i < shapes.len()
        invariant
            i <= shapes@.len(),
            all == shapes_view(shapes@),
            out@ == start + render_shapes(all.take(i as int)),
        decreases shapes@.len() - i,
    {
        shapes[i].generate(out);
        assert(all.take(i + 1).drop_last() =~= all.take(i as int));
        assert(out@ =~= start + render_shapes(all.take(i + 1)));
        i = i + 1;
    }
    assert(all.take(i as int) =~= all);
}

} // verus!
