//! The type-descriptor compiler: a pure, total, recursive rendering of a
//! `Shape` as its canonical alias text.
//!
//! The grammar, per variant:
//! - `Primitive(n)` and `Path(n, [])` render as `n` alone.
//! - `Path(n, args)` with arguments renders as `n < a1, a2, ... >`, a
//!   trailing `", "` after every argument including the last.
//! - `Array(elem, len)` renders as `[len]` directly followed by the element,
//!   so nested arrays chain as `[2][2]i32`.
//! - `Tuple(elems)` renders as `{ e1, e2, ... }`, again with a trailing
//!   `", "` per element; the empty tuple is `{ }`.
//! - `Indirection(t)` renders as `&` followed by the target, with ownership
//!   and mutability erased.
//! - `Function(params, result)` renders as `(p1, p2, ... )` followed by
//!   `; r` when a result is present and by nothing otherwise.

use vstd::prelude::*;

use crate::ast::Shape;
use crate::digits::push_decimal;
use crate::digits::spec_decimal;

verus! {

/// The canonical alias text of `shape`.
pub open spec fn spec_render(shape: Shape) -> Seq<char>
    decreases shape,
{
    match shape {
        Shape::Primitive(name) => name@,
        Shape::Path(name, args) => {
            if args@.len() == 0 {
                name@
            } else {
                name@ + " < "@ + spec_render_each(args@) + ">"@
            }
        },
        Shape::Array(elem, len) => "["@ + spec_decimal(len as nat) + "]"@ + spec_render(*elem),
        Shape::Tuple(elems) => "{ "@ + spec_render_each(elems@) + "}"@,
        Shape::Indirection(target) => "&"@ + spec_render(*target),
        Shape::Function(params, result) => {
            match result {
                Option::Some(ret) => "("@ + spec_render_each(params@) + ")"@ + "; "@
                    + spec_render(*ret),
                Option::None => "("@ + spec_render_each(params@) + ")"@,
            }
        },
    }
}

/// The alias texts of `shapes` in order, each followed by `", "`.
pub open spec fn spec_render_each(shapes: Seq<Shape>) -> Seq<char>
    decreases shapes,
{
    if shapes.len() == 0 {
        Seq::empty()
    } else {
        spec_render_each(shapes.subrange(0, shapes.len() - 1))
            + spec_render(shapes[shapes.len() - 1]) + ", "@
    }
}

/// Appends the alias text of `shape` to `out`.
pub(crate) fn render_into(shape: &Shape, out: &mut String)
    ensures
        final(out)@ == old(out)@ + spec_render(*shape),
    decreases *shape,
{
    match shape {
        Shape::Primitive(name) => {
            out.append(name.as_str());
        },
        Shape::Path(name, args) => {
            out.append(name.as_str());
            if args.len() > 0 {
                out.append(" < ");
                render_each(args, out);
                out.append(">");
                assert(out@ =~= old(out)@ + spec_render(*shape));
            }
        },
        Shape::Array(elem, len) => {
            out.append("[");
            push_decimal(*len, out);
            out.append("]");
            render_into(&**elem, out);
            assert(out@ =~= old(out)@ + spec_render(*shape));
        },
        Shape::Tuple(elems) => {
            out.append("{ ");
            render_each(elems, out);
            out.append("}");
            assert(out@ =~= old(out)@ + spec_render(*shape));
        },
        Shape::Indirection(target) => {
            out.append("&");
            render_into(&**target, out);
            assert(out@ =~= old(out)@ + spec_render(*shape));
        },
        Shape::Function(params, result) => {
            out.append("(");
            render_each(params, out);
            out.append(")");
            match result {
                Option::Some(ret) => {
                    out.append("; ");
                    render_into(&**ret, out);
                },
                Option::None => {},
            }
            assert(out@ =~= old(out)@ + spec_render(*shape));
        },
    }
}

/// Appends the alias text of each shape in `shapes`, in order, each followed
/// by `", "`.
pub(crate) fn render_each(shapes: &Vec<Shape>, out: &mut String)
    ensures
        final(out)@ == old(out)@ + spec_render_each(shapes@),
    decreases shapes@,
{
    let mut i: usize = 0;
    while i < shapes.len()
        invariant
            i <= shapes.len(),
            out@ == old(out)@ + spec_render_each(shapes@.subrange(0, i as int)),
        decreases shapes.len() - i,
    {
        render_into(&shapes[i], out);
        out.append(", ");
        proof {
            let done = shapes@.subrange(0, i + 1);
            assert(done.subrange(0, done.len() - 1) =~= shapes@.subrange(0, i as int));
            assert(out@ =~= old(out)@ + spec_render_each(done));
        }
        i += 1;
    }
    proof {
        assert(shapes@.subrange(0, shapes@.len() as int) =~= shapes@);
    }
}

/// Renders `shape` as its canonical alias text: a total, pure, deterministic
/// function of the shape value alone, so rendering the same shape twice
/// yields byte-identical output.
pub fn render(shape: &Shape) -> (r: String)
    ensures
        r@ == spec_render(*shape),
{
    let mut out = String::new();
    render_into(shape, &mut out);
    proof {
        assert(out@ =~= spec_render(*shape));
    }
    out
}

} // verus!
