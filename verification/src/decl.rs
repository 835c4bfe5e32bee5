//! The declaration renderer: assembles a full alias for a named declaration
//! by rendering each field or variant type and joining the results with the
//! fixed separators of the alias grammar.
//!
//! Every alias begins with the header `name = `. The body is:
//! - named-field struct: `{ f1 : t1, f2 : t2, }` — one `name : type, `
//!   segment per field, in declaration order;
//! - tuple struct: `{ t1, t2, }` — the same without field names;
//! - unit struct: `{}` exactly, with no inner space;
//! - enum: `{ V1 : b1 / V2 : b2 / }` — one `name : body / ` segment per
//!   variant, where the body is the named-struct-style or tuple-struct-style
//!   body of the variant's fields, and is empty for a unit variant (the
//!   surrounding ` : ` and ` / ` stay, a deliberate representational quirk);
//! - opaque declaration: the placeholder body of the opaque fallback
//!   encoder, with the fields never looked at.
//!
//! Field and variant order in the alias exactly mirrors declaration order:
//! the alias is the type's identity, and two declarations with the same
//! fields in different orders are distinct.

use vstd::prelude::*;

use crate::ast::Declaration;
use crate::ast::Shape;
use crate::ast::VariantShape;
use crate::opaque::render_opaque_into;
use crate::opaque::spec_render_opaque;
use crate::render::render_each;
use crate::render::render_into;
use crate::render::spec_render;
use crate::render::spec_render_each;

verus! {

/// One named field's segment: `name : type, `.
pub open spec fn spec_named_field(field: (String, Shape)) -> Seq<char> {
    field.0@ + " : "@ + spec_render(field.1) + ", "@
}

/// The segments of `fields` in declaration order.
pub open spec fn spec_named_fields(fields: Seq<(String, Shape)>) -> Seq<char>
    decreases fields,
{
    if fields.len() == 0 {
        Seq::empty()
    } else {
        spec_named_fields(fields.subrange(0, fields.len() - 1))
            + spec_named_field(fields[fields.len() - 1])
    }
}

/// A named-field body: `{ f1 : t1, f2 : t2, }`.
pub open spec fn spec_named_body(fields: Seq<(String, Shape)>) -> Seq<char> {
    "{ "@ + spec_named_fields(fields) + "}"@
}

/// A positional-field body: `{ t1, t2, }`.
pub open spec fn spec_tuple_body(fields: Seq<Shape>) -> Seq<char> {
    "{ "@ + spec_render_each(fields) + "}"@
}

/// One variant's body: a named-field or positional-field body, or nothing
/// at all for a unit variant.
pub open spec fn spec_variant_body(v: VariantShape) -> Seq<char> {
    match v {
        VariantShape::Named(fields) => spec_named_body(fields@),
        VariantShape::Tuple(fields) => spec_tuple_body(fields@),
        VariantShape::Unit => Seq::empty(),
    }
}

/// One variant's segment: `name : body / `.
pub open spec fn spec_variant(v: (String, VariantShape)) -> Seq<char> {
    v.0@ + " : "@ + spec_variant_body(v.1) + " / "@
}

/// The segments of `variants` in declaration order.
pub open spec fn spec_variants(variants: Seq<(String, VariantShape)>) -> Seq<char>
    decreases variants,
{
    if variants.len() == 0 {
        Seq::empty()
    } else {
        spec_variants(variants.subrange(0, variants.len() - 1))
            + spec_variant(variants[variants.len() - 1])
    }
}

/// The common header of every alias: `name = `.
pub open spec fn spec_header(name: String) -> Seq<char> {
    name@ + " = "@
}

/// The full alias of a declaration.
pub open spec fn spec_render_declaration(d: Declaration) -> Seq<char> {
    match d {
        Declaration::NamedStruct(name, fields) => spec_header(name) + spec_named_body(fields@),
        Declaration::TupleStruct(name, fields) => spec_header(name) + spec_tuple_body(fields@),
        Declaration::UnitStruct(name) => spec_header(name) + "{}"@,
        Declaration::Enum(name, variants) => spec_header(name) + "{ "@
            + spec_variants(variants@) + "}"@,
        Declaration::Opaque(name, size, align, has_niche) => spec_header(name)
            + spec_render_opaque(size as nat, align as nat, has_niche),
    }
}

/// The machine-limit precondition of rendering: an opaque declaration's
/// alignment is at least one byte and its width in bits fits a 64-bit count.
/// Every other declaration renders unconditionally.
pub open spec fn spec_declaration_fits(d: Declaration) -> bool {
    match d {
        Declaration::Opaque(_, _, align, _) => 1 <= align && align * 8 <= u64::MAX,
        _ => true,
    }
}

/// Appends one `name : type, ` segment per field, in declaration order.
fn render_named_fields(fields: &Vec<(String, Shape)>, out: &mut String)
    ensures
        final(out)@ == old(out)@ + spec_named_fields(fields@),
    decreases fields@,
{
    let mut i: usize = 0;
    while i < fields.len()
        invariant
            i <= fields.len(),
            out@ == old(out)@ + spec_named_fields(fields@.subrange(0, i as int)),
        decreases fields.len() - i,
    {
        let field = &fields[i];
        out.append(field.0.as_str());
        out.append(" : ");
        render_into(&field.1, out);
        out.append(", ");
        proof {
            let done = fields@.subrange(0, i + 1);
            assert(done.subrange(0, done.len() - 1) =~= fields@.subrange(0, i as int));
            assert(out@ =~= old(out)@ + spec_named_fields(done));
        }
        i += 1;
    }
    proof {
        assert(fields@.subrange(0, fields@.len() as int) =~= fields@);
    }
}

/// Appends one `name : body / ` segment per variant, in declaration order.
fn render_variants(variants: &Vec<(String, VariantShape)>, out: &mut String)
    ensures
        final(out)@ == old(out)@ + spec_variants(variants@),
    decreases variants@,
{
    let mut i: usize = 0;
    while i < variants.len()
        invariant
            i <= variants.len(),
            out@ == old(out)@ + spec_variants(variants@.subrange(0, i as int)),
        decreases variants.len() - i,
    {
        let variant = &variants[i];
        out.append(variant.0.as_str());
        out.append(" : ");
        match &variant.1 {
            VariantShape::Named(fields) => {
                out.append("{ ");
                render_named_fields(fields, out);
                out.append("}");
            },
            VariantShape::Tuple(fields) => {
                out.append("{ ");
                render_each(fields, out);
                out.append("}");
            },
            VariantShape::Unit => {},
        }
        out.append(" / ");
        proof {
            let done = variants@.subrange(0, i + 1);
            assert(done.subrange(0, done.len() - 1) =~= variants@.subrange(0, i as int));
            assert(out@ =~= old(out)@ + spec_variants(done));
        }
        i += 1;
    }
    proof {
        assert(variants@.subrange(0, variants@.len() as int) =~= variants@);
    }
}

/// Renders the full alias of `d`: the header `name = ` followed by the body
/// that the declaration's kind calls for. A pure, total, deterministic
/// function of the declaration value alone, so rendering the same
/// declaration twice yields byte-identical output.
pub fn render_declaration(d: &Declaration) -> (r: String)
    requires
        spec_declaration_fits(*d),
    ensures
        r@ == spec_render_declaration(*d),
{
    let mut out = String::new();
    match d {
        Declaration::NamedStruct(name, fields) => {
            out.append(name.as_str());
            out.append(" = ");
            out.append("{ ");
            render_named_fields(fields, &mut out);
            out.append("}");
        },
        Declaration::TupleStruct(name, fields) => {
            out.append(name.as_str());
            out.append(" = ");
            out.append("{ ");
            render_each(fields, &mut out);
            out.append("}");
        },
        Declaration::UnitStruct(name) => {
            out.append(name.as_str());
            out.append(" = ");
            out.append("{}");
        },
        Declaration::Enum(name, variants) => {
            out.append(name.as_str());
            out.append(" = ");
            out.append("{ ");
            render_variants(variants, &mut out);
            out.append("}");
        },
        Declaration::Opaque(name, size_bytes, align_bytes, has_niche) => {
            out.append(name.as_str());
            out.append(" = ");
            render_opaque_into(*size_bytes, *align_bytes, *has_niche, &mut out);
        },
    }
    proof {
        assert(out@ =~= spec_render_declaration(*d));
    }
    out
}

} // verus!
