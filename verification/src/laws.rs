//! Order preservation: rendering never sorts or reorders. Each list renderer
//! is a homomorphism over list concatenation, so every field and variant
//! keeps exactly its declared position in the alias text.

use vstd::prelude::*;

use crate::ast::Shape;
use crate::ast::VariantShape;
use crate::decl::spec_named_field;
use crate::decl::spec_named_fields;
use crate::decl::spec_variant;
use crate::decl::spec_variants;
use crate::render::spec_render;
use crate::render::spec_render_each;

verus! {

/// Rendering a shape list is order-preserving: the text of a concatenation
/// is the text of the first part followed by the text of the second, so
/// elements are never reordered across any split.
pub proof fn lemma_render_each_append(a: Seq<Shape>, b: Seq<Shape>)
    ensures
        spec_render_each(a + b) == spec_render_each(a) + spec_render_each(b),
    decreases b.len(),
{
    if b.len() == 0 {
        assert(a + b =~= a);
        assert(spec_render_each(a) + spec_render_each(b) =~= spec_render_each(a));
    } else {
        let front = b.subrange(0, b.len() - 1);
        lemma_render_each_append(a, front);
        assert((a + b).subrange(0, (a + b).len() - 1) =~= a + front);
        assert((a + b)[(a + b).len() - 1] == b[b.len() - 1]);
        assert(spec_render_each(a + b) =~= spec_render_each(a) + spec_render_each(b));
    }
}

/// Rendering a named-field list is order-preserving across concatenation.
pub proof fn lemma_named_fields_append(a: Seq<(String, Shape)>, b: Seq<(String, Shape)>)
    ensures
        spec_named_fields(a + b) == spec_named_fields(a) + spec_named_fields(b),
    decreases b.len(),
{
    if b.len() == 0 {
        assert(a + b =~= a);
        assert(spec_named_fields(a) + spec_named_fields(b) =~= spec_named_fields(a));
    } else {
        let front = b.subrange(0, b.len() - 1);
        lemma_named_fields_append(a, front);
        assert((a + b).subrange(0, (a + b).len() - 1) =~= a + front);
        assert((a + b)[(a + b).len() - 1] == b[b.len() - 1]);
        assert(spec_named_fields(a + b) =~= spec_named_fields(a) + spec_named_fields(b));
    }
}

/// Rendering a variant list is order-preserving across concatenation.
pub proof fn lemma_variants_append(a: Seq<(String, VariantShape)>, b: Seq<(String, VariantShape)>)
    ensures
        spec_variants(a + b) == spec_variants(a) + spec_variants(b),
    decreases b.len(),
{
    if b.len() == 0 {
        assert(a + b =~= a);
        assert(spec_variants(a) + spec_variants(b) =~= spec_variants(a));
    } else {
        let front = b.subrange(0, b.len() - 1);
        lemma_variants_append(a, front);
        assert((a + b).subrange(0, (a + b).len() - 1) =~= a + front);
        assert((a + b)[(a + b).len() - 1] == b[b.len() - 1]);
        assert(spec_variants(a + b) =~= spec_variants(a) + spec_variants(b));
    }
}

/// Every element of a shape list keeps its declared position: at any index
/// the rendered text splits into the text of the earlier elements, that
/// element's own text with its `", "`, and the text of the later elements.
pub proof fn lemma_shape_position(shapes: Seq<Shape>, i: int)
    requires
        0 <= i < shapes.len(),
    ensures
        spec_render_each(shapes) == spec_render_each(shapes.subrange(0, i))
            + (spec_render(shapes[i]) + ", "@)
            + spec_render_each(shapes.subrange(i + 1, shapes.len() as int)),
{
    let before = shapes.subrange(0, i);
    let at = shapes.subrange(i, i + 1);
    let after = shapes.subrange(i + 1, shapes.len() as int);
    assert(shapes =~= (before + at) + after);
    lemma_render_each_append(before, at);
    lemma_render_each_append(before + at, after);
    let none_of = at.subrange(0, 0);
    assert(none_of =~= Seq::<Shape>::empty());
    assert(spec_render_each(none_of) == Seq::<char>::empty());
    assert(at[0] == shapes[i]);
    assert(spec_render_each(at) =~= spec_render(shapes[i]) + ", "@);
    assert(spec_render_each(shapes) =~= spec_render_each(before)
        + (spec_render(shapes[i]) + ", "@) + spec_render_each(after));
}

/// Every named field keeps its declared position in a named-field body.
pub proof fn lemma_named_field_position(fields: Seq<(String, Shape)>, i: int)
    requires
        0 <= i < fields.len(),
    ensures
        spec_named_fields(fields) == spec_named_fields(fields.subrange(0, i))
            + spec_named_field(fields[i])
            + spec_named_fields(fields.subrange(i + 1, fields.len() as int)),
{
    let before = fields.subrange(0, i);
    let at = fields.subrange(i, i + 1);
    let after = fields.subrange(i + 1, fields.len() as int);
    assert(fields =~= (before + at) + after);
    lemma_named_fields_append(before, at);
    lemma_named_fields_append(before + at, after);
    let none_of = at.subrange(0, 0);
    assert(none_of =~= Seq::<(String, Shape)>::empty());
    assert(spec_named_fields(none_of) == Seq::<char>::empty());
    assert(at[0] == fields[i]);
    assert(spec_named_fields(at) =~= spec_named_field(fields[i]));
    assert(spec_named_fields(fields) =~= spec_named_fields(before)
        + spec_named_field(fields[i]) + spec_named_fields(after));
}

/// Every variant keeps its declared position in an enum body.
pub proof fn lemma_variant_position(variants: Seq<(String, VariantShape)>, i: int)
    requires
        0 <= i < variants.len(),
    ensures
        spec_variants(variants) == spec_variants(variants.subrange(0, i))
            + spec_variant(variants[i])
            + spec_variants(variants.subrange(i + 1, variants.len() as int)),
{
    let before = variants.subrange(0, i);
    let at = variants.subrange(i, i + 1);
    let after = variants.subrange(i + 1, variants.len() as int);
    assert(variants =~= (before + at) + after);
    lemma_variants_append(before, at);
    lemma_variants_append(before + at, after);
    let none_of = at.subrange(0, 0);
    assert(none_of =~= Seq::<(String, VariantShape)>::empty());
    assert(spec_variants(none_of) == Seq::<char>::empty());
    assert(at[0] == variants[i]);
    assert(spec_variants(at) =~= spec_variant(variants[i]));
    assert(spec_variants(variants) =~= spec_variants(before)
        + spec_variant(variants[i]) + spec_variants(after));
}

} // verus!
