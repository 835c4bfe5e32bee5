//! The opaque fallback encoder: a structural placeholder body for a
//! declaration whose fields must stay hidden, derived purely from its size in
//! bytes, its alignment in bytes and whether it has a niche.
//!
//! The placeholder reproduces the size, alignment and niche behaviour of the
//! hidden type using only unsigned integer words of the type's alignment
//! width and, when a niche exists, a boolean discriminant byte, so that the
//! consumer can allocate storage and perform optional-wrapping checks without
//! seeing the fields.

use vstd::prelude::*;

use crate::digits::push_decimal;
use crate::digits::spec_decimal;

verus! {

/// The unsigned word type of one aligned slot: `u` followed by the
/// alignment's width in bits.
pub open spec fn spec_word(align: nat) -> Seq<char> {
    "u"@ + spec_decimal(align * 8)
}

/// `count` copies of the aligned word type, each followed by `", "`.
pub open spec fn spec_word_run(align: nat, count: nat) -> Seq<char>
    decreases count,
{
    if count == 0 {
        Seq::empty()
    } else {
        spec_word_run(align, (count - 1) as nat) + spec_word(align) + ", "@
    }
}

/// How many padding words follow the discriminant in the niche case: one
/// aligned slot fewer than the type's own footprint, which a niche-bearing
/// type shares with its optional-wrapped form.
pub open spec fn spec_niche_words(size: nat, align: nat) -> nat {
    if size / align == 0 {
        0
    } else {
        (size / align - 1) as nat
    }
}

/// The placeholder body for a hidden type of `size` bytes, aligned to
/// `align` bytes, with (`has_niche`) or without a spare bit pattern:
/// - without a niche, a single aligned word when the type fits in 8 bytes,
///   and otherwise an array of `size / align` aligned words;
/// - with a niche and a size of exactly 8 bytes, the fixed pointer-shaped
///   encoding `{ &u32, }`, whatever the alignment;
/// - with a niche and any other size, a `bool` discriminant followed by
///   enough aligned words to pad out the rest of the footprint.
pub open spec fn spec_render_opaque(size: nat, align: nat, has_niche: bool) -> Seq<char>
    recommends
        align >= 1,
{
    if !has_niche {
        if size <= 8 {
            "{ "@ + spec_word(align) + " }"@
        } else {
            "{ [ "@ + spec_decimal(size / align) + " ] "@ + spec_word(align) + " }"@
        }
    } else if size == 8 {
        "{ &u32, }"@
    } else {
        "{ bool, "@ + spec_word_run(align, spec_niche_words(size, align)) + "}"@
    }
}

/// Appends the aligned word type (`u8`, `u16`, `u32`, `u64`, ...) to `out`.
fn push_word(align_bytes: u64, out: &mut String)
    requires
        align_bytes * 8 <= u64::MAX,
    ensures
        final(out)@ == old(out)@ + spec_word(align_bytes as nat),
{
    out.append("u");
    push_decimal(align_bytes * 8, out);
    assert(out@ =~= old(out)@ + spec_word(align_bytes as nat));
}

/// Appends the opaque placeholder body to `out`.
pub(crate) fn render_opaque_into(
    size_bytes: u64,
    align_bytes: u64,
    has_niche: bool,
    out: &mut String,
)
    requires
        1 <= align_bytes,
        align_bytes * 8 <= u64::MAX,
    ensures
        final(out)@ == old(out)@
            + spec_render_opaque(size_bytes as nat, align_bytes as nat, has_niche),
{
    if !has_niche {
        if size_bytes <= 8 {
            out.append("{ ");
            push_word(align_bytes, out);
            out.append(" }");
        } else {
            out.append("{ [ ");
            push_decimal(size_bytes / align_bytes, out);
            out.append(" ] ");
            push_word(align_bytes, out);
            out.append(" }");
        }
    } else if size_bytes == 8 {
        out.append("{ &u32, }");
    } else {
        out.append("{ bool, ");
        let slots = size_bytes / align_bytes;
        let count = if slots >= 1 {
            slots - 1
        } else {
            0
        };
        assert(count as nat == spec_niche_words(size_bytes as nat, align_bytes as nat));
        let mut j: u64 = 0;
        while j < count
            invariant
                j <= count,
                align_bytes * 8 <= u64::MAX,
                out@ == old(out)@ + "{ bool, "@
                    + spec_word_run(align_bytes as nat, j as nat),
            decreases count - j,
        {
            push_word(align_bytes, out);
            out.append(", ");
            assert(out@ =~= old(out)@ + "{ bool, "@
                + spec_word_run(align_bytes as nat, (j + 1) as nat));
            j += 1;
        }
        out.append("}");
    }
    assert(out@ =~= old(out)@
        + spec_render_opaque(size_bytes as nat, align_bytes as nat, has_niche));
}

/// Renders the opaque placeholder body for a hidden type, a pure function of
/// the three layout facts alone. The alignment must be at least one byte
/// (every Rust type's is) and small enough that its width in bits fits a
/// 64-bit count.
pub fn render_opaque(size_bytes: u64, align_bytes: u64, has_niche: bool) -> (r: String)
    requires
        1 <= align_bytes,
        align_bytes * 8 <= u64::MAX,
    ensures
        r@ == spec_render_opaque(size_bytes as nat, align_bytes as nat, has_niche),
{
    let mut out = String::new();
    render_opaque_into(size_bytes, align_bytes, has_niche, &mut out);
    proof {
        assert(out@ =~= spec_render_opaque(size_bytes as nat, align_bytes as nat, has_niche));
    }
    out
}

} // verus!
