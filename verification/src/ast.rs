//! The shape model: a typed, recursive description of what a data type looks
//! like, and the declarations the renderer consumes. All entities are
//! transient values — built once by a front end, rendered once, discarded.

use vstd::prelude::*;

verus! {

/// The structural description of a single type's layout.
///
/// Array lengths arrive as fully evaluated integers: any constant-expression
/// arithmetic on a length is resolved by the front end before a `Shape` is
/// built, and the renderer only formats the number. A parenthesized source
/// type is transparent and has no variant here: the front end unwraps it to
/// the inner shape.
pub enum Shape {
    /// A bare identifier with no generic arguments.
    Primitive(String),
    /// A named type applied to generic arguments, in source order.
    /// With no arguments it renders exactly like `Primitive`.
    Path(String, Vec<Shape>),
    /// A fixed-length array: element shape and evaluated length.
    Array(Box<Shape>, u64),
    /// An anonymous product of zero or more shapes, in source order.
    Tuple(Vec<Shape>),
    /// A raw pointer or a reference to the target shape. Ownership and
    /// mutability are erased: both forms render identically.
    Indirection(Box<Shape>),
    /// A bare function signature: parameter shapes and an optional result.
    Function(Vec<Shape>, Option<Box<Shape>>),
}

/// The field layout of one enum variant.
pub enum VariantShape {
    /// Curly-brace fields: `(field_name, field_shape)` pairs in source order.
    Named(Vec<(String, Shape)>),
    /// Positional fields in source order.
    Tuple(Vec<Shape>),
    /// No fields at all.
    Unit,
}

/// A declaration to render: the external input of the declaration renderer.
pub enum Declaration {
    /// A struct with named fields, in source order.
    NamedStruct(String, Vec<(String, Shape)>),
    /// A tuple-style struct: positional fields in source order.
    TupleStruct(String, Vec<Shape>),
    /// A struct with no fields.
    UnitStruct(String),
    /// A tagged union: `(variant_name, variant_shape)` pairs in source order.
    Enum(String, Vec<(String, VariantShape)>),
    /// A declaration whose fields stay hidden: only its size in bytes, its
    /// alignment in bytes and whether it has a niche (a spare bit pattern an
    /// optional wrapper can reuse) are known.
    Opaque(String, u64, u64, bool),
}

/// Why an input cannot be rendered. A failure is a defect in the caller's
/// input; it is reported to the caller of that one declaration and never
/// affects any other.
pub enum AliasError {
    /// A type construct the compiler does not know how to render, such as a
    /// value-level (const) generic argument.
    UnsupportedShape,
    /// A declaration kind outside named struct, tuple struct, unit struct,
    /// enum and opaque — for example a union.
    UnsupportedDeclarationKind,
}

} // verus!
