use cxc_alias::ast::Declaration;
use cxc_alias::ast::Shape;
use cxc_alias::ast::VariantShape;
use cxc_alias::decl::render_declaration;
use cxc_alias::digits::push_decimal;
use cxc_alias::opaque::render_opaque;
use cxc_alias::render::render;

fn leaf(name: &str) -> Shape {
    Shape::Primitive(name.to_string())
}

#[test]
fn array_nesting_composes() {
    let inner = Shape::Array(Box::new(leaf("i32")), 2);
    let shape = Shape::Array(Box::new(inner), 2);
    assert_eq!(render(&shape), "[2][2]i32");
}

#[test]
fn generic_argument_formatting() {
    let shape = Shape::Path("Vec".to_string(), vec![leaf("u32")]);
    assert_eq!(render(&shape), "Vec < u32, >");
    let pair = Shape::Tuple(vec![leaf("u32"), leaf("u32")]);
    let nested = Shape::Path("Vec".to_string(), vec![pair]);
    assert_eq!(render(&nested), "Vec < { u32, u32, }, >");
}

#[test]
fn path_without_arguments_renders_like_primitive() {
    let path = Shape::Path("Foo".to_string(), vec![]);
    assert_eq!(render(&path), render(&leaf("Foo")));
    assert_eq!(render(&path), "Foo");
}

#[test]
fn indirection_erases_mutability() {
    // A raw pointer and a mutable reference to the same target lower to the
    // same Indirection shape, so their aliases are byte-identical.
    let from_raw_pointer = Shape::Indirection(Box::new(leaf("i32")));
    let from_mut_reference = Shape::Indirection(Box::new(leaf("i32")));
    assert_eq!(render(&from_raw_pointer), render(&from_mut_reference));
    assert_eq!(render(&from_raw_pointer), "&i32");
}

#[test]
fn function_with_and_without_return() {
    let void = Shape::Function(vec![leaf("i32")], None);
    assert_eq!(render(&void), "(i32, )");
    let with_ret = Shape::Function(vec![leaf("i32")], Some(Box::new(leaf("i32"))));
    assert_eq!(render(&with_ret), "(i32, ); i32");
}

#[test]
fn function_with_no_parameters() {
    let shape = Shape::Function(vec![], Some(Box::new(leaf("u8"))));
    assert_eq!(render(&shape), "(); u8");
}

#[test]
fn empty_tuple_keeps_inner_space() {
    assert_eq!(render(&Shape::Tuple(vec![])), "{ }");
}

#[test]
fn rendering_is_idempotent() {
    let pair = Shape::Tuple(vec![leaf("u32"), leaf("f64")]);
    let shape = Shape::Path("Vec".to_string(), vec![pair]);
    assert_eq!(render(&shape), render(&shape));
    let decl = Declaration::Enum(
        "E".to_string(),
        vec![("A".to_string(), VariantShape::Tuple(vec![leaf("u8")]))],
    );
    assert_eq!(render_declaration(&decl), render_declaration(&decl));
}

#[test]
fn field_order_is_declaration_order() {
    let ab = Declaration::NamedStruct(
        "S".to_string(),
        vec![("a".to_string(), leaf("u8")), ("b".to_string(), leaf("u16"))],
    );
    let ba = Declaration::NamedStruct(
        "S".to_string(),
        vec![("b".to_string(), leaf("u16")), ("a".to_string(), leaf("u8"))],
    );
    assert_eq!(render_declaration(&ab), "S = { a : u8, b : u16, }");
    assert_eq!(render_declaration(&ba), "S = { b : u16, a : u8, }");
    assert_ne!(render_declaration(&ab), render_declaration(&ba));
}

#[test]
fn unit_variant_leaves_empty_slot() {
    let decl = Declaration::Enum(
        "Signal".to_string(),
        vec![
            ("Go".to_string(), VariantShape::Unit),
            ("Halt".to_string(), VariantShape::Unit),
        ],
    );
    assert_eq!(render_declaration(&decl), "Signal = { Go :  / Halt :  / }");
}

#[test]
fn enum_with_no_variants() {
    let decl = Declaration::Enum("Never".to_string(), vec![]);
    assert_eq!(render_declaration(&decl), "Never = { }");
}

#[test]
fn opaque_no_niche_within_word() {
    assert_eq!(render_opaque(4, 4, false), "{ u32 }");
    assert_eq!(render_opaque(8, 8, false), "{ u64 }");
    assert_eq!(render_opaque(1, 1, false), "{ u8 }");
    assert_eq!(render_opaque(2, 2, false), "{ u16 }");
}

#[test]
fn opaque_no_niche_word_array() {
    assert_eq!(render_opaque(16, 4, false), "{ [ 4 ] u32 }");
    assert_eq!(render_opaque(32, 8, false), "{ [ 4 ] u64 }");
    assert_eq!(render_opaque(9, 1, false), "{ [ 9 ] u8 }");
}

#[test]
fn opaque_niche_eight_bytes_ignores_alignment() {
    assert_eq!(render_opaque(8, 8, true), "{ &u32, }");
    assert_eq!(render_opaque(8, 4, true), "{ &u32, }");
    assert_eq!(render_opaque(8, 1, true), "{ &u32, }");
}

#[test]
fn opaque_niche_pads_with_words() {
    assert_eq!(render_opaque(16, 8, true), "{ bool, u64, }");
    assert_eq!(render_opaque(24, 8, true), "{ bool, u64, u64, }");
    assert_eq!(render_opaque(12, 4, true), "{ bool, u32, u32, }");
    assert_eq!(render_opaque(4, 4, true), "{ bool, }");
}

#[test]
fn array_length_is_plain_decimal() {
    assert_eq!(render(&Shape::Array(Box::new(leaf("i32")), 0)), "[0]i32");
    assert_eq!(
        render(&Shape::Array(Box::new(leaf("i32")), 1234567890)),
        "[1234567890]i32"
    );
    assert_eq!(
        render(&Shape::Array(Box::new(leaf("u8")), u64::MAX)),
        "[18446744073709551615]u8"
    );
}

#[test]
fn decimal_digits_compose() {
    let mut out = String::new();
    push_decimal(90210, &mut out);
    assert_eq!(out, "90210");
    push_decimal(7, &mut out);
    assert_eq!(out, "902107");
}
