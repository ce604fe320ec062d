use rustifact::dims::{
    array_type, assert_shape, nested_expr, vector_type, SequenceKind, ShapeError, DEFAULT_DIM,
    MAX_DIM,
};
use rustifact::expr::Value;

fn grid() -> Value {
    Value::Array(vec![
        Value::Array(vec![Value::U32(0), Value::U32(1)]),
        Value::Array(vec![Value::U32(1), Value::U32(2)]),
    ])
}

#[test]
fn grid_type_has_both_lengths() {
    let g = grid();
    assert_eq!(assert_shape(2, &g), Ok(()));
    assert_eq!(array_type("u32", 2, &g), "[[u32; 2]; 2]");
}

#[test]
fn outer_length_and_inner_type() {
    let s = Value::Array(vec![
        Value::Array(vec![Value::U8(1), Value::U8(2), Value::U8(3)]),
        Value::Array(vec![Value::U8(4), Value::U8(5), Value::U8(6)]),
        Value::Array(vec![Value::U8(7), Value::U8(8), Value::U8(9)]),
        Value::Array(vec![Value::U8(0), Value::U8(0), Value::U8(0)]),
    ]);
    let outer = array_type("u8", 2, &s);
    let inner = match &s {
        Value::Array(items) => array_type("u8", 1, &items[0]),
        _ => unreachable!(),
    };
    assert_eq!(inner, "[u8; 3]");
    assert_eq!(outer, format!("[{}; 4]", inner));
}

#[test]
fn one_dimension_is_the_default() {
    assert_eq!(DEFAULT_DIM, 1);
    let s = Value::Array(vec![Value::I64(1), Value::I64(2)]);
    assert_eq!(assert_shape(DEFAULT_DIM, &s), Ok(()));
    assert_eq!(array_type("i64", DEFAULT_DIM, &s), "[i64; 2]");
    assert_eq!(array_type("i64", 1, &Value::Array(vec![])), "[i64; 0]");
}

#[test]
fn empty_outer_sample_is_too_shallow() {
    let empty = Value::Array(vec![]);
    assert_eq!(assert_shape(2, &empty), Err(ShapeError::TooShallow));
    assert_eq!(assert_shape(1, &empty), Ok(()));
}

#[test]
fn empty_level_above_the_innermost_is_too_shallow() {
    let s = Value::Array(vec![Value::Array(vec![]), Value::Array(vec![Value::U8(1)])]);
    assert_eq!(assert_shape(3, &s), Err(ShapeError::TooShallow));
    assert_eq!(assert_shape(2, &s), Ok(()));
    assert_eq!(array_type("u8", 2, &s), "[[u8; 0]; 2]");
}

#[test]
fn scalar_where_a_container_is_needed_is_too_shallow() {
    assert_eq!(assert_shape(1, &Value::U8(1)), Err(ShapeError::TooShallow));
    let s = Value::Array(vec![Value::U8(1)]);
    assert_eq!(assert_shape(2, &s), Err(ShapeError::TooShallow));
}

#[test]
fn dimension_must_be_in_range() {
    let s = Value::Array(vec![Value::U8(1)]);
    assert_eq!(assert_shape(0, &s), Err(ShapeError::DimensionOutOfRange));
    assert_eq!(assert_shape(MAX_DIM + 1, &s), Err(ShapeError::DimensionOutOfRange));
    let mut deep = Value::U8(7);
    for _ in 0..MAX_DIM {
        deep = Value::Array(vec![deep]);
    }
    assert_eq!(assert_shape(MAX_DIM, &deep), Ok(()));
    assert_eq!(MAX_DIM, 16);
}

#[test]
fn vector_types_nest() {
    assert_eq!(vector_type("u32", 1), "Vec<u32>");
    assert_eq!(vector_type("String", 3), "Vec<Vec<Vec<String>>>");
}

#[test]
fn nested_expressions_follow_the_kind() {
    let g = grid();
    assert_eq!(nested_expr(SequenceKind::Array, 2, &g), "[[0u32, 1u32], [1u32, 2u32]]");
    assert_eq!(
        nested_expr(SequenceKind::Vector, 2, &g),
        "vec![vec![0u32, 1u32], vec![1u32, 2u32]]"
    );
    let s = Value::Vector(vec![Value::Vector(vec![Value::Bool(true)])]);
    assert_eq!(nested_expr(SequenceKind::Array, 1, &s), "[vec![true]]");
}

#[test]
fn empty_container_anywhere_above_the_innermost_level_is_too_shallow() {
    let jagged = Value::Vector(vec![
        Value::Vector(vec![Value::Vector(vec![Value::U32(1)])]),
        Value::Vector(vec![]),
    ]);
    assert_eq!(assert_shape(3, &jagged), Err(ShapeError::TooShallow));
    assert_eq!(assert_shape(2, &jagged), Ok(()));
    let scalar_inside = Value::Array(vec![Value::Array(vec![Value::U8(1)]), Value::U8(2)]);
    assert_eq!(assert_shape(2, &scalar_inside), Err(ShapeError::TooShallow));
}

#[test]
fn four_dimensional_array_type() {
    let leaf = || Value::Array(vec![Value::I16(1), Value::I16(2), Value::I16(3), Value::I16(4), Value::I16(5)]);
    let level2 = || Value::Array(vec![leaf(), leaf(), leaf(), leaf()]);
    let level1 = || Value::Array(vec![level2(), level2(), level2()]);
    let sample = Value::Array(vec![level1(), level1()]);
    assert_eq!(assert_shape(4, &sample), Ok(()));
    assert_eq!(array_type("i16", 4, &sample), "[[[[i16; 5]; 4]; 3]; 2]");
}
