use typed_vm::interpreter_error::InterpreterError;
use typed_vm::operations::{op_add, op_equals, op_less_than, op_not_equals, op_rem, op_sub};
use typed_vm::value::{ArrayValue, Value, VariableType};

#[test]
fn wrapping_add_at_the_top_of_u8() {
    let r = op_add(Value::U8(255), Value::U8(1));
    assert!(matches!(r, Ok(Value::U8(0))));
}

#[test]
fn wrapping_sub_below_zero_of_u32() {
    let r = op_sub(Value::U32(0), Value::U32(1));
    assert!(matches!(r, Ok(Value::U32(0xFFFF_FFFF))));
}

#[test]
fn add_of_mixed_widths_is_rejected() {
    let r = op_add(Value::U8(1), Value::U16(1));
    assert!(matches!(r, Err(InterpreterError::OperandsNotSameType)));
}

#[test]
fn add_of_booleans_is_rejected() {
    let r = op_add(Value::Bool(true), Value::Bool(true));
    assert!(matches!(r, Err(InterpreterError::OperandNotNumeric)));
}

#[test]
fn rem_by_zero_fails_for_every_width() {
    assert!(matches!(
        op_rem(Value::U8(3), Value::U8(0)),
        Err(InterpreterError::OperatorDivideByZero)
    ));
    assert!(matches!(
        op_rem(Value::U16(3), Value::U16(0)),
        Err(InterpreterError::OperatorDivideByZero)
    ));
    assert!(matches!(
        op_rem(Value::U32(3), Value::U32(0)),
        Err(InterpreterError::OperatorDivideByZero)
    ));
    assert!(matches!(
        op_rem(Value::U64(3), Value::U64(0)),
        Err(InterpreterError::OperatorDivideByZero)
    ));
}

#[test]
fn rem_of_equal_widths_divides() {
    assert!(matches!(op_rem(Value::U64(17), Value::U64(5)), Ok(Value::U64(2))));
}

#[test]
fn less_than_compares_numbers() {
    assert!(matches!(
        op_less_than(Value::U16(3), Value::U16(5)),
        Ok(Value::Bool(true))
    ));
    assert!(matches!(
        op_less_than(Value::U16(5), Value::U16(3)),
        Ok(Value::Bool(false))
    ));
}

#[test]
fn equals_covers_numbers_and_booleans() {
    assert!(matches!(
        op_equals(Value::U64(4), Value::U64(4)),
        Ok(Value::Bool(true))
    ));
    assert!(matches!(
        op_equals(Value::Bool(true), Value::Bool(false)),
        Ok(Value::Bool(false))
    ));
    assert!(matches!(
        op_not_equals(Value::U8(1), Value::U8(2)),
        Ok(Value::Bool(true))
    ));
    assert!(matches!(
        op_equals(Value::U8(1), Value::U64(1)),
        Err(InterpreterError::OperandsNotSameType)
    ));
}

#[test]
fn string_equality_is_reserved() {
    let r = op_equals(
        Value::String(String::from("a")),
        Value::String(String::from("a")),
    );
    assert!(matches!(r, Err(InterpreterError::NotImplemented)));
}

#[test]
fn value_types_project_their_tags() {
    assert!(matches!(Value::U8(0).get_type(), VariableType::U8));
    assert!(matches!(Value::Bool(false).get_type(), VariableType::Bool));
    assert!(matches!(
        Value::String(String::new()).get_type(),
        VariableType::String
    ));
    let arr = ArrayValue::new(VariableType::U16);
    match Value::Array(arr).get_type() {
        VariableType::Array(inner) => assert!(matches!(*inner, VariableType::U16)),
        other => panic!("expected an array type, got {:?}", other),
    }
}

#[test]
fn numeric_predicates_and_index_conversion() {
    assert!(Value::U32(5).is_number());
    assert!(!Value::Bool(true).is_number());
    assert!(Value::Bool(true).is_bool());
    assert_eq!(Value::Bool(true).get_bool(), Some(true));
    assert_eq!(Value::U8(1).get_bool(), None);
    assert!(matches!(Value::U64(9).to_usize(), Ok(9)));
    assert!(matches!(
        Value::String(String::new()).to_usize(),
        Err(InterpreterError::ValueIsNotNumeric(_))
    ));
}

#[test]
fn array_push_get_and_length() {
    let mut arr = ArrayValue::new(VariableType::U64);
    assert!(arr.is_empty());
    arr.push(Value::U64(10)).unwrap();
    arr.push(Value::U64(20)).unwrap();
    assert_eq!(arr.len(), 2);
    assert!(!arr.is_empty());
    assert!(matches!(arr.get_index(1), Ok(Value::U64(20))));
    assert!(matches!(
        arr.get_index(2),
        Err(InterpreterError::ArrayIndexBeyondBounds(2))
    ));
}

#[test]
fn array_set_index_overwrites_in_range_only() {
    let mut arr = ArrayValue::new(VariableType::U8);
    arr.push(Value::U8(1)).unwrap();
    assert!(matches!(
        arr.set_index(1, Value::U8(2)),
        Err(InterpreterError::ArrayIndexBeyondBounds(1))
    ));
    arr.set_index(0, Value::U8(9)).unwrap();
    assert!(matches!(arr.get_index(0), Ok(Value::U8(9))));
}

#[test]
fn array_element_type_survives_every_operation() {
    // No push or index-set changes the element type, accepted or refused.
    let mut arr = ArrayValue::new(VariableType::U8);
    assert!(matches!(arr.get_inner_type(), VariableType::U8));
    arr.push(Value::U8(1)).unwrap();
    assert!(matches!(arr.get_inner_type(), VariableType::U8));
    assert!(matches!(
        arr.push(Value::U16(1)),
        Err(InterpreterError::ArrayTypeIncompatibleWithPushValue(_, _))
    ));
    assert!(matches!(arr.get_inner_type(), VariableType::U8));
    assert_eq!(arr.len(), 1);
    assert!(matches!(
        arr.set_index(0, Value::Bool(false)),
        Err(InterpreterError::ArraySetValueWithIncompatibleType(_, _))
    ));
    assert!(matches!(arr.get_inner_type(), VariableType::U8));
    assert!(matches!(arr.get_index(0), Ok(Value::U8(1))));
}

#[test]
fn nested_arrays_check_their_element_type() {
    let mut outer = ArrayValue::new(VariableType::Array(Box::new(VariableType::U64)));
    let mut inner = ArrayValue::new(VariableType::U64);
    inner.push(Value::U64(3)).unwrap();
    outer.push(Value::Array(inner)).unwrap();
    assert_eq!(outer.len(), 1);
    let wrong = ArrayValue::new(VariableType::Bool);
    assert!(matches!(
        outer.push(Value::Array(wrong)),
        Err(InterpreterError::ArrayTypeIncompatibleWithPushValue(_, _))
    ));
    match outer.get_index(0) {
        Ok(Value::Array(a)) => assert!(matches!(a.get_index(0), Ok(Value::U64(3)))),
        other => panic!("expected a nested array, got {:?}", other),
    }
}
