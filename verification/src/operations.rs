use crate::interpreter_error::{ErrorView, InterpreterError};
use crate::value::{spec_is_numeric, spec_numeric_value, spec_type_of, Value, ValueView};
use vstd::prelude::*;

verus! {

/// Whether an executable operation result agrees with its mathematical
/// counterpart.
pub open spec fn result_matches(
    r: Result<Value, InterpreterError>,
    s: Result<ValueView, ErrorView>,
) -> bool {
    match (r, s) {
        (Ok(rv), Ok(v)) => rv@ == v,
        (Err(re), Err(e)) => re@ == e,
        _ => false,
    }
}

/// Addition: numeric operands of one width, wrapping modulo 2^width.
pub open spec fn spec_op_add(l: ValueView, r: ValueView) -> Result<ValueView, ErrorView> {
    if !(spec_is_numeric(l) && spec_is_numeric(r)) {
        Err(ErrorView::OperandNotNumeric)
    } else {
        match (l, r) {
            (ValueView::U8(a), ValueView::U8(b)) => Ok(ValueView::U8(((a + b) % 0x100) as u8)),
            (ValueView::U16(a), ValueView::U16(b)) => Ok(
                ValueView::U16(((a + b) % 0x1_0000) as u16),
            ),
            (ValueView::U32(a), ValueView::U32(b)) => Ok(
                ValueView::U32(((a + b) % 0x1_0000_0000) as u32),
            ),
            (ValueView::U64(a), ValueView::U64(b)) => Ok(
                ValueView::U64(((a + b) % 0x1_0000_0000_0000_0000) as u64),
            ),
            _ => Err(ErrorView::OperandsNotSameType),
        }
    }
}

/// Subtraction: numeric operands of one width, wrapping modulo 2^width.
pub open spec fn spec_op_sub(l: ValueView, r: ValueView) -> Result<ValueView, ErrorView> {
    if !(spec_is_numeric(l) && spec_is_numeric(r)) {
        Err(ErrorView::OperandNotNumeric)
    } else {
        match (l, r) {
            (ValueView::U8(a), ValueView::U8(b)) => Ok(ValueView::U8(((a - b) % 0x100) as u8)),
            (ValueView::U16(a), ValueView::U16(b)) => Ok(
                ValueView::U16(((a - b) % 0x1_0000) as u16),
            ),
            (ValueView::U32(a), ValueView::U32(b)) => Ok(
                ValueView::U32(((a - b) % 0x1_0000_0000) as u32),
            ),
            (ValueView::U64(a), ValueView::U64(b)) => Ok(
                ValueView::U64(((a - b) % 0x1_0000_0000_0000_0000) as u64),
            ),
            _ => Err(ErrorView::OperandsNotSameType),
        }
    }
}

/// Remainder: numeric operands of one width; a zero right operand is a
/// division-by-zero error.
pub open spec fn spec_op_rem(l: ValueView, r: ValueView) -> Result<ValueView, ErrorView> {
    if !(spec_is_numeric(l) && spec_is_numeric(r)) {
        Err(ErrorView::OperandNotNumeric)
    } else {
        match (l, r) {
            (ValueView::U8(a), ValueView::U8(b)) => if b == 0 {
                Err(ErrorView::OperatorDivideByZero)
            } else {
                Ok(ValueView::U8((a % b) as u8))
            },
            (ValueView::U16(a), ValueView::U16(b)) => if b == 0 {
                Err(ErrorView::OperatorDivideByZero)
            } else {
                Ok(ValueView::U16((a % b) as u16))
            },
            (ValueView::U32(a), ValueView::U32(b)) => if b == 0 {
                Err(ErrorView::OperatorDivideByZero)
            } else {
                Ok(ValueView::U32((a % b) as u32))
            },
            (ValueView::U64(a), ValueView::U64(b)) => if b == 0 {
                Err(ErrorView::OperatorDivideByZero)
            } else {
                Ok(ValueView::U64((a % b) as u64))
            },
            _ => Err(ErrorView::OperandsNotSameType),
        }
    }
}

/// Ordering: numeric operands of one width; the result is a boolean value.
pub open spec fn spec_op_less_than(l: ValueView, r: ValueView) -> Result<ValueView, ErrorView> {
    if !(spec_is_numeric(l) && spec_is_numeric(r)) {
        Err(ErrorView::OperandNotNumeric)
    } else {
        match (l, r) {
            (ValueView::U8(a), ValueView::U8(b)) => Ok(ValueView::Bool(a < b)),
            (ValueView::U16(a), ValueView::U16(b)) => Ok(ValueView::Bool(a < b)),
            (ValueView::U32(a), ValueView::U32(b)) => Ok(ValueView::Bool(a < b)),
            (ValueView::U64(a), ValueView::U64(b)) => Ok(ValueView::Bool(a < b)),
            _ => Err(ErrorView::OperandsNotSameType),
        }
    }
}

/// Equality: defined on numeric and boolean operands of one type; string and
/// array equality are reserved.
pub open spec fn spec_op_equals(l: ValueView, r: ValueView) -> Result<ValueView, ErrorView> {
    match (l, r) {
        (ValueView::U8(a), ValueView::U8(b)) => Ok(ValueView::Bool(a == b)),
        (ValueView::U16(a), ValueView::U16(b)) => Ok(ValueView::Bool(a == b)),
        (ValueView::U32(a), ValueView::U32(b)) => Ok(ValueView::Bool(a == b)),
        (ValueView::U64(a), ValueView::U64(b)) => Ok(ValueView::Bool(a == b)),
        (ValueView::Bool(a), ValueView::Bool(b)) => Ok(ValueView::Bool(a == b)),
        (ValueView::Str(_), ValueView::Str(_)) => Err(ErrorView::NotImplemented),
        (ValueView::Array(_, _), ValueView::Array(_, _)) => Err(ErrorView::NotImplemented),
        _ => Err(ErrorView::OperandsNotSameType),
    }
}

/// Inequality: the complement of `spec_op_equals` where that is defined.
pub open spec fn spec_op_not_equals(l: ValueView, r: ValueView) -> Result<ValueView, ErrorView> {
    match (l, r) {
        (ValueView::U8(a), ValueView::U8(b)) => Ok(ValueView::Bool(a != b)),
        (ValueView::U16(a), ValueView::U16(b)) => Ok(ValueView::Bool(a != b)),
        (ValueView::U32(a), ValueView::U32(b)) => Ok(ValueView::Bool(a != b)),
        (ValueView::U64(a), ValueView::U64(b)) => Ok(ValueView::Bool(a != b)),
        (ValueView::Bool(a), ValueView::Bool(b)) => Ok(ValueView::Bool(a != b)),
        (ValueView::Str(_), ValueView::Str(_)) => Err(ErrorView::NotImplemented),
        (ValueView::Array(_, _), ValueView::Array(_, _)) => Err(ErrorView::NotImplemented),
        _ => Err(ErrorView::OperandsNotSameType),
    }
}

/// Wrapping addition of two values.
pub fn op_add(left: Value, right: Value) -> (r: Result<Value, InterpreterError>)
    ensures
        result_matches(r, spec_op_add(left@, right@)),
{
    if !(left.is_number() && right.is_number()) {
        return Err(InterpreterError::OperandNotNumeric);
    }
    Ok(
        match (left, right) {
            (Value::U8(lvalue), Value::U8(rvalue)) => Value::U8(lvalue.wrapping_add(rvalue)),
            (Value::U16(lvalue), Value::U16(rvalue)) => Value::U16(lvalue.wrapping_add(rvalue)),
            (Value::U32(lvalue), Value::U32(rvalue)) => Value::U32(lvalue.wrapping_add(rvalue)),
            (Value::U64(lvalue), Value::U64(rvalue)) => Value::U64(lvalue.wrapping_add(rvalue)),
            _ => { return Err(InterpreterError::OperandsNotSameType) },
        },
    )
}

/// Wrapping subtraction of two values.
pub fn op_sub(left: Value, right: Value) -> (r: Result<Value, InterpreterError>)
    ensures
        result_matches(r, spec_op_sub(left@, right@)),
{
    if !(left.is_number() && right.is_number()) {
        return Err(InterpreterError::OperandNotNumeric);
    }
    Ok(
        match (left, right) {
            (Value::U8(lvalue), Value::U8(rvalue)) => Value::U8(lvalue.wrapping_sub(rvalue)),
            (Value::U16(lvalue), Value::U16(rvalue)) => Value::U16(lvalue.wrapping_sub(rvalue)),
            (Value::U32(lvalue), Value::U32(rvalue)) => Value::U32(lvalue.wrapping_sub(rvalue)),
            (Value::U64(lvalue), Value::U64(rvalue)) => Value::U64(lvalue.wrapping_sub(rvalue)),
            _ => { return Err(InterpreterError::OperandsNotSameType) },
        },
    )
}

/// Remainder of two values; zero right operands are rejected.
pub fn op_rem(left: Value, right: Value) -> (r: Result<Value, InterpreterError>)
    ensures
        result_matches(r, spec_op_rem(left@, right@)),
{
    if !(left.is_number() && right.is_number()) {
        return Err(InterpreterError::OperandNotNumeric);
    }
    Ok(
        match (left, right) {
            (Value::U8(lvalue), Value::U8(rvalue)) => {
                if rvalue == 0 {
                    return Err(InterpreterError::OperatorDivideByZero);
                }
                Value::U8(lvalue % rvalue)
            }
            (Value::U16(lvalue), Value::U16(rvalue)) => {
                if rvalue == 0 {
                    return Err(InterpreterError::OperatorDivideByZero);
                }
                Value::U16(lvalue % rvalue)
            }
            (Value::U32(lvalue), Value::U32(rvalue)) => {
                if rvalue == 0 {
                    return Err(InterpreterError::OperatorDivideByZero);
                }
                Value::U32(lvalue % rvalue)
            }
            (Value::U64(lvalue), Value::U64(rvalue)) => {
                if rvalue == 0 {
                    return Err(InterpreterError::OperatorDivideByZero);
                }
                Value::U64(lvalue % rvalue)
            }
            _ => { return Err(InterpreterError::OperandsNotSameType) },
        },
    )
}

/// Strict ordering of two numeric values.
pub fn op_less_than(left: Value, right: Value) -> (r: Result<Value, InterpreterError>)
    ensures
        result_matches(r, spec_op_less_than(left@, right@)),
{
    if !(left.is_number() && right.is_number()) {
        return Err(InterpreterError::OperandNotNumeric);
    }
    Ok(
        match (left, right) {
            (Value::U8(lvalue), Value::U8(rvalue)) => Value::Bool(lvalue < rvalue),
            (Value::U16(lvalue), Value::U16(rvalue)) => Value::Bool(lvalue < rvalue),
            (Value::U32(lvalue), Value::U32(rvalue)) => Value::Bool(lvalue < rvalue),
            (Value::U64(lvalue), Value::U64(rvalue)) => Value::Bool(lvalue < rvalue),
            _ => { return Err(InterpreterError::OperandsNotSameType) },
        },
    )
}

/// Equality of two values of one type; strings and arrays are reserved.
pub fn op_equals(left: Value, right: Value) -> (r: Result<Value, InterpreterError>)
    ensures
        result_matches(r, spec_op_equals(left@, right@)),
{
    Ok(
        match (left, right) {
            (Value::U8(lvalue), Value::U8(rvalue)) => Value::Bool(lvalue == rvalue),
            (Value::U16(lvalue), Value::U16(rvalue)) => Value::Bool(lvalue == rvalue),
            (Value::U32(lvalue), Value::U32(rvalue)) => Value::Bool(lvalue == rvalue),
            (Value::U64(lvalue), Value::U64(rvalue)) => Value::Bool(lvalue == rvalue),
            (Value::Bool(lvalue), Value::Bool(rvalue)) => Value::Bool(lvalue == rvalue),
            (Value::String(_), Value::String(_)) => {
                return Err(InterpreterError::NotImplemented)
            },
            (Value::Array(_), Value::Array(_)) => { return Err(InterpreterError::NotImplemented) },
            _ => { return Err(InterpreterError::OperandsNotSameType) },
        },
    )
}

/// Inequality of two values of one type; strings and arrays are reserved.
pub fn op_not_equals(left: Value, right: Value) -> (r: Result<Value, InterpreterError>)
    ensures
        result_matches(r, spec_op_not_equals(left@, right@)),
{
    Ok(
        match (left, right) {
            (Value::U8(lvalue), Value::U8(rvalue)) => Value::Bool(lvalue != rvalue),
            (Value::U16(lvalue), Value::U16(rvalue)) => Value::Bool(lvalue != rvalue),
            (Value::U32(lvalue), Value::U32(rvalue)) => Value::Bool(lvalue != rvalue),
            (Value::U64(lvalue), Value::U64(rvalue)) => Value::Bool(lvalue != rvalue),
            (Value::Bool(lvalue), Value::Bool(rvalue)) => Value::Bool(lvalue != rvalue),
            (Value::String(_), Value::String(_)) => {
                return Err(InterpreterError::NotImplemented)
            },
            (Value::Array(_), Value::Array(_)) => { return Err(InterpreterError::NotImplemented) },
            _ => { return Err(InterpreterError::OperandsNotSameType) },
        },
    )
}

/// Any remainder whose right operand is zero, over operands of one numeric
/// width, reports division by zero.
pub proof fn lemma_rem_by_zero(l: ValueView, r: ValueView)
    requires
        spec_is_numeric(l),
        spec_is_numeric(r),
        spec_type_of(l) == spec_type_of(r),
        spec_numeric_value(r) == 0,
    ensures
        spec_op_rem(l, r) == Err::<ValueView, ErrorView>(ErrorView::OperatorDivideByZero),
{
}

} // verus!

