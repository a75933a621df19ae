use crate::value::{FunctionIdType, Value, VariableIdType};
use vstd::prelude::*;

verus! {

/// The opcode set. Operands are variable ids, immediate values, function
/// ids, or instruction indices.
///
/// Arithmetic forms assign into their left operand; comparison forms assign
/// a boolean into their first operand. The `...I` forms take an immediate
/// value in place of the right-hand variable.
#[derive(Debug)]
pub enum Instruction {
    SetVar(VariableIdType, VariableIdType),
    SetI(VariableIdType, Value),
    SetArrayIndex(VariableIdType, VariableIdType, VariableIdType),
    SetArrayIndexI(VariableIdType, VariableIdType, Value),
    SetArrayIIndex(VariableIdType, Value, VariableIdType),
    GetArrayIndex(VariableIdType, VariableIdType, VariableIdType),
    GetArrayIndexI(VariableIdType, VariableIdType, Value),
    Add(VariableIdType, VariableIdType),
    Sub(VariableIdType, VariableIdType),
    Mul(VariableIdType, VariableIdType),
    Div(VariableIdType, VariableIdType),
    Rem(VariableIdType, VariableIdType),
    AddI(VariableIdType, Value),
    SubI(VariableIdType, Value),
    MulI(VariableIdType, Value),
    DivI(VariableIdType, Value),
    RemI(VariableIdType, Value),
    LessThan(VariableIdType, VariableIdType, VariableIdType),
    LessThanI(VariableIdType, VariableIdType, Value),
    GreaterThan(VariableIdType, VariableIdType, VariableIdType),
    GreaterThanI(VariableIdType, VariableIdType, Value),
    LessThanOrEqual(VariableIdType, VariableIdType, VariableIdType),
    LessThanOrEqualI(VariableIdType, VariableIdType, Value),
    GreaterThanOrEqual(VariableIdType, VariableIdType, VariableIdType),
    GreaterThanOrEqualI(VariableIdType, VariableIdType, Value),
    Equals(VariableIdType, VariableIdType, VariableIdType),
    EqualsI(VariableIdType, VariableIdType, Value),
    NotEquals(VariableIdType, VariableIdType, VariableIdType),
    NotEqualsI(VariableIdType, VariableIdType, Value),
    Or(VariableIdType, VariableIdType),
    And(VariableIdType, VariableIdType),
    Xor(VariableIdType, VariableIdType),
    Not(VariableIdType),
    Goto(usize),
    GotoIfTrue(usize, VariableIdType),
    PushFunctionParameter(VariableIdType),
    CallVoidFunction(FunctionIdType),
    CallFunction(FunctionIdType, VariableIdType),
    CallNativeVoidFunction(FunctionIdType),
    CallNativeVoidMethod(VariableIdType, FunctionIdType),
    CallNativeMethod(VariableIdType, VariableIdType, FunctionIdType),
    Return(VariableIdType),
}

} // verus!
