use crate::value::{FunctionIdType, Value, ValueView, VariableIdType, VariableType};
use vstd::prelude::*;

verus! {

/// The failure taxonomy surfaced by `Interpreter::execute`.
///
/// The first error aborts the run; no prior side effect is rolled back.
#[derive(Debug)]
pub enum InterpreterError {
    VariableDoesNotExist(VariableIdType),
    FunctionDoesNotExist(FunctionIdType),
    AttemptAssignedDifferentTypes(VariableType, VariableType),
    OperandsNotSameType,
    OperandNotNumeric,
    NoEntryFunction,
    NoReturnValue,
    ExpectingReturnCallToVoidFunction(FunctionIdType),
    VoidCallToNonVoidFunction(FunctionIdType),
    CallstackReferencesUnknownFunction(FunctionIdType),
    FunctionCallParameterStackEmptyPop(FunctionIdType),
    FunctionCallParametersInvalid(FunctionIdType, bool),
    GotoNonBoolean,
    ValueIsNotNumeric(Value),
    ArraySetValueWithIncompatibleType(VariableType, VariableType),
    ArrayIndexWithNonNumericType(Value),
    ArrayIndexBeyondBounds(usize),
    ArrayTypeIncompatibleWithPushValue(VariableType, VariableType),
    ArrayOperationOnNonArrayValue(VariableType),
    OperatorDivideByZero,
    NotImplemented,
    StepLimitReached,
}

/// Mathematical image of an `InterpreterError`: identical except that
/// carried `Value`s are replaced by their views.
pub ghost enum ErrorView {
    VariableDoesNotExist(VariableIdType),
    FunctionDoesNotExist(FunctionIdType),
    AttemptAssignedDifferentTypes(VariableType, VariableType),
    OperandsNotSameType,
    OperandNotNumeric,
    NoEntryFunction,
    NoReturnValue,
    ExpectingReturnCallToVoidFunction(FunctionIdType),
    VoidCallToNonVoidFunction(FunctionIdType),
    CallstackReferencesUnknownFunction(FunctionIdType),
    FunctionCallParameterStackEmptyPop(FunctionIdType),
    FunctionCallParametersInvalid(FunctionIdType, bool),
    GotoNonBoolean,
    ValueIsNotNumeric(ValueView),
    ArraySetValueWithIncompatibleType(VariableType, VariableType),
    ArrayIndexWithNonNumericType(ValueView),
    ArrayIndexBeyondBounds(usize),
    ArrayTypeIncompatibleWithPushValue(VariableType, VariableType),
    ArrayOperationOnNonArrayValue(VariableType),
    OperatorDivideByZero,
    NotImplemented,
    StepLimitReached,
}

impl View for InterpreterError {
    type V = ErrorView;

    open spec fn view(&self) -> ErrorView {
        match *self {
            InterpreterError::VariableDoesNotExist(id) => ErrorView::VariableDoesNotExist(id),
            InterpreterError::FunctionDoesNotExist(id) => ErrorView::FunctionDoesNotExist(id),
            InterpreterError::AttemptAssignedDifferentTypes(a, b)
                => ErrorView::AttemptAssignedDifferentTypes(a, b),
            InterpreterError::OperandsNotSameType => ErrorView::OperandsNotSameType,
            InterpreterError::OperandNotNumeric => ErrorView::OperandNotNumeric,
            InterpreterError::NoEntryFunction => ErrorView::NoEntryFunction,
            InterpreterError::NoReturnValue => ErrorView::NoReturnValue,
            InterpreterError::ExpectingReturnCallToVoidFunction(id)
                => ErrorView::ExpectingReturnCallToVoidFunction(id),
            InterpreterError::VoidCallToNonVoidFunction(id)
                => ErrorView::VoidCallToNonVoidFunction(id),
            InterpreterError::CallstackReferencesUnknownFunction(id)
                => ErrorView::CallstackReferencesUnknownFunction(id),
            InterpreterError::FunctionCallParameterStackEmptyPop(id)
                => ErrorView::FunctionCallParameterStackEmptyPop(id),
            InterpreterError::FunctionCallParametersInvalid(id, native)
                => ErrorView::FunctionCallParametersInvalid(id, native),
            InterpreterError::GotoNonBoolean => ErrorView::GotoNonBoolean,
            InterpreterError::ValueIsNotNumeric(v) => ErrorView::ValueIsNotNumeric(v@),
            InterpreterError::ArraySetValueWithIncompatibleType(a, b)
                => ErrorView::ArraySetValueWithIncompatibleType(a, b),
            InterpreterError::ArrayIndexWithNonNumericType(v)
                => ErrorView::ArrayIndexWithNonNumericType(v@),
            InterpreterError::ArrayIndexBeyondBounds(i) => ErrorView::ArrayIndexBeyondBounds(i),
            InterpreterError::ArrayTypeIncompatibleWithPushValue(a, b)
                => ErrorView::ArrayTypeIncompatibleWithPushValue(a, b),
            InterpreterError::ArrayOperationOnNonArrayValue(t)
                => ErrorView::ArrayOperationOnNonArrayValue(t),
            InterpreterError::OperatorDivideByZero => ErrorView::OperatorDivideByZero,
            InterpreterError::NotImplemented => ErrorView::NotImplemented,
            InterpreterError::StepLimitReached => ErrorView::StepLimitReached,
        }
    }
}

} // verus!
