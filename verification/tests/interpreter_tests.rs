use std::collections::HashMap;
use typed_vm::instructions::Instruction;
use typed_vm::interpreter::{Function, Interpreter, Program};
use typed_vm::interpreter_error::InterpreterError;
use typed_vm::value::{Value, VariableType};

fn run_function(function: Function) {
    let mut functions = HashMap::new();
    functions.insert(0, function);
    let program = Program::new(functions);
    let mut interpreter = Interpreter::new(program);

    interpreter.execute().unwrap();
}

#[test]
fn test_function_call() {
    let mut main = Function::new(&[], None);

    main.set_instructions(vec![
        Instruction::CallFunction(1, 1),
        Instruction::PushFunctionParameter(1),
        Instruction::CallNativeVoidFunction(0),
    ]);
    main.register_variables(&[VariableType::U32, VariableType::Bool]);
    let mut other = Function::new(&[], Some(VariableType::Bool));
    other.register_variables(&[VariableType::Bool]);
    other.set_instructions(vec![
        Instruction::SetI(0, Value::Bool(true)),
        Instruction::PushFunctionParameter(0),
        Instruction::CallNativeVoidFunction(0),
        Instruction::Return(0),
    ]);
    let mut functions = HashMap::new();
    functions.insert(0, main);
    functions.insert(1, other);
    let program = Program::new(functions);
    let mut interpreter = Interpreter::new(program);

    interpreter.execute().unwrap();
}

#[test]
fn test_basic_loop() {
    let instructions = vec![
        Instruction::SetI(1, Value::U64(0)),
        Instruction::AddI(0, Value::U64(32)),
        Instruction::PushFunctionParameter(0),
        Instruction::CallNativeVoidFunction(0),
        Instruction::AddI(1, Value::U64(1)),
        Instruction::LessThanI(2, 1, Value::U64(10)),
        Instruction::GotoIfTrue(1, 2),
    ];
    let mut func = Function::new(&[], None);
    func.register_variables(&[VariableType::U64, VariableType::U64, VariableType::Bool]);
    func.set_instructions(instructions);
    run_function(func);
}

#[test]
fn test_basic_variable_operations() {
    let instructions = vec![
        Instruction::SetI(0, Value::U64(32)),
        Instruction::PushFunctionParameter(0),
        Instruction::CallNativeVoidFunction(0),
    ];
    let mut func = Function::new(&[], None);
    func.register_variables(&[VariableType::U64, VariableType::U64, VariableType::Bool]);
    func.set_instructions(instructions);

    run_function(func);
}

fn run_to_error(function: Function) -> InterpreterError {
    let mut functions = HashMap::new();
    functions.insert(0, function);
    let mut interpreter = Interpreter::new(Program::new(functions));
    interpreter.execute().unwrap_err()
}

#[test]
fn echo_print_shows_the_value() {
    let mut func = Function::new(&[], None);
    func.register_variables(&[VariableType::U64]);
    func.set_instructions(vec![
        Instruction::SetI(0, Value::U64(32)),
        Instruction::PushFunctionParameter(0),
        Instruction::CallNativeVoidFunction(0),
    ]);
    let mut functions = HashMap::new();
    functions.insert(0, func);
    let mut interpreter = Interpreter::new(Program::new(functions));
    interpreter.execute().unwrap();
    let out = interpreter.output();
    assert_eq!(out.len(), 1);
    assert!(matches!(out[0], Value::U64(32)));
}

#[test]
fn counted_loop_runs_ten_times() {
    // counter in slot 0, cond in slot 2; the loop body runs exactly ten
    // times, leaving counter == 10, which is printed afterwards.
    let mut func = Function::new(&[], None);
    func.register_variables(&[VariableType::U64, VariableType::U64, VariableType::Bool]);
    func.set_instructions(vec![
        Instruction::AddI(0, Value::U64(1)),
        Instruction::LessThanI(2, 0, Value::U64(10)),
        Instruction::GotoIfTrue(0, 2),
        Instruction::PushFunctionParameter(0),
        Instruction::CallNativeVoidFunction(0),
    ]);
    let mut functions = HashMap::new();
    functions.insert(0, func);
    let mut interpreter = Interpreter::new(Program::new(functions));
    interpreter.execute().unwrap();
    let out = interpreter.output();
    assert_eq!(out.len(), 1);
    assert!(matches!(out[0], Value::U64(10)));
}

#[test]
fn call_with_return_lands_in_the_destination_slot() {
    let mut main = Function::new(&[], None);
    main.register_variables(&[VariableType::Bool]);
    main.set_instructions(vec![
        Instruction::CallFunction(1, 0),
        Instruction::PushFunctionParameter(0),
        Instruction::CallNativeVoidFunction(0),
    ]);
    let mut callee = Function::new(&[], Some(VariableType::Bool));
    callee.register_variables(&[VariableType::Bool]);
    callee.set_instructions(vec![
        Instruction::SetI(0, Value::Bool(true)),
        Instruction::Return(0),
    ]);
    let mut functions = HashMap::new();
    functions.insert(0, main);
    functions.insert(1, callee);
    let mut interpreter = Interpreter::new(Program::new(functions));
    interpreter.execute().unwrap();
    let out = interpreter.output();
    assert_eq!(out.len(), 1);
    assert!(matches!(out[0], Value::Bool(true)));
}

#[test]
fn prime_sieve_by_trial_to_one_thousand() {
    // Function 1: trial division of `cand` over the primes found so far.
    // Locals: 0 primes array (param), 1 cand (param), 2 i, 3 len, 4 p,
    // 5 r, 6 cond, 7 res.
    let mut trial = Function::new(
        &[
            VariableType::Array(Box::new(VariableType::U64)),
            VariableType::U64,
        ],
        Some(VariableType::Bool),
    );
    trial.register_variables(&[
        VariableType::U64,
        VariableType::U64,
        VariableType::U64,
        VariableType::U64,
        VariableType::Bool,
        VariableType::Bool,
    ]);
    trial.set_instructions(vec![
        Instruction::CallNativeMethod(0, 3, 1),      // 0: len = primes.length()
        Instruction::SetI(2, Value::U64(0)),         // 1: i = 0
        Instruction::LessThan(6, 2, 3),              // 2: cond = i < len
        Instruction::GotoIfTrue(5, 6),               // 3: more primes to try
        Instruction::Goto(12),                       // 4: none divided: prime
        Instruction::GetArrayIndex(0, 4, 2),         // 5: p = primes[i]
        Instruction::SetVar(5, 1),                   // 6: r = cand
        Instruction::Rem(5, 4),                      // 7: r = r % p
        Instruction::EqualsI(6, 5, Value::U64(0)),   // 8: cond = (r == 0)
        Instruction::GotoIfTrue(13, 6),              // 9: divisible: composite
        Instruction::AddI(2, Value::U64(1)),         // 10: i += 1
        Instruction::Goto(2),                        // 11
        Instruction::SetI(7, Value::Bool(true)),     // 12: res = true
        Instruction::Return(7),                      // 13
    ]);

    // Function 0: collect primes until one thousand are found, then print
    // primes[0], primes[1], primes[24], primes[999] and the whole array.
    // Locals: 0 primes, 1 check, 2 count, 3 isp, 4 cond, 5 tmp, 6 val.
    let mut main = Function::new(&[], None);
    main.register_variables(&[
        VariableType::Array(Box::new(VariableType::U64)),
        VariableType::U64,
        VariableType::U64,
        VariableType::Bool,
        VariableType::Bool,
        VariableType::U64,
        VariableType::U64,
    ]);
    main.set_instructions(vec![
        Instruction::SetI(5, Value::U64(2)),           // 0
        Instruction::PushFunctionParameter(5),         // 1
        Instruction::CallNativeVoidMethod(0, 0),       // 2: primes.push(2)
        Instruction::SetI(1, Value::U64(3)),           // 3: check = 3
        Instruction::SetI(2, Value::U64(1)),           // 4: count = 1
        Instruction::EqualsI(4, 2, Value::U64(1000)),  // 5: cond = count == 1000
        Instruction::GotoIfTrue(17, 4),                // 6: done
        Instruction::PushFunctionParameter(0),         // 7
        Instruction::PushFunctionParameter(1),         // 8
        Instruction::CallFunction(1, 3),               // 9: isp = trial(primes, check)
        Instruction::GotoIfTrue(12, 3),                // 10
        Instruction::Goto(15),                         // 11: composite
        Instruction::PushFunctionParameter(1),         // 12
        Instruction::CallNativeVoidMethod(0, 0),       // 13: primes.push(check)
        Instruction::AddI(2, Value::U64(1)),           // 14: count += 1
        Instruction::AddI(1, Value::U64(2)),           // 15: check += 2
        Instruction::Goto(5),                          // 16
        Instruction::SetI(5, Value::U64(0)),           // 17
        Instruction::GetArrayIndex(0, 6, 5),           // 18
        Instruction::PushFunctionParameter(6),         // 19
        Instruction::CallNativeVoidFunction(0),        // 20: print primes[0]
        Instruction::SetI(5, Value::U64(1)),           // 21
        Instruction::GetArrayIndex(0, 6, 5),           // 22
        Instruction::PushFunctionParameter(6),         // 23
        Instruction::CallNativeVoidFunction(0),        // 24: print primes[1]
        Instruction::SetI(5, Value::U64(24)),          // 25
        Instruction::GetArrayIndex(0, 6, 5),           // 26
        Instruction::PushFunctionParameter(6),         // 27
        Instruction::CallNativeVoidFunction(0),        // 28: print primes[24]
        Instruction::SetI(5, Value::U64(999)),         // 29
        Instruction::GetArrayIndex(0, 6, 5),           // 30
        Instruction::PushFunctionParameter(6),         // 31
        Instruction::CallNativeVoidFunction(0),        // 32: print primes[999]
        Instruction::PushFunctionParameter(0),         // 33
        Instruction::CallNativeVoidFunction(0),        // 34: print the array
    ]);

    let mut functions = HashMap::new();
    functions.insert(0, main);
    functions.insert(1, trial);
    let mut interpreter = Interpreter::new(Program::new(functions));
    interpreter.execute().unwrap();
    let out = interpreter.output();
    assert_eq!(out.len(), 5);
    assert!(matches!(out[0], Value::U64(2)));
    assert!(matches!(out[1], Value::U64(3)));
    assert!(matches!(out[2], Value::U64(97)));
    assert!(matches!(out[3], Value::U64(7919)));
    match &out[4] {
        Value::Array(primes) => {
            assert_eq!(primes.len(), 1000);
            assert!(matches!(primes.get_index(0), Ok(Value::U64(2))));
            assert!(matches!(primes.get_index(999), Ok(Value::U64(7919))));
        }
        other => panic!("expected an array, got {:?}", other),
    }
}

#[test]
fn type_mismatch_is_reported_before_later_instructions() {
    let mut func = Function::new(&[], None);
    func.register_variables(&[VariableType::Bool, VariableType::U64]);
    func.set_instructions(vec![
        Instruction::SetI(0, Value::U64(1)),
        Instruction::SetI(1, Value::U64(5)),
    ]);
    let err = run_to_error(func);
    assert!(matches!(
        err,
        InterpreterError::AttemptAssignedDifferentTypes(VariableType::Bool, VariableType::U64)
    ));
}

#[test]
fn rem_by_zero_is_a_divide_by_zero_error() {
    let mut func = Function::new(&[], None);
    func.register_variables(&[VariableType::U32]);
    func.set_instructions(vec![Instruction::RemI(0, Value::U32(0))]);
    let err = run_to_error(func);
    assert!(matches!(err, InterpreterError::OperatorDivideByZero));
}

#[test]
fn non_void_call_to_void_function_is_rejected() {
    let mut main = Function::new(&[], None);
    main.register_variables(&[VariableType::U64]);
    main.set_instructions(vec![Instruction::CallFunction(1, 0)]);
    let void_callee = Function::new(&[], None);
    let mut functions = HashMap::new();
    functions.insert(0, main);
    functions.insert(1, void_callee);
    let mut interpreter = Interpreter::new(Program::new(functions));
    let err = interpreter.execute().unwrap_err();
    assert!(matches!(
        err,
        InterpreterError::ExpectingReturnCallToVoidFunction(1)
    ));
}

#[test]
fn void_call_to_returning_function_is_rejected() {
    let mut main = Function::new(&[], None);
    main.set_instructions(vec![Instruction::CallVoidFunction(1)]);
    let mut callee = Function::new(&[], Some(VariableType::U64));
    callee.register_variables(&[VariableType::U64]);
    callee.set_instructions(vec![Instruction::Return(0)]);
    let mut functions = HashMap::new();
    functions.insert(0, main);
    functions.insert(1, callee);
    let mut interpreter = Interpreter::new(Program::new(functions));
    let err = interpreter.execute().unwrap_err();
    assert!(matches!(err, InterpreterError::VoidCallToNonVoidFunction(1)));
}

#[test]
fn call_without_pushes_underflows_the_parameter_queue() {
    let mut main = Function::new(&[], None);
    main.register_variables(&[VariableType::U64]);
    main.set_instructions(vec![Instruction::CallFunction(1, 0)]);
    let mut callee = Function::new(&[VariableType::U64], Some(VariableType::U64));
    callee.set_instructions(vec![Instruction::Return(0)]);
    let mut functions = HashMap::new();
    functions.insert(0, main);
    functions.insert(1, callee);
    let mut interpreter = Interpreter::new(Program::new(functions));
    let err = interpreter.execute().unwrap_err();
    assert!(matches!(
        err,
        InterpreterError::FunctionCallParameterStackEmptyPop(1)
    ));
}

#[test]
fn call_with_wrongly_typed_push_is_rejected() {
    let mut main = Function::new(&[], None);
    main.register_variables(&[VariableType::Bool, VariableType::U64]);
    main.set_instructions(vec![
        Instruction::PushFunctionParameter(0),
        Instruction::CallFunction(1, 1),
    ]);
    let mut callee = Function::new(&[VariableType::U64], Some(VariableType::U64));
    callee.set_instructions(vec![Instruction::Return(0)]);
    let mut functions = HashMap::new();
    functions.insert(0, main);
    functions.insert(1, callee);
    let mut interpreter = Interpreter::new(Program::new(functions));
    let err = interpreter.execute().unwrap_err();
    assert!(matches!(
        err,
        InterpreterError::FunctionCallParametersInvalid(1, false)
    ));
}

#[test]
fn pushes_bind_parameters_in_push_order() {
    // Two pushes: slot 0 (value 7) then slot 1 (value 9). The callee's
    // parameter 0 must receive the first push and parameter 1 the second;
    // the callee returns its parameter 0.
    let mut main = Function::new(&[], None);
    main.register_variables(&[VariableType::U64, VariableType::U64, VariableType::U64]);
    main.set_instructions(vec![
        Instruction::SetI(0, Value::U64(7)),
        Instruction::SetI(1, Value::U64(9)),
        Instruction::PushFunctionParameter(0),
        Instruction::PushFunctionParameter(1),
        Instruction::CallFunction(1, 2),
        Instruction::PushFunctionParameter(2),
        Instruction::CallNativeVoidFunction(0),
    ]);
    let mut callee = Function::new(
        &[VariableType::U64, VariableType::U64],
        Some(VariableType::U64),
    );
    callee.set_instructions(vec![Instruction::Return(0)]);
    let mut functions = HashMap::new();
    functions.insert(0, main);
    functions.insert(1, callee);
    let mut interpreter = Interpreter::new(Program::new(functions));
    interpreter.execute().unwrap();
    let out = interpreter.output();
    assert_eq!(out.len(), 1);
    assert!(matches!(out[0], Value::U64(7)));
}

#[test]
fn missing_return_is_reported_at_the_next_step() {
    let mut main = Function::new(&[], None);
    main.register_variables(&[VariableType::U64]);
    main.set_instructions(vec![
        Instruction::CallFunction(1, 0),
        Instruction::AddI(0, Value::U64(1)),
    ]);
    // The callee is declared to return but falls off its end.
    let mut callee = Function::new(&[], Some(VariableType::U64));
    callee.register_variables(&[VariableType::U64]);
    callee.set_instructions(vec![Instruction::SetI(0, Value::U64(3))]);
    let mut functions = HashMap::new();
    functions.insert(0, main);
    functions.insert(1, callee);
    let mut interpreter = Interpreter::new(Program::new(functions));
    let err = interpreter.execute().unwrap_err();
    assert!(matches!(err, InterpreterError::NoReturnValue));
}

#[test]
fn goto_on_non_boolean_slot_is_rejected() {
    let mut func = Function::new(&[], None);
    func.register_variables(&[VariableType::U64]);
    func.set_instructions(vec![Instruction::GotoIfTrue(0, 0)]);
    let err = run_to_error(func);
    assert!(matches!(err, InterpreterError::GotoNonBoolean));
}

#[test]
fn missing_variable_is_reported() {
    let mut func = Function::new(&[], None);
    func.register_variables(&[VariableType::U64]);
    func.set_instructions(vec![Instruction::SetI(5, Value::U64(1))]);
    let err = run_to_error(func);
    assert!(matches!(err, InterpreterError::VariableDoesNotExist(5)));
}

#[test]
fn missing_function_is_reported() {
    let mut func = Function::new(&[], None);
    func.register_variables(&[VariableType::U64]);
    func.set_instructions(vec![Instruction::CallFunction(7, 0)]);
    let err = run_to_error(func);
    assert!(matches!(err, InterpreterError::FunctionDoesNotExist(7)));
}

#[test]
fn reserved_opcodes_fail_deterministically() {
    let mut func = Function::new(&[], None);
    func.register_variables(&[VariableType::U64, VariableType::U64]);
    func.set_instructions(vec![Instruction::Mul(0, 1)]);
    let err = run_to_error(func);
    assert!(matches!(err, InterpreterError::NotImplemented));
}

#[test]
fn array_index_with_non_numeric_slot_is_rejected() {
    let mut func = Function::new(&[], None);
    func.register_variables(&[
        VariableType::Array(Box::new(VariableType::U64)),
        VariableType::U64,
        VariableType::Bool,
    ]);
    func.set_instructions(vec![Instruction::GetArrayIndex(0, 1, 2)]);
    let err = run_to_error(func);
    assert!(matches!(err, InterpreterError::ValueIsNotNumeric(_)));
}

#[test]
fn array_index_beyond_bounds_is_rejected() {
    let mut func = Function::new(&[], None);
    func.register_variables(&[
        VariableType::Array(Box::new(VariableType::U64)),
        VariableType::U64,
        VariableType::U64,
    ]);
    func.set_instructions(vec![Instruction::GetArrayIndex(0, 1, 2)]);
    let err = run_to_error(func);
    assert!(matches!(err, InterpreterError::ArrayIndexBeyondBounds(0)));
}

#[test]
fn native_push_of_wrong_type_is_rejected() {
    let mut func = Function::new(&[], None);
    func.register_variables(&[
        VariableType::Array(Box::new(VariableType::U64)),
        VariableType::Bool,
    ]);
    func.set_instructions(vec![
        Instruction::PushFunctionParameter(1),
        Instruction::CallNativeVoidMethod(0, 0),
    ]);
    let err = run_to_error(func);
    assert!(matches!(
        err,
        InterpreterError::ArrayTypeIncompatibleWithPushValue(_, VariableType::Bool)
    ));
}

#[test]
fn native_method_on_non_array_is_rejected() {
    let mut func = Function::new(&[], None);
    func.register_variables(&[VariableType::U64, VariableType::U64]);
    func.set_instructions(vec![Instruction::CallNativeMethod(0, 1, 1)]);
    let err = run_to_error(func);
    assert!(matches!(
        err,
        InterpreterError::ArrayOperationOnNonArrayValue(VariableType::U64)
    ));
}

#[test]
fn array_set_of_wrong_type_is_rejected() {
    // Push one U64 element, then try to overwrite it with a Bool.
    let mut func = Function::new(&[], None);
    func.register_variables(&[
        VariableType::Array(Box::new(VariableType::U64)),
        VariableType::U64,
        VariableType::U64,
    ]);
    func.set_instructions(vec![
        Instruction::SetI(1, Value::U64(4)),
        Instruction::PushFunctionParameter(1),
        Instruction::CallNativeVoidMethod(0, 0),
        Instruction::SetI(2, Value::U64(0)),
        Instruction::SetArrayIndexI(0, 2, Value::Bool(true)),
    ]);
    let err = run_to_error(func);
    assert!(matches!(
        err,
        InterpreterError::ArraySetValueWithIncompatibleType(_, VariableType::Bool)
    ));
}

#[test]
fn array_length_lands_as_a_u64() {
    // Push two elements, take the length, print it.
    let mut func = Function::new(&[], None);
    func.register_variables(&[
        VariableType::Array(Box::new(VariableType::U64)),
        VariableType::U64,
        VariableType::U64,
    ]);
    func.set_instructions(vec![
        Instruction::SetI(1, Value::U64(4)),
        Instruction::PushFunctionParameter(1),
        Instruction::CallNativeVoidMethod(0, 0),
        Instruction::PushFunctionParameter(1),
        Instruction::CallNativeVoidMethod(0, 0),
        Instruction::CallNativeMethod(0, 2, 1),
        Instruction::PushFunctionParameter(2),
        Instruction::CallNativeVoidFunction(0),
    ]);
    let mut functions = HashMap::new();
    functions.insert(0, func);
    let mut interpreter = Interpreter::new(Program::new(functions));
    interpreter.execute().unwrap();
    let out = interpreter.output();
    assert_eq!(out.len(), 1);
    assert!(matches!(out[0], Value::U64(2)));
}

#[test]
fn array_set_index_through_the_engine() {
    // primes[0] := 4 via SetArrayIndexI after one push, then read it back.
    let mut func = Function::new(&[], None);
    func.register_variables(&[
        VariableType::Array(Box::new(VariableType::U64)),
        VariableType::U64,
        VariableType::U64,
    ]);
    func.set_instructions(vec![
        Instruction::SetI(1, Value::U64(9)),
        Instruction::PushFunctionParameter(1),
        Instruction::CallNativeVoidMethod(0, 0),
        Instruction::SetI(2, Value::U64(0)),
        Instruction::SetArrayIndexI(0, 2, Value::U64(4)),
        Instruction::GetArrayIndex(0, 1, 2),
        Instruction::PushFunctionParameter(1),
        Instruction::CallNativeVoidFunction(0),
    ]);
    let mut functions = HashMap::new();
    functions.insert(0, func);
    let mut interpreter = Interpreter::new(Program::new(functions));
    interpreter.execute().unwrap();
    let out = interpreter.output();
    assert_eq!(out.len(), 1);
    assert!(matches!(out[0], Value::U64(4)));
}

#[test]
fn untaken_goto_falls_through() {
    // The condition slot stays false, so the jump back to 0 is not taken
    // and the counter is printed exactly once, unchanged.
    let mut func = Function::new(&[], None);
    func.register_variables(&[VariableType::U64, VariableType::Bool]);
    func.set_instructions(vec![
        Instruction::AddI(0, Value::U64(5)),
        Instruction::GotoIfTrue(0, 1),
        Instruction::PushFunctionParameter(0),
        Instruction::CallNativeVoidFunction(0),
    ]);
    let mut functions = HashMap::new();
    functions.insert(0, func);
    let mut interpreter = Interpreter::new(Program::new(functions));
    interpreter.execute().unwrap();
    let out = interpreter.output();
    assert_eq!(out.len(), 1);
    assert!(matches!(out[0], Value::U64(5)));
}
