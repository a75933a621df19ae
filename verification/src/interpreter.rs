use std::collections::HashMap;
use std::io::Write;

use crate::instructions::Instruction;
use crate::interpreter_error::{ErrorView, InterpreterError};
use crate::operations::{
    op_add, op_equals, op_less_than, op_not_equals, op_rem, op_sub, spec_op_add, spec_op_equals,
    spec_op_less_than, spec_op_not_equals, spec_op_rem, spec_op_sub,
};
use crate::value::{
    clone_variable_type, spec_is_numeric, spec_to_index, spec_type_of, types_equal, ArrayValue,
    FunctionIdType, Value, ValueView, VariableIdType, VariableType,
};
use vstd::prelude::*;

verus! {

broadcast use vstd::std_specs::hash::group_hash_axioms;

/// A function: a typed signature, a declared local-variable schema (the
/// parameters are the first locals), and an instruction list.
#[derive(Debug)]
pub struct Function {
    instructions: Vec<Instruction>,
    variables: Vec<VariableType>,
    parameters: Vec<VariableType>,
    return_type: Option<VariableType>,
}

impl Function {
    /// The instruction list.
    pub closed spec fn spec_instructions(&self) -> Seq<Instruction> {
        self.instructions@
    }

    /// The declared local types, parameters first.
    pub closed spec fn spec_locals(&self) -> Seq<VariableType> {
        self.variables@
    }

    /// The declared parameter types.
    pub closed spec fn spec_parameters(&self) -> Seq<VariableType> {
        self.parameters@
    }

    /// The declared return type; `None` marks a void function.
    pub closed spec fn spec_return_type(&self) -> Option<VariableType> {
        self.return_type
    }

    /// A function with the given signature and no instructions; the
    /// parameters become the first locals.
    pub fn new(parameters: &[VariableType], return_type: Option<VariableType>) -> (f: Self)
        requires
            parameters@.len() < 0x1_0000,
        ensures
            f.spec_instructions() == Seq::<Instruction>::empty(),
            f.spec_locals() == parameters@,
            f.spec_parameters() == parameters@,
            f.spec_return_type() == return_type,
    {
        let mut func = Function {
            instructions: Vec::new(),
            variables: Vec::new(),
            parameters: slice_to_type_vec(parameters),
            return_type,
        };
        let mut i: usize = 0;
        while i < parameters.len()
            invariant
                i <= parameters@.len(),
                parameters@.len() < 0x1_0000,
                func.variables@ =~= parameters@.take(i as int),
                func.instructions@ == Seq::<Instruction>::empty(),
                func.parameters@ == parameters@,
                func.return_type == return_type,
            decreases parameters@.len() - i,
        {
            let var_type = clone_variable_type(&parameters[i]);
            func.register_variable(var_type);
            i = i + 1;
        }
        proof {
            assert(func.variables@ =~= parameters@);
        }
        func
    }

    /// Replace the instruction list.
    pub fn set_instructions(&mut self, instructions: Vec<Instruction>)
        ensures
            final(self).spec_instructions() == instructions@,
            final(self).spec_locals() == old(self).spec_locals(),
            final(self).spec_parameters() == old(self).spec_parameters(),
            final(self).spec_return_type() == old(self).spec_return_type(),
    {
        self.instructions = instructions;
    }

    /// Declare one more local of the given type; ids are assigned in
    /// registration order starting at 0.
    pub fn register_variable(&mut self, var_type: VariableType) -> (id: VariableIdType)
        requires
            old(self).spec_locals().len() < 0x1_0000,
        ensures
            id as int == old(self).spec_locals().len(),
            final(self).spec_locals() == old(self).spec_locals().push(var_type),
            final(self).spec_instructions() == old(self).spec_instructions(),
            final(self).spec_parameters() == old(self).spec_parameters(),
            final(self).spec_return_type() == old(self).spec_return_type(),
    {
        let id = self.variables.len() as u16;
        self.variables.push(var_type);
        id
    }

    /// Declare one more local per given type, in order.
    pub fn register_variables(&mut self, var_types: &[VariableType])
        requires
            old(self).spec_locals().len() + var_types@.len() < 0x1_0000,
        ensures
            final(self).spec_locals() == old(self).spec_locals() + var_types@,
            final(self).spec_instructions() == old(self).spec_instructions(),
            final(self).spec_parameters() == old(self).spec_parameters(),
            final(self).spec_return_type() == old(self).spec_return_type(),
    {
        let mut i: usize = 0;
        while i < var_types.len()
            invariant
                i <= var_types@.len(),
                old(self).spec_locals().len() + var_types@.len() < 0x1_0000,
                self.spec_locals() =~= old(self).spec_locals() + var_types@.take(i as int),
                self.spec_instructions() == old(self).spec_instructions(),
                self.spec_parameters() == old(self).spec_parameters(),
                self.spec_return_type() == old(self).spec_return_type(),
            decreases var_types@.len() - i,
        {
            let var_type = clone_variable_type(&var_types[i]);
            self.register_variable(var_type);
            i = i + 1;
        }
        proof {
            assert(old(self).spec_locals() + var_types@.take(var_types@.len() as int)
                =~= old(self).spec_locals() + var_types@);
        }
    }
}

/// Copy of a slice of type tags.
fn slice_to_type_vec(types: &[VariableType]) -> (r: Vec<VariableType>)
    ensures
        r@ == types@,
{
    let mut out: Vec<VariableType> = Vec::new();
    let mut i: usize = 0;
    while i < types.len()
        invariant
            i <= types@.len(),
            out@ =~= types@.take(i as int),
        decreases types@.len() - i,
    {
        out.push(clone_variable_type(&types[i]));
        i = i + 1;
    }
    proof {
        assert(out@ =~= types@);
    }
    out
}

} // verus!

verus! {

/// The canonical zero of a type: numeric zero, `false`, the empty string,
/// or the empty array of the right element type.
pub open spec fn spec_zero(t: VariableType) -> ValueView {
    match t {
        VariableType::U8 => ValueView::U8(0),
        VariableType::U16 => ValueView::U16(0),
        VariableType::U32 => ValueView::U32(0),
        VariableType::U64 => ValueView::U64(0),
        VariableType::Bool => ValueView::Bool(false),
        VariableType::String => ValueView::Str(Seq::empty()),
        VariableType::Array(sub) => ValueView::Array(*sub, Seq::empty()),
    }
}

/// The zero of a type has that type.
pub proof fn lemma_zero_type(t: VariableType)
    ensures
        spec_type_of(spec_zero(t)) == t,
{
}

/// The zero slots of a local schema.
pub open spec fn spec_zero_slots(ts: Seq<VariableType>) -> Seq<ValueView> {
    Seq::new(ts.len(), |i: int| spec_zero(ts[i]))
}

/// The zero value of a type.
fn zero_value(t: &VariableType) -> (v: Value)
    ensures
        v@ == spec_zero(*t),
{
    match t {
        VariableType::U8 => Value::U8(0),
        VariableType::U16 => Value::U16(0),
        VariableType::U32 => Value::U32(0),
        VariableType::U64 => Value::U64(0),
        VariableType::Bool => Value::Bool(false),
        VariableType::String => Value::String(String::new()),
        VariableType::Array(arr_type) => Value::Array(
            ArrayValue::new(clone_variable_type(&**arr_type)),
        ),
    }
}

/// Mathematical image of one execution frame.
pub ghost struct FrameView {
    /// One value per declared local, parameters first.
    pub slots: Seq<ValueView>,
    /// Values staged for the next call, oldest first.
    pub queue: Seq<ValueView>,
    /// The function this frame executes.
    pub function_id: FunctionIdType,
    /// The slot awaiting the next return value, if a call is outstanding.
    pub pending: Option<VariableIdType>,
    /// Index of the next instruction to dispatch.
    pub ic: int,
}

/// A per-call execution frame: one slot per declared local, a parameter
/// queue, and the instruction counter.
#[derive(Debug)]
struct ExecutionContext {
    variables: Vec<Value>,
    function_parameter_stack: Vec<Value>,
    function_id: FunctionIdType,
    expecting_return_value: Option<VariableIdType>,
    instruction_counter: usize,
}

impl View for ExecutionContext {
    type V = FrameView;

    closed spec fn view(&self) -> FrameView {
        FrameView {
            slots: self.variables@.map_values(|v: Value| v@),
            queue: self.function_parameter_stack@.map_values(|v: Value| v@),
            function_id: self.function_id,
            pending: self.expecting_return_value,
            ic: self.instruction_counter as int,
        }
    }
}

impl ExecutionContext {
    /// A frame for `func` with every slot zeroed per its declared type.
    fn new(func: &Function, function_id: FunctionIdType) -> (ctx: Self)
        ensures
            ctx@ == (FrameView {
                slots: spec_zero_slots(func.spec_locals()),
                queue: Seq::<ValueView>::empty(),
                function_id,
                pending: None::<VariableIdType>,
                ic: 0,
            }),
    {
        let mut variables: Vec<Value> = Vec::new();
        let mut i: usize = 0;
        while i < func.variables.len()
            invariant
                i <= func.spec_locals().len(),
                variables@.len() == i,
                forall|j: int|
                    0 <= j < i ==> variables@[j]@ == spec_zero(func.spec_locals()[j]),
            decreases func.spec_locals().len() - i,
        {
            let v = zero_value(&func.variables[i]);
            variables.push(v);
            i = i + 1;
        }
        let ctx = ExecutionContext {
            variables,
            function_parameter_stack: Vec::new(),
            instruction_counter: 0,
            function_id,
            expecting_return_value: None,
        };
        proof {
            assert(ctx@.slots =~= spec_zero_slots(func.spec_locals()));
            assert(ctx@.queue =~= Seq::<ValueView>::empty());
        }
        ctx
    }

    /// The value of slot `var_id`, if it exists.
    fn get_variable(&self, var_id: VariableIdType) -> (r: Result<&Value, InterpreterError>)
        ensures
            (var_id as int) < self@.slots.len() ==> (r matches Ok(v) && v@ == self@.slots[var_id as int]),
            (var_id as int) >= self@.slots.len() ==> r == Err::<&Value, InterpreterError>(
                InterpreterError::VariableDoesNotExist(var_id),
            ),
    {
        if (var_id as usize) < self.variables.len() {
            Ok(&self.variables[var_id as usize])
        } else {
            Err(InterpreterError::VariableDoesNotExist(var_id))
        }
    }

    /// The values of two slots, checked left to right.
    fn get_variable_pair(&self, var1_id: VariableIdType, var2_id: VariableIdType) -> (r: Result<
        (&Value, &Value),
        InterpreterError,
    >)
        ensures
            (var1_id as int) < self@.slots.len() && (var2_id as int) < self@.slots.len() ==> (
            r matches Ok(p) && p.0@ == self@.slots[var1_id as int] && p.1@ == self@.slots[var2_id as int]),
            (var1_id as int) >= self@.slots.len() ==> r == Err::<(&Value, &Value), InterpreterError>(
                InterpreterError::VariableDoesNotExist(var1_id),
            ),
            (var1_id as int) < self@.slots.len() && (var2_id as int) >= self@.slots.len() ==> r
                == Err::<(&Value, &Value), InterpreterError>(
                InterpreterError::VariableDoesNotExist(var2_id),
            ),
    {
        let var1 = match self.get_variable(var1_id) {
            Ok(v) => v,
            Err(e) => { return Err(e) },
        };
        let var2 = match self.get_variable(var2_id) {
            Ok(v) => v,
            Err(e) => { return Err(e) },
        };
        Ok((var1, var2))
    }

    /// Store `value` into slot `var_id`; the slot must exist and the value's
    /// type must match the slot's current type.
    fn set_variable(&mut self, var_id: VariableIdType, value: Value) -> (r: Result<
        (),
        InterpreterError,
    >)
        ensures
            (var_id as int) >= old(self)@.slots.len() ==> r == Err::<(), InterpreterError>(
                InterpreterError::VariableDoesNotExist(var_id),
            ) && final(self)@ == old(self)@,
            (var_id as int) < old(self)@.slots.len() && spec_type_of(value@) != spec_type_of(
                old(self)@.slots[var_id as int],
            ) ==> r == Err::<(), InterpreterError>(
                InterpreterError::AttemptAssignedDifferentTypes(
                    spec_type_of(old(self)@.slots[var_id as int]),
                    spec_type_of(value@),
                ),
            ) && final(self)@ == old(self)@,
            (var_id as int) < old(self)@.slots.len() && spec_type_of(value@) == spec_type_of(
                old(self)@.slots[var_id as int],
            ) ==> r == Ok::<(), InterpreterError>(()) && final(self)@ == (FrameView {
                slots: old(self)@.slots.update(var_id as int, value@),
                ..old(self)@
            }),
    {
        let idx = var_id as usize;
        if idx >= self.variables.len() {
            return Err(InterpreterError::VariableDoesNotExist(var_id));
        }
        let current_type = self.variables[idx].get_type();
        let value_type = value.get_type();
        if !types_equal(&current_type, &value_type) {
            return Err(InterpreterError::AttemptAssignedDifferentTypes(current_type, value_type));
        }
        let ghost vv = value@;
        let slot = &mut self.variables[idx];
        *slot = value;
        proof {
            assert(self@.slots =~= old(self)@.slots.update(var_id as int, vv));
        }
        Ok(())
    }
}

/// A program: an id-keyed map of functions; id 0 is the entry point.
#[derive(Debug)]
pub struct Program {
    functions: HashMap<FunctionIdType, Function>,
}

impl Program {
    /// The function map.
    pub closed spec fn spec_functions(&self) -> Map<FunctionIdType, Function> {
        self.functions@
    }

    /// A program over the given function map.
    pub fn new(functions: HashMap<FunctionIdType, Function>) -> (p: Self)
        ensures
            p.spec_functions() == functions@,
    {
        Self { functions }
    }

    /// The function registered under `function_id`, if any.
    fn get_function(&self, function_id: FunctionIdType) -> (r: Result<&Function, InterpreterError>)
        ensures
            self.spec_functions().contains_key(function_id) ==> (r matches Ok(f) && *f
                == self.spec_functions()[function_id]),
            !self.spec_functions().contains_key(function_id) ==> r == Err::<
                &Function,
                InterpreterError,
            >(InterpreterError::FunctionDoesNotExist(function_id)),
    {
        if let Some(v) = self.functions.get(&function_id) {
            return Ok(v);
        }
        Err(InterpreterError::FunctionDoesNotExist(function_id))
    }
}

/// Mathematical image of the interpreter's mutable state.
pub ghost struct MachineView {
    /// The call stack; the last frame is active.
    pub frames: Seq<FrameView>,
    /// The return-value register a returning callee fills.
    pub ret: Option<ValueView>,
    /// Every value printed so far, in dispatch order.
    pub output: Seq<ValueView>,
}

/// An interpreter bound to one program, holding the call stack, the
/// return-value register, and the log of printed values.
#[derive(Debug)]
pub struct Interpreter {
    program: Program,
    callstack: Vec<ExecutionContext>,
    return_value_storage: Option<Value>,
    output: Vec<Value>,
}

impl Interpreter {
    /// The program's function map.
    pub closed spec fn funcs(&self) -> Map<FunctionIdType, Function> {
        self.program.spec_functions()
    }

    /// The machine state: frames, return register, print log.
    pub closed spec fn machine(&self) -> MachineView {
        MachineView {
            frames: self.callstack@.map_values(|c: ExecutionContext| c@),
            ret: match self.return_value_storage {
                Some(v) => Some(v@),
                None => None,
            },
            output: self.output@.map_values(|v: Value| v@),
        }
    }

    /// An interpreter with one frame staged for entry function 0.
    pub fn new(program: Program) -> (interp: Self)
        requires
            program.spec_functions().contains_key(0),
        ensures
            interp.funcs() == program.spec_functions(),
            machine_wf(interp.funcs(), interp.machine()),
            interp.machine() == (MachineView {
                frames: seq![
                    FrameView {
                        slots: spec_zero_slots(program.spec_functions()[0].spec_locals()),
                        queue: Seq::<ValueView>::empty(),
                        function_id: 0,
                        pending: None::<VariableIdType>,
                        ic: 0,
                    },
                ],
                ret: None::<ValueView>,
                output: Seq::<ValueView>::empty(),
            }),
    {
        let ctx = match program.get_function(0) {
            Ok(f) => ExecutionContext::new(f, 0),
            Err(_) => vstd::pervasive::unreached(),
        };
        let mut callstack: Vec<ExecutionContext> = Vec::new();
        callstack.push(ctx);
        let interp = Interpreter { program, callstack, return_value_storage: None, output: Vec::new() };
        proof {
            assert(interp.machine().frames =~= seq![
                FrameView {
                    slots: spec_zero_slots(interp.funcs()[0].spec_locals()),
                    queue: Seq::<ValueView>::empty(),
                    function_id: 0u16,
                    pending: None::<VariableIdType>,
                    ic: 0,
                },
            ]);
            assert(interp.machine().output =~= Seq::<ValueView>::empty());
            lemma_zero_frame_wf(interp.funcs(), 0u16, interp.machine().frames[0]);
        }
        interp
    }
}

} // verus!

verus! {

/// The most dispatch steps one `execute` call will take before giving up
/// with `StepLimitReached`.
pub const STEP_LIMIT: u64 = 0xFFFF_FFFF_FFFF_FFFF;

/// Reading slot `id` of a frame.
pub open spec fn spec_get_slot(f: FrameView, id: VariableIdType) -> Result<ValueView, ErrorView> {
    if (id as int) < f.slots.len() {
        Ok(f.slots[id as int])
    } else {
        Err(ErrorView::VariableDoesNotExist(id))
    }
}

/// Writing slot `id` of a frame: the slot must exist and keep its type.
pub open spec fn spec_set_slot(f: FrameView, id: VariableIdType, v: ValueView) -> Result<
    FrameView,
    ErrorView,
> {
    if (id as int) >= f.slots.len() {
        Err(ErrorView::VariableDoesNotExist(id))
    } else if spec_type_of(v) != spec_type_of(f.slots[id as int]) {
        Err(ErrorView::AttemptAssignedDifferentTypes(
            spec_type_of(f.slots[id as int]),
            spec_type_of(v),
        ))
    } else {
        Ok(FrameView { slots: f.slots.update(id as int, v), ..f })
    }
}

/// A frame after one ordinary instruction: the counter moves to the next
/// instruction.
pub open spec fn spec_advance(f: FrameView) -> FrameView {
    FrameView { ic: f.ic + 1, ..f }
}

/// Writing a slot and moving to the next instruction.
pub open spec fn spec_advance_set(f: FrameView, id: VariableIdType, v: ValueView) -> Result<
    FrameView,
    ErrorView,
> {
    match spec_set_slot(f, id, v) {
        Ok(f2) => Ok(spec_advance(f2)),
        Err(e) => Err(e),
    }
}

/// Whether an instruction works on the active frame alone: it neither
/// touches the call stack, the return register, nor the print log, and it
/// is not a reserved opcode.
pub open spec fn spec_is_frame_instr(instr: Instruction) -> bool {
    match instr {
        Instruction::SetVar(..) => true,
        Instruction::SetI(..) => true,
        Instruction::SetArrayIndex(..) => true,
        Instruction::SetArrayIndexI(..) => true,
        Instruction::GetArrayIndex(..) => true,
        Instruction::Add(..) => true,
        Instruction::Sub(..) => true,
        Instruction::Rem(..) => true,
        Instruction::AddI(..) => true,
        Instruction::SubI(..) => true,
        Instruction::RemI(..) => true,
        Instruction::LessThan(..) => true,
        Instruction::LessThanI(..) => true,
        Instruction::Equals(..) => true,
        Instruction::EqualsI(..) => true,
        Instruction::NotEquals(..) => true,
        Instruction::NotEqualsI(..) => true,
        Instruction::Goto(..) => true,
        Instruction::GotoIfTrue(..) => true,
        Instruction::PushFunctionParameter(..) => true,
        Instruction::CallNativeVoidMethod(..) => true,
        Instruction::CallNativeMethod(..) => true,
        _ => false,
    }
}

/// Overwriting element `index` of the array in slot `arr_id`, whose view is
/// `ValueView::Array(t, es)`: in range, matching element type.
pub open spec fn spec_array_set(
    f: FrameView,
    arr_id: VariableIdType,
    t: VariableType,
    es: Seq<ValueView>,
    index: usize,
    v: ValueView,
) -> Result<FrameView, ErrorView> {
    if index >= es.len() {
        Err(ErrorView::ArrayIndexBeyondBounds(index))
    } else if spec_type_of(v) != t {
        Err(ErrorView::ArraySetValueWithIncompatibleType(
            VariableType::Array(Box::new(t)),
            spec_type_of(v),
        ))
    } else {
        Ok(spec_advance(FrameView {
            slots: f.slots.update(arr_id as int, ValueView::Array(t, es.update(index as int, v))),
            ..f
        }))
    }
}

/// One frame-local instruction, from the active frame to the next.
pub open spec fn spec_frame_instr(f: FrameView, instr: Instruction) -> Result<
    FrameView,
    ErrorView,
> {
    match instr {
        Instruction::SetVar(dst, src) => match spec_get_slot(f, src) {
            Ok(v) => spec_advance_set(f, dst, v),
            Err(e) => Err(e),
        },
        Instruction::SetI(dst, imm) => spec_advance_set(f, dst, imm@),
        Instruction::SetArrayIndex(arr_id, idx_id, src_id) => match spec_get_slot(f, idx_id) {
            Err(e) => Err(e),
            Ok(idxv) => if !spec_is_numeric(idxv) {
                Err(ErrorView::ValueIsNotNumeric(idxv))
            } else {
                match spec_get_slot(f, src_id) {
                    Err(e) => Err(e),
                    Ok(newv) => match spec_get_slot(f, arr_id) {
                        Err(e) => Err(e),
                        Ok(arrv) => if !(arrv is Array) {
                            Err(ErrorView::ArrayOperationOnNonArrayValue(spec_type_of(arrv)))
                        } else {
                            spec_array_set(
                                f,
                                arr_id,
                                arrv->Array_0,
                                arrv->Array_1,
                                spec_to_index(idxv),
                                newv,
                            )
                        },
                    },
                }
            },
        },
        Instruction::SetArrayIndexI(arr_id, idx_id, imm) => match spec_get_slot(f, idx_id) {
            Err(e) => Err(e),
            Ok(idxv) => if !spec_is_numeric(idxv) {
                Err(ErrorView::ValueIsNotNumeric(idxv))
            } else {
                match spec_get_slot(f, arr_id) {
                    Err(e) => Err(e),
                    Ok(arrv) => if !(arrv is Array) {
                        Err(ErrorView::ArrayOperationOnNonArrayValue(spec_type_of(arrv)))
                    } else {
                        spec_array_set(
                            f,
                            arr_id,
                            arrv->Array_0,
                            arrv->Array_1,
                            spec_to_index(idxv),
                            imm@,
                        )
                    },
                }
            },
        },
        Instruction::GetArrayIndex(arr_id, store_id, idx_id) => match spec_get_slot(f, idx_id) {
            Err(e) => Err(e),
            Ok(idxv) => if !spec_is_numeric(idxv) {
                Err(ErrorView::ValueIsNotNumeric(idxv))
            } else {
                match spec_get_slot(f, arr_id) {
                    Err(e) => Err(e),
                    Ok(arrv) => if !(arrv is Array) {
                        Err(ErrorView::ArrayOperationOnNonArrayValue(spec_type_of(arrv)))
                    } else {
                        let es = arrv->Array_1;
                        let index = spec_to_index(idxv);
                        if index >= es.len() {
                            Err(ErrorView::ArrayIndexBeyondBounds(index))
                        } else {
                            spec_advance_set(f, store_id, es[index as int])
                        }
                    },
                }
            },
        },
        Instruction::Add(l, r) => spec_binop(f, l, r, spec_op_add(
            spec_get_or_zero(f, l),
            spec_get_or_zero(f, r),
        )),
        Instruction::Sub(l, r) => spec_binop(f, l, r, spec_op_sub(
            spec_get_or_zero(f, l),
            spec_get_or_zero(f, r),
        )),
        Instruction::Rem(l, r) => spec_binop(f, l, r, spec_op_rem(
            spec_get_or_zero(f, l),
            spec_get_or_zero(f, r),
        )),
        Instruction::AddI(l, imm) => spec_binop_imm(f, l, spec_op_add(
            spec_get_or_zero(f, l),
            imm@,
        )),
        Instruction::SubI(l, imm) => spec_binop_imm(f, l, spec_op_sub(
            spec_get_or_zero(f, l),
            imm@,
        )),
        Instruction::RemI(l, imm) => spec_binop_imm(f, l, spec_op_rem(
            spec_get_or_zero(f, l),
            imm@,
        )),
        Instruction::LessThan(dst, l, r) => spec_cmp(f, dst, l, r, spec_op_less_than(
            spec_get_or_zero(f, l),
            spec_get_or_zero(f, r),
        )),
        Instruction::LessThanI(dst, l, imm) => spec_cmp_imm(f, dst, l, spec_op_less_than(
            spec_get_or_zero(f, l),
            imm@,
        )),
        Instruction::Equals(dst, l, r) => spec_cmp(f, dst, l, r, spec_op_equals(
            spec_get_or_zero(f, l),
            spec_get_or_zero(f, r),
        )),
        Instruction::EqualsI(dst, l, imm) => spec_cmp_imm(f, dst, l, spec_op_equals(
            spec_get_or_zero(f, l),
            imm@,
        )),
        Instruction::NotEquals(dst, l, r) => spec_cmp(f, dst, l, r, spec_op_not_equals(
            spec_get_or_zero(f, l),
            spec_get_or_zero(f, r),
        )),
        Instruction::NotEqualsI(dst, l, imm) => spec_cmp_imm(f, dst, l, spec_op_not_equals(
            spec_get_or_zero(f, l),
            imm@,
        )),
        Instruction::Goto(n) => Ok(FrameView { ic: n as int, ..f }),
        Instruction::GotoIfTrue(n, b) => match spec_get_slot(f, b) {
            Err(e) => Err(e),
            Ok(v) => match v {
                ValueView::Bool(true) => Ok(FrameView { ic: n as int, ..f }),
                ValueView::Bool(false) => Ok(spec_advance(f)),
                _ => Err(ErrorView::GotoNonBoolean),
            },
        },
        Instruction::PushFunctionParameter(src) => match spec_get_slot(f, src) {
            Err(e) => Err(e),
            Ok(v) => Ok(FrameView { queue: f.queue.push(v), ic: f.ic + 1, ..f }),
        },
        Instruction::CallNativeVoidMethod(recv, mid) => if f.queue.len() == 0 {
            Err(ErrorView::FunctionCallParameterStackEmptyPop(mid))
        } else {
            let v = f.queue.last();
            match spec_get_slot(f, recv) {
                Err(e) => Err(e),
                Ok(arrv) => if !(arrv is Array) {
                    Err(ErrorView::ArrayOperationOnNonArrayValue(spec_type_of(arrv)))
                } else {
                    let t = arrv->Array_0;
                    let es = arrv->Array_1;
                    if spec_type_of(v) != t {
                        Err(ErrorView::ArrayTypeIncompatibleWithPushValue(
                            VariableType::Array(Box::new(t)),
                            spec_type_of(v),
                        ))
                    } else {
                        Ok(FrameView {
                            slots: f.slots.update(recv as int, ValueView::Array(t, es.push(v))),
                            queue: f.queue.drop_last(),
                            ic: f.ic + 1,
                            ..f
                        })
                    }
                },
            }
        },
        Instruction::CallNativeMethod(recv, dst, _mid) => match spec_get_slot(f, recv) {
            Err(e) => Err(e),
            Ok(arrv) => if !(arrv is Array) {
                Err(ErrorView::ArrayOperationOnNonArrayValue(spec_type_of(arrv)))
            } else {
                spec_advance_set(f, dst, ValueView::U64(arrv->Array_1.len() as u64))
            },
        },
        _ => Err(ErrorView::NotImplemented),
    }
}

/// The slot value where the id is known to be in range; a placeholder zero
/// otherwise (the surrounding definitions test the range first).
pub open spec fn spec_get_or_zero(f: FrameView, id: VariableIdType) -> ValueView {
    if (id as int) < f.slots.len() {
        f.slots[id as int]
    } else {
        ValueView::U8(0)
    }
}

/// An arithmetic instruction assigning into its left operand.
pub open spec fn spec_binop(
    f: FrameView,
    l: VariableIdType,
    r: VariableIdType,
    outcome: Result<ValueView, ErrorView>,
) -> Result<FrameView, ErrorView> {
    if (l as int) >= f.slots.len() {
        Err(ErrorView::VariableDoesNotExist(l))
    } else if (r as int) >= f.slots.len() {
        Err(ErrorView::VariableDoesNotExist(r))
    } else {
        match outcome {
            Err(e) => Err(e),
            Ok(nv) => spec_advance_set(f, l, nv),
        }
    }
}

/// An immediate arithmetic instruction assigning into its left operand.
pub open spec fn spec_binop_imm(
    f: FrameView,
    l: VariableIdType,
    outcome: Result<ValueView, ErrorView>,
) -> Result<FrameView, ErrorView> {
    if (l as int) >= f.slots.len() {
        Err(ErrorView::VariableDoesNotExist(l))
    } else {
        match outcome {
            Err(e) => Err(e),
            Ok(nv) => spec_advance_set(f, l, nv),
        }
    }
}

/// A comparison instruction assigning a boolean into `dst`.
pub open spec fn spec_cmp(
    f: FrameView,
    dst: VariableIdType,
    l: VariableIdType,
    r: VariableIdType,
    outcome: Result<ValueView, ErrorView>,
) -> Result<FrameView, ErrorView> {
    if (l as int) >= f.slots.len() {
        Err(ErrorView::VariableDoesNotExist(l))
    } else if (r as int) >= f.slots.len() {
        Err(ErrorView::VariableDoesNotExist(r))
    } else {
        match outcome {
            Err(e) => Err(e),
            Ok(nv) => spec_advance_set(f, dst, nv),
        }
    }
}

/// An immediate comparison instruction assigning a boolean into `dst`.
pub open spec fn spec_cmp_imm(
    f: FrameView,
    dst: VariableIdType,
    l: VariableIdType,
    outcome: Result<ValueView, ErrorView>,
) -> Result<FrameView, ErrorView> {
    if (l as int) >= f.slots.len() {
        Err(ErrorView::VariableDoesNotExist(l))
    } else {
        match outcome {
            Err(e) => Err(e),
            Ok(nv) => spec_advance_set(f, dst, nv),
        }
    }
}

} // verus!

verus! {

/// Binding a parameter list from a caller's queue into a staged callee
/// frame: the last parameter is popped first, so the order of pushes
/// matches ascending parameter slots. Each popped value must match its
/// declared parameter type, and is then stored into the callee slot of the
/// same index (which checks it against the declared local type).
/// On success: the remaining queue and the filled callee frame.
pub open spec fn spec_bind_params(
    queue: Seq<ValueView>,
    params: Seq<VariableType>,
    cf: FrameView,
    fid: FunctionIdType,
) -> Result<(Seq<ValueView>, FrameView), ErrorView>
    decreases params.len(),
{
    if params.len() == 0 {
        Ok((queue, cf))
    } else if queue.len() == 0 {
        Err(ErrorView::FunctionCallParameterStackEmptyPop(fid))
    } else if spec_type_of(queue.last()) != params.last() {
        Err(ErrorView::FunctionCallParametersInvalid(fid, false))
    } else {
        match spec_set_slot(cf, (params.len() - 1) as VariableIdType, queue.last()) {
            Err(e) => Err(e),
            Ok(cf2) => spec_bind_params(queue.drop_last(), params.drop_last(), cf2, fid),
        }
    }
}

/// A call instruction: look up the callee, check its return kind against
/// the call form, bind parameters in reverse pop order, park the caller
/// (pending destination recorded for non-void calls), and stage the callee
/// frame with bound parameters and zeroed remaining locals.
pub open spec fn spec_call(
    funcs: Map<FunctionIdType, Function>,
    m: MachineView,
    f: FrameView,
    fid: FunctionIdType,
    ret_dst: Option<VariableIdType>,
) -> Result<MachineView, ErrorView> {
    if !funcs.contains_key(fid) {
        Err(ErrorView::FunctionDoesNotExist(fid))
    } else {
        let callee = funcs[fid];
        if ret_dst is Some && callee.spec_return_type() is None {
            Err(ErrorView::ExpectingReturnCallToVoidFunction(fid))
        } else if ret_dst is None && callee.spec_return_type() is Some {
            Err(ErrorView::VoidCallToNonVoidFunction(fid))
        } else {
            let staged = FrameView {
                slots: spec_zero_slots(callee.spec_locals()),
                queue: Seq::empty(),
                function_id: fid,
                pending: None,
                ic: 0,
            };
            match spec_bind_params(f.queue, callee.spec_parameters(), staged, fid) {
                Err(e) => Err(e),
                Ok((q2, callee_frame)) => {
                    let caller = FrameView { queue: q2, pending: ret_dst, ic: f.ic + 1, ..f };
                    Ok(MachineView {
                        frames: m.frames.update(m.frames.len() - 1, caller).push(callee_frame),
                        ..m
                    })
                },
            }
        }
    }
}

/// A frame resumed after a call first consumes the return register into its
/// pending slot; a missing value is an error, and the register and the
/// pending mark are cleared.
pub open spec fn spec_consume_pending(f: FrameView, ret: Option<ValueView>) -> Result<
    (FrameView, Option<ValueView>),
    ErrorView,
> {
    if f.pending is None {
        Ok((f, ret))
    } else if ret is None {
        Err(ErrorView::NoReturnValue)
    } else {
        match spec_set_slot(f, f.pending->0, ret->0) {
            Ok(f2) => Ok((FrameView { pending: None, ..f2 }, None)),
            Err(e) => Err(e),
        }
    }
}

/// Dispatch of the instruction under the active frame's counter, after any
/// pending return has been consumed. Falling past the last instruction
/// discards the frame.
pub open spec fn spec_dispatch(funcs: Map<FunctionIdType, Function>, m: MachineView) -> Result<
    MachineView,
    ErrorView,
>
    recommends
        m.frames.len() > 0,
        funcs.contains_key(m.frames.last().function_id),
{
    let f = m.frames.last();
    let func = funcs[f.function_id];
    if f.ic >= func.spec_instructions().len() {
        Ok(MachineView { frames: m.frames.drop_last(), ..m })
    } else {
        let instr = func.spec_instructions()[f.ic];
        match instr {
            Instruction::Return(src) => match spec_get_slot(f, src) {
                Ok(v) => Ok(MachineView {
                    frames: m.frames.drop_last(),
                    ret: Some(v),
                    output: m.output,
                }),
                Err(e) => Err(e),
            },
            Instruction::CallFunction(fid, dst) => spec_call(funcs, m, f, fid, Some(dst)),
            Instruction::CallVoidFunction(fid) => spec_call(funcs, m, f, fid, None),
            Instruction::CallNativeVoidFunction(nid) => if f.queue.len() != 1 {
                Err(ErrorView::FunctionCallParametersInvalid(nid, true))
            } else {
                Ok(MachineView {
                    frames: m.frames.update(
                        m.frames.len() - 1,
                        FrameView { queue: Seq::empty(), ic: f.ic + 1, ..f },
                    ),
                    ret: m.ret,
                    output: m.output.push(f.queue.last()),
                })
            },
            _ => if spec_is_frame_instr(instr) {
                match spec_frame_instr(f, instr) {
                    Ok(f2) => Ok(MachineView {
                        frames: m.frames.update(m.frames.len() - 1, f2),
                        ..m
                    }),
                    Err(e) => Err(e),
                }
            } else {
                Err(ErrorView::NotImplemented)
            },
        }
    }
}

/// One dispatch step of the machine: the active frame's function must
/// resolve, a pending return is consumed, and the current instruction (or
/// the end of the function) takes effect.
pub open spec fn spec_step(funcs: Map<FunctionIdType, Function>, m: MachineView) -> Result<
    MachineView,
    ErrorView,
>
    recommends
        m.frames.len() > 0,
{
    let f = m.frames.last();
    if !funcs.contains_key(f.function_id) {
        Err(ErrorView::FunctionDoesNotExist(f.function_id))
    } else {
        match spec_consume_pending(f, m.ret) {
            Err(e) => Err(e),
            Ok((f2, r2)) => spec_dispatch(
                funcs,
                MachineView { frames: m.frames.update(m.frames.len() - 1, f2), ret: r2, ..m },
            ),
        }
    }
}

/// How a bounded run of the machine ends: the stack drained, a failing
/// step, or the step budget exhausted.
pub ghost enum RunOutcome {
    /// The stack drained; the machine's final state.
    Finished(MachineView),
    /// A step failed with this error.
    Failed(ErrorView),
    /// The budget ran out; the machine's state at that point.
    OutOfFuel(MachineView),
}

/// Running the machine for at most `fuel` dispatch steps.
pub open spec fn spec_run(
    funcs: Map<FunctionIdType, Function>,
    m: MachineView,
    fuel: nat,
) -> RunOutcome
    decreases fuel,
{
    if m.frames.len() == 0 {
        RunOutcome::Finished(m)
    } else if fuel == 0 {
        RunOutcome::OutOfFuel(m)
    } else {
        match spec_step(funcs, m) {
            Ok(m2) => spec_run(funcs, m2, (fuel - 1) as nat),
            Err(e) => RunOutcome::Failed(e),
        }
    }
}

/// Well-typedness of one frame: its function resolves and every slot's
/// dynamic type is the declared type of that local.
pub open spec fn frame_wf(funcs: Map<FunctionIdType, Function>, f: FrameView) -> bool {
    &&& funcs.contains_key(f.function_id)
    &&& f.slots.len() == funcs[f.function_id].spec_locals().len()
    &&& forall|i: int|
        0 <= i < f.slots.len() ==> spec_type_of(#[trigger] f.slots[i])
            == funcs[f.function_id].spec_locals()[i]
    &&& 0 <= f.ic
}

/// Well-typedness of the whole machine: every frame on the stack is
/// well-typed against its function.
pub open spec fn machine_wf(funcs: Map<FunctionIdType, Function>, m: MachineView) -> bool {
    forall|k: int| 0 <= k < m.frames.len() ==> frame_wf(funcs, #[trigger] m.frames[k])
}

} // verus!

verus! {

/// The staged zero frame for a function is well-typed.
pub proof fn lemma_zero_frame_wf(
    funcs: Map<FunctionIdType, Function>,
    fid: FunctionIdType,
    f: FrameView,
)
    requires
        funcs.contains_key(fid),
        f.function_id == fid,
        f.slots == spec_zero_slots(funcs[fid].spec_locals()),
        f.ic >= 0,
    ensures
        frame_wf(funcs, f),
{
    assert forall|i: int| 0 <= i < f.slots.len() implies spec_type_of(#[trigger] f.slots[i])
        == funcs[fid].spec_locals()[i] by {
        lemma_zero_type(funcs[fid].spec_locals()[i]);
    }
}

/// Storing into a slot keeps a frame well-typed: the write is type-checked
/// against the slot's current type.
pub proof fn lemma_set_slot_preserves_typing(
    funcs: Map<FunctionIdType, Function>,
    f: FrameView,
    id: VariableIdType,
    v: ValueView,
)
    requires
        frame_wf(funcs, f),
    ensures
        spec_set_slot(f, id, v) matches Ok(f2) ==> f2.function_id == f.function_id && frame_wf(
            funcs,
            f2,
        ),
{
}

/// Writing a slot and advancing keeps a frame well-typed.
proof fn lemma_advance_set_preserves_typing(
    funcs: Map<FunctionIdType, Function>,
    f: FrameView,
    id: VariableIdType,
    v: ValueView,
)
    requires
        frame_wf(funcs, f),
    ensures
        spec_advance_set(f, id, v) matches Ok(f2) ==> f2.function_id == f.function_id && frame_wf(
            funcs,
            f2,
        ),
{
    lemma_set_slot_preserves_typing(funcs, f, id, v);
}

/// Overwriting an array element keeps a frame well-typed: the slot keeps
/// its array type because the element type is unchanged.
proof fn lemma_array_set_preserves_typing(
    funcs: Map<FunctionIdType, Function>,
    f: FrameView,
    arr_id: VariableIdType,
    t: VariableType,
    es: Seq<ValueView>,
    index: usize,
    v: ValueView,
)
    requires
        frame_wf(funcs, f),
        (arr_id as int) < f.slots.len(),
        f.slots[arr_id as int] == ValueView::Array(t, es),
    ensures
        spec_array_set(f, arr_id, t, es, index, v) matches Ok(f2) ==> f2.function_id
            == f.function_id && frame_wf(funcs, f2),
{
}

/// A frame-local instruction keeps the frame well-typed: every successful
/// slot write preserves the slot's declared type (slot typing).
#[verifier::rlimit(60)]
pub proof fn lemma_frame_instr_preserves_typing(
    funcs: Map<FunctionIdType, Function>,
    f: FrameView,
    instr: Instruction,
)
    requires
        frame_wf(funcs, f),
    ensures
        spec_frame_instr(f, instr) matches Ok(f2) ==> f2.function_id == f.function_id && frame_wf(
            funcs,
            f2,
        ),
{
    match instr {
        Instruction::SetVar(dst, src) => {
            if spec_get_slot(f, src) is Ok {
                lemma_advance_set_preserves_typing(funcs, f, dst, spec_get_slot(f, src)->Ok_0);
            }
        }
        Instruction::SetI(dst, imm) => {
            lemma_advance_set_preserves_typing(funcs, f, dst, imm@);
        }
        Instruction::SetArrayIndex(arr_id, idx_id, src_id) => {
            if spec_get_slot(f, arr_id) is Ok {
                let arrv = spec_get_slot(f, arr_id)->Ok_0;
                if arrv is Array {
                    if spec_get_slot(f, idx_id) is Ok && spec_get_slot(f, src_id) is Ok {
                        let idxv = spec_get_slot(f, idx_id)->Ok_0;
                        lemma_array_set_preserves_typing(
                            funcs,
                            f,
                            arr_id,
                            arrv->Array_0,
                            arrv->Array_1,
                            spec_to_index(idxv),
                            spec_get_slot(f, src_id)->Ok_0,
                        );
                    }
                }
            }
        }
        Instruction::SetArrayIndexI(arr_id, idx_id, imm) => {
            if spec_get_slot(f, arr_id) is Ok {
                let arrv = spec_get_slot(f, arr_id)->Ok_0;
                if arrv is Array {
                    if spec_get_slot(f, idx_id) is Ok {
                        let idxv = spec_get_slot(f, idx_id)->Ok_0;
                        lemma_array_set_preserves_typing(
                            funcs,
                            f,
                            arr_id,
                            arrv->Array_0,
                            arrv->Array_1,
                            spec_to_index(idxv),
                            imm@,
                        );
                    }
                }
            }
        }
        Instruction::GetArrayIndex(arr_id, store_id, idx_id) => {
            if spec_get_slot(f, arr_id) is Ok {
                let arrv = spec_get_slot(f, arr_id)->Ok_0;
                if arrv is Array {
                    let es = arrv->Array_1;
                    if spec_get_slot(f, idx_id) is Ok {
                        let index = spec_to_index(spec_get_slot(f, idx_id)->Ok_0);
                        if index < es.len() {
                            lemma_advance_set_preserves_typing(funcs, f, store_id, es[index as int]);
                        }
                    }
                }
            }
        }
        Instruction::Add(l, r) | Instruction::Sub(l, r) | Instruction::Rem(l, r) => {
            assert(spec_frame_instr(f, instr) matches Ok(f2) ==> f2.function_id == f.function_id
                && frame_wf(funcs, f2));
        }
        Instruction::AddI(l, _) | Instruction::SubI(l, _) | Instruction::RemI(l, _) => {
            assert(spec_frame_instr(f, instr) matches Ok(f2) ==> f2.function_id == f.function_id
                && frame_wf(funcs, f2));
        }
        Instruction::LessThan(dst, _, _) | Instruction::Equals(dst, _, _)
            | Instruction::NotEquals(dst, _, _) => {
            assert(spec_frame_instr(f, instr) matches Ok(f2) ==> f2.function_id == f.function_id
                && frame_wf(funcs, f2));
        }
        Instruction::LessThanI(dst, _, _) | Instruction::EqualsI(dst, _, _)
            | Instruction::NotEqualsI(dst, _, _) => {
            assert(spec_frame_instr(f, instr) matches Ok(f2) ==> f2.function_id == f.function_id
                && frame_wf(funcs, f2));
        }
        Instruction::CallNativeVoidMethod(recv, _) => {
            if f.queue.len() > 0 && spec_get_slot(f, recv) is Ok {
                let arrv = spec_get_slot(f, recv)->Ok_0;
                if arrv is Array {
                    assert(spec_frame_instr(f, instr) matches Ok(f2) ==> f2.function_id
                        == f.function_id && frame_wf(funcs, f2));
                }
            }
        }
        Instruction::CallNativeMethod(recv, dst, _) => {
            if spec_get_slot(f, recv) is Ok {
                let arrv = spec_get_slot(f, recv)->Ok_0;
                if arrv is Array {
                    lemma_advance_set_preserves_typing(
                        funcs,
                        f,
                        dst,
                        ValueView::U64(arrv->Array_1.len() as u64),
                    );
                }
            }
        }
        _ => {}
    }
}

/// Binding call parameters keeps the staged callee frame well-typed: each
/// bound value is stored through the type-checked slot write.
pub proof fn lemma_bind_params_preserves_typing(
    funcs: Map<FunctionIdType, Function>,
    queue: Seq<ValueView>,
    params: Seq<VariableType>,
    cf: FrameView,
    fid: FunctionIdType,
)
    requires
        frame_wf(funcs, cf),
    ensures
        spec_bind_params(queue, params, cf, fid) matches Ok(p) ==> p.1.function_id
            == cf.function_id && frame_wf(funcs, p.1),
    decreases params.len(),
{
    if params.len() > 0 && queue.len() > 0 && spec_type_of(queue.last()) == params.last() {
        match spec_set_slot(cf, (params.len() - 1) as VariableIdType, queue.last()) {
            Ok(cf2) => {
                lemma_set_slot_preserves_typing(
                    funcs,
                    cf,
                    (params.len() - 1) as VariableIdType,
                    queue.last(),
                );
                lemma_bind_params_preserves_typing(
                    funcs,
                    queue.drop_last(),
                    params.drop_last(),
                    cf2,
                    fid,
                );
            }
            Err(_) => {}
        }
    }
}

/// Slot typing is an invariant of the machine: one successful dispatch
/// step keeps every frame's slots at their declared local types.
pub proof fn lemma_step_preserves_typing(funcs: Map<FunctionIdType, Function>, m: MachineView)
    requires
        machine_wf(funcs, m),
        m.frames.len() > 0,
    ensures
        spec_step(funcs, m) matches Ok(m2) ==> machine_wf(funcs, m2),
{
    let f = m.frames.last();
    if !funcs.contains_key(f.function_id) {
        return ;
    }
    match spec_consume_pending(f, m.ret) {
        Err(_) => {}
        Ok((f2, r2)) => {
            if f.pending is Some {
                lemma_set_slot_preserves_typing(funcs, f, f.pending->0, m.ret->0);
            }
            let m1 = MachineView {
                frames: m.frames.update(m.frames.len() - 1, f2),
                ret: r2,
                ..m
            };
            assert(frame_wf(funcs, f2));
            assert(machine_wf(funcs, m1));
            lemma_dispatch_preserves_typing(funcs, m1);
        }
    }
}

/// Dispatch of the current instruction keeps every frame well-typed.
proof fn lemma_dispatch_preserves_typing(funcs: Map<FunctionIdType, Function>, m: MachineView)
    requires
        machine_wf(funcs, m),
        m.frames.len() > 0,
        funcs.contains_key(m.frames.last().function_id),
    ensures
        spec_dispatch(funcs, m) matches Ok(m2) ==> machine_wf(funcs, m2),
{
    let f = m.frames.last();
    let func = funcs[f.function_id];
    if f.ic >= func.spec_instructions().len() {
        return ;
    }
    let instr = func.spec_instructions()[f.ic];
    match instr {
        Instruction::Return(_) => {}
        Instruction::CallFunction(fid, dst) => {
            lemma_call_preserves_typing(funcs, m, f, fid, Some(dst));
        }
        Instruction::CallVoidFunction(fid) => {
            lemma_call_preserves_typing(funcs, m, f, fid, None);
        }
        Instruction::CallNativeVoidFunction(_) => {}
        _ => {
            if spec_is_frame_instr(instr) {
                lemma_frame_instr_preserves_typing(funcs, f, instr);
            }
        }
    }
}

/// A call instruction keeps every frame well-typed: the caller's slots are
/// untouched and the callee frame is zeroed then filled type-checked.
proof fn lemma_call_preserves_typing(
    funcs: Map<FunctionIdType, Function>,
    m: MachineView,
    f: FrameView,
    fid: FunctionIdType,
    ret_dst: Option<VariableIdType>,
)
    requires
        machine_wf(funcs, m),
        m.frames.len() > 0,
        f == m.frames.last(),
        funcs.contains_key(f.function_id),
    ensures
        spec_call(funcs, m, f, fid, ret_dst) matches Ok(m2) ==> machine_wf(funcs, m2),
{
    if !funcs.contains_key(fid) {
        return ;
    }
    let callee = funcs[fid];
    let staged = FrameView {
        slots: spec_zero_slots(callee.spec_locals()),
        queue: Seq::<ValueView>::empty(),
        function_id: fid,
        pending: None,
        ic: 0,
    };
    lemma_zero_frame_wf(funcs, fid, staged);
    lemma_bind_params_preserves_typing(funcs, f.queue, callee.spec_parameters(), staged, fid);
}

} // verus!

verus! {

/// Call symmetry, success side: with at least `k` queued values whose last
/// `k` types match the `k` declared parameters in order, binding succeeds,
/// exactly `k` values leave the queue, and parameter slot `j` receives the
/// `j`-th of the last `k` pushes: popping in reverse undoes the pushes.
pub proof fn lemma_bind_params_reverses_pushes(
    queue: Seq<ValueView>,
    params: Seq<VariableType>,
    cf: FrameView,
    fid: FunctionIdType,
)
    requires
        params.len() <= queue.len(),
        params.len() <= cf.slots.len(),
        params.len() <= 0x1_0000,
        forall|j: int|
            0 <= j < params.len() ==> spec_type_of(
                #[trigger] queue[queue.len() - params.len() + j],
            ) == params[j],
        forall|j: int|
            0 <= j < params.len() ==> spec_type_of(#[trigger] cf.slots[j]) == params[j],
    ensures
        spec_bind_params(queue, params, cf, fid) matches Ok(p) && {
            let (q2, cf2) = p;
            &&& q2 == queue.take(queue.len() - params.len())
            &&& cf2.slots.len() == cf.slots.len()
            &&& forall|j: int|
                0 <= j < params.len() ==> #[trigger] cf2.slots[j] == queue[queue.len()
                    - params.len() + j]
            &&& forall|j: int|
                params.len() <= j < cf.slots.len() ==> #[trigger] cf2.slots[j] == cf.slots[j]
            &&& cf2.queue == cf.queue
            &&& cf2.function_id == cf.function_id
            &&& cf2.pending == cf.pending
            &&& cf2.ic == cf.ic
        },
    decreases params.len(),
{
    if params.len() == 0 {
        assert(queue.take(queue.len() - 0) =~= queue);
    } else {
        let k = params.len() as int;
        let n = queue.len() as int;
        assert(queue.last() == queue[n - k + (k - 1)]);
        assert(spec_type_of(queue[n - k + (k - 1)]) == params[k - 1]);
        assert(spec_type_of(cf.slots[k - 1]) == params[k - 1]);
        let cf2 = spec_set_slot(cf, (k - 1) as VariableIdType, queue.last())->Ok_0;
        assert forall|j: int| 0 <= j < k - 1 implies spec_type_of(
            #[trigger] queue.drop_last()[queue.drop_last().len() - (k - 1) + j],
        ) == params.drop_last()[j] by {
            assert(queue.drop_last()[n - k + j] == queue[n - k + j]);
            assert(spec_type_of(queue[n - k + j]) == params[j]);
        }
        assert forall|j: int| 0 <= j < k - 1 implies spec_type_of(#[trigger] cf2.slots[j])
            == params.drop_last()[j] by {
            assert(cf2.slots[j] == cf.slots[j]);
            assert(spec_type_of(cf.slots[j]) == params[j]);
        }
        lemma_bind_params_reverses_pushes(queue.drop_last(), params.drop_last(), cf2, fid);
        assert(queue.drop_last().take(n - k) =~= queue.take(n - k));
        assert forall|j: int| 0 <= j < k implies #[trigger] spec_bind_params(
            queue,
            params,
            cf,
            fid,
        )->Ok_0.1.slots[j] == queue[n - k + j] by {
            if j < k - 1 {
                assert(queue.drop_last()[n - k + j] == queue[n - k + j]);
            }
        }
    }
}

/// Call symmetry, failure side: with fewer queued values than declared
/// parameters the binding always reports an error; a call owes one push
/// per parameter.
pub proof fn lemma_bind_params_needs_push_per_param(
    queue: Seq<ValueView>,
    params: Seq<VariableType>,
    cf: FrameView,
    fid: FunctionIdType,
)
    requires
        queue.len() < params.len(),
    ensures
        spec_bind_params(queue, params, cf, fid) is Err,
    decreases params.len(),
{
    if queue.len() > 0 && spec_type_of(queue.last()) == params.last() {
        match spec_set_slot(cf, (params.len() - 1) as VariableIdType, queue.last()) {
            Ok(cf2) => {
                lemma_bind_params_needs_push_per_param(
                    queue.drop_last(),
                    params.drop_last(),
                    cf2,
                    fid,
                );
            }
            Err(_) => {}
        }
    }
}

/// Return plumbing, consumer side: a frame resumed from a non-void call
/// consumes the return register at its next step. An empty register fails
/// with `NoReturnValue`; otherwise the value lands in the recorded
/// destination slot (or the step fails on a slot or type error), and both
/// the register and the pending mark are cleared.
pub proof fn lemma_return_plumbing(f: FrameView, ret: Option<ValueView>)
    requires
        f.pending is Some,
    ensures
        ret is None ==> spec_consume_pending(f, ret) == Err::<
            (FrameView, Option<ValueView>),
            ErrorView,
        >(ErrorView::NoReturnValue),
        ret is Some ==> (spec_consume_pending(f, ret) matches Ok(p) ==> {
            &&& p.0.slots == f.slots.update(f.pending->0 as int, ret->0)
            &&& p.0.slots[f.pending->0 as int] == ret->0
            &&& p.0.pending is None
            &&& p.1 is None
        }),
{
}

/// Return plumbing, producer side: a `Return` instruction copies the named
/// slot into the return register and discards the frame, resuming the
/// caller.
pub proof fn lemma_return_sets_register(
    funcs: Map<FunctionIdType, Function>,
    m: MachineView,
    src: VariableIdType,
)
    requires
        m.frames.len() > 0,
        funcs.contains_key(m.frames.last().function_id),
        m.frames.last().pending is None,
        0 <= m.frames.last().ic
            < funcs[m.frames.last().function_id].spec_instructions().len(),
        funcs[m.frames.last().function_id].spec_instructions()[m.frames.last().ic]
            == Instruction::Return(src),
    ensures
        (src as int) < m.frames.last().slots.len() ==> spec_step(funcs, m) == Ok::<
            MachineView,
            ErrorView,
        >(
            MachineView {
                frames: m.frames.drop_last(),
                ret: Some(m.frames.last().slots[src as int]),
                output: m.output,
            },
        ),
        (src as int) >= m.frames.last().slots.len() ==> spec_step(funcs, m) == Err::<
            MachineView,
            ErrorView,
        >(ErrorView::VariableDoesNotExist(src)),
{
    let f = m.frames.last();
    assert(m.frames.update(m.frames.len() - 1, f) =~= m.frames);
}

/// Goto determinism: a taken conditional jump lands exactly at its target,
/// an untaken one falls through to the next instruction, and a non-boolean
/// condition is an error.
pub proof fn lemma_goto_determinism(f: FrameView, n: usize, b: VariableIdType)
    requires
        (b as int) < f.slots.len(),
    ensures
        f.slots[b as int] == ValueView::Bool(true) ==> spec_frame_instr(
            f,
            Instruction::GotoIfTrue(n, b),
        ) == Ok::<FrameView, ErrorView>(FrameView { ic: n as int, ..f }),
        f.slots[b as int] == ValueView::Bool(false) ==> spec_frame_instr(
            f,
            Instruction::GotoIfTrue(n, b),
        ) == Ok::<FrameView, ErrorView>(FrameView { ic: f.ic + 1, ..f }),
        !(f.slots[b as int] is Bool) ==> spec_frame_instr(f, Instruction::GotoIfTrue(n, b))
            == Err::<FrameView, ErrorView>(ErrorView::GotoNonBoolean),
{
}

} // verus!

verus! {

impl ExecutionContext {
    /// Execute one frame-local instruction, mirroring `spec_frame_instr`.
    #[verifier::rlimit(60)]
    fn exec_frame_instr(&mut self, instr: &Instruction) -> (r: Result<(), InterpreterError>)
        requires
            spec_is_frame_instr(*instr),
            old(self)@.ic < usize::MAX as int,
        ensures
            match spec_frame_instr(old(self)@, *instr) {
                Ok(f2) => r == Ok::<(), InterpreterError>(()) && final(self)@ == f2,
                Err(e) => (r matches Err(er) && er@ == e),
            },
    {
        match instr {
            Instruction::SetVar(to_var_id, from_var_id) => {
                let value = match self.get_variable(*from_var_id) {
                    Ok(v) => v.clone(),
                    Err(e) => { return Err(e) },
                };
                match self.set_variable(*to_var_id, value) {
                    Ok(()) => {}
                    Err(e) => { return Err(e) },
                }
                self.instruction_counter = self.instruction_counter + 1;
                Ok(())
            }
            Instruction::SetI(var_id, value) => {
                match self.set_variable(*var_id, value.clone()) {
                    Ok(()) => {}
                    Err(e) => { return Err(e) },
                }
                self.instruction_counter = self.instruction_counter + 1;
                Ok(())
            }
            Instruction::SetArrayIndex(array_var_id, array_index, new_value_id) => {
                let index = {
                    let idx_val = match self.get_variable(*array_index) {
                        Ok(v) => v,
                        Err(e) => { return Err(e) },
                    };
                    match idx_val.to_usize() {
                        Ok(i) => i,
                        Err(e) => { return Err(e) },
                    }
                };
                let new_value = match self.get_variable(*new_value_id) {
                    Ok(v) => v.clone(),
                    Err(e) => { return Err(e) },
                };
                self.array_set_index(*array_var_id, index, new_value)
            }
            Instruction::SetArrayIndexI(array_var_id, array_index, value) => {
                let index = {
                    let idx_val = match self.get_variable(*array_index) {
                        Ok(v) => v,
                        Err(e) => { return Err(e) },
                    };
                    match idx_val.to_usize() {
                        Ok(i) => i,
                        Err(e) => { return Err(e) },
                    }
                };
                self.array_set_index(*array_var_id, index, value.clone())
            }
            Instruction::GetArrayIndex(array_var_id, store_var_id, index_var_id) => {
                let index = {
                    let idx_val = match self.get_variable(*index_var_id) {
                        Ok(v) => v,
                        Err(e) => { return Err(e) },
                    };
                    match idx_val.to_usize() {
                        Ok(i) => i,
                        Err(e) => { return Err(e) },
                    }
                };
                let val = {
                    let array = match self.get_variable(*array_var_id) {
                        Ok(v) => v,
                        Err(e) => { return Err(e) },
                    };
                    let values = match array {
                        Value::Array(values) => values,
                        _ => {
                            return Err(InterpreterError::ArrayOperationOnNonArrayValue(
                                array.get_type(),
                            ))
                        },
                    };
                    match values.get_index(index) {
                        Ok(v) => v,
                        Err(e) => { return Err(e) },
                    }
                };
                match self.set_variable(*store_var_id, val) {
                    Ok(()) => {}
                    Err(e) => { return Err(e) },
                }
                self.instruction_counter = self.instruction_counter + 1;
                Ok(())
            }
            Instruction::Add(lvalue_id, rvalue_id) => {
                let (lvalue, rvalue) = match self.get_variable_pair(*lvalue_id, *rvalue_id) {
                    Ok(p) => p,
                    Err(e) => { return Err(e) },
                };
                let new_value = match op_add(lvalue.clone(), rvalue.clone()) {
                    Ok(v) => v,
                    Err(e) => { return Err(e) },
                };
                match self.set_variable(*lvalue_id, new_value) {
                    Ok(()) => {}
                    Err(e) => { return Err(e) },
                }
                self.instruction_counter = self.instruction_counter + 1;
                Ok(())
            }
            Instruction::Sub(lvalue_id, rvalue_id) => {
                let (lvalue, rvalue) = match self.get_variable_pair(*lvalue_id, *rvalue_id) {
                    Ok(p) => p,
                    Err(e) => { return Err(e) },
                };
                let new_value = match op_sub(lvalue.clone(), rvalue.clone()) {
                    Ok(v) => v,
                    Err(e) => { return Err(e) },
                };
                match self.set_variable(*lvalue_id, new_value) {
                    Ok(()) => {}
                    Err(e) => { return Err(e) },
                }
                self.instruction_counter = self.instruction_counter + 1;
                Ok(())
            }
            Instruction::Rem(lvalue_id, rvalue_id) => {
                let (lvalue, rvalue) = match self.get_variable_pair(*lvalue_id, *rvalue_id) {
                    Ok(p) => p,
                    Err(e) => { return Err(e) },
                };
                let new_value = match op_rem(lvalue.clone(), rvalue.clone()) {
                    Ok(v) => v,
                    Err(e) => { return Err(e) },
                };
                match self.set_variable(*lvalue_id, new_value) {
                    Ok(()) => {}
                    Err(e) => { return Err(e) },
                }
                self.instruction_counter = self.instruction_counter + 1;
                Ok(())
            }
            Instruction::AddI(lvalue_id, rvalue) => {
                let lvalue = match self.get_variable(*lvalue_id) {
                    Ok(v) => v,
                    Err(e) => { return Err(e) },
                };
                let new_value = match op_add(lvalue.clone(), rvalue.clone()) {
                    Ok(v) => v,
                    Err(e) => { return Err(e) },
                };
                match self.set_variable(*lvalue_id, new_value) {
                    Ok(()) => {}
                    Err(e) => { return Err(e) },
                }
                self.instruction_counter = self.instruction_counter + 1;
                Ok(())
            }
            Instruction::SubI(lvalue_id, rvalue) => {
                let lvalue = match self.get_variable(*lvalue_id) {
                    Ok(v) => v,
                    Err(e) => { return Err(e) },
                };
                let new_value = match op_sub(lvalue.clone(), rvalue.clone()) {
                    Ok(v) => v,
                    Err(e) => { return Err(e) },
                };
                match self.set_variable(*lvalue_id, new_value) {
                    Ok(()) => {}
                    Err(e) => { return Err(e) },
                }
                self.instruction_counter = self.instruction_counter + 1;
                Ok(())
            }
            Instruction::RemI(lvalue_id, rvalue) => {
                let lvalue = match self.get_variable(*lvalue_id) {
                    Ok(v) => v,
                    Err(e) => { return Err(e) },
                };
                let new_value = match op_rem(lvalue.clone(), rvalue.clone()) {
                    Ok(v) => v,
                    Err(e) => { return Err(e) },
                };
                match self.set_variable(*lvalue_id, new_value) {
                    Ok(()) => {}
                    Err(e) => { return Err(e) },
                }
                self.instruction_counter = self.instruction_counter + 1;
                Ok(())
            }
            Instruction::LessThan(bool_var_id, lvalue_id, rvalue_id) => {
                let (lvalue, rvalue) = match self.get_variable_pair(*lvalue_id, *rvalue_id) {
                    Ok(p) => p,
                    Err(e) => { return Err(e) },
                };
                let result = match op_less_than(lvalue.clone(), rvalue.clone()) {
                    Ok(v) => v,
                    Err(e) => { return Err(e) },
                };
                match self.set_variable(*bool_var_id, result) {
                    Ok(()) => {}
                    Err(e) => { return Err(e) },
                }
                self.instruction_counter = self.instruction_counter + 1;
                Ok(())
            }
            Instruction::LessThanI(bool_var_id, lvalue_id, rvalue) => {
                let lvalue = match self.get_variable(*lvalue_id) {
                    Ok(v) => v,
                    Err(e) => { return Err(e) },
                };
                let result = match op_less_than(lvalue.clone(), rvalue.clone()) {
                    Ok(v) => v,
                    Err(e) => { return Err(e) },
                };
                match self.set_variable(*bool_var_id, result) {
                    Ok(()) => {}
                    Err(e) => { return Err(e) },
                }
                self.instruction_counter = self.instruction_counter + 1;
                Ok(())
            }
            Instruction::Equals(bool_var_id, lvalue_id, rvalue_id) => {
                let (lvalue, rvalue) = match self.get_variable_pair(*lvalue_id, *rvalue_id) {
                    Ok(p) => p,
                    Err(e) => { return Err(e) },
                };
                let result = match op_equals(lvalue.clone(), rvalue.clone()) {
                    Ok(v) => v,
                    Err(e) => { return Err(e) },
                };
                match self.set_variable(*bool_var_id, result) {
                    Ok(()) => {}
                    Err(e) => { return Err(e) },
                }
                self.instruction_counter = self.instruction_counter + 1;
                Ok(())
            }
            Instruction::EqualsI(bool_var_id, lvalue_id, rvalue) => {
                let lvalue = match self.get_variable(*lvalue_id) {
                    Ok(v) => v,
                    Err(e) => { return Err(e) },
                };
                let result = match op_equals(lvalue.clone(), rvalue.clone()) {
                    Ok(v) => v,
                    Err(e) => { return Err(e) },
                };
                match self.set_variable(*bool_var_id, result) {
                    Ok(()) => {}
                    Err(e) => { return Err(e) },
                }
                self.instruction_counter = self.instruction_counter + 1;
                Ok(())
            }
            Instruction::NotEquals(bool_var_id, lvalue_id, rvalue_id) => {
                let (lvalue, rvalue) = match self.get_variable_pair(*lvalue_id, *rvalue_id) {
                    Ok(p) => p,
                    Err(e) => { return Err(e) },
                };
                let result = match op_not_equals(lvalue.clone(), rvalue.clone()) {
                    Ok(v) => v,
                    Err(e) => { return Err(e) },
                };
                match self.set_variable(*bool_var_id, result) {
                    Ok(()) => {}
                    Err(e) => { return Err(e) },
                }
                self.instruction_counter = self.instruction_counter + 1;
                Ok(())
            }
            Instruction::NotEqualsI(bool_var_id, lvalue_id, rvalue) => {
                let lvalue = match self.get_variable(*lvalue_id) {
                    Ok(v) => v,
                    Err(e) => { return Err(e) },
                };
                let result = match op_not_equals(lvalue.clone(), rvalue.clone()) {
                    Ok(v) => v,
                    Err(e) => { return Err(e) },
                };
                match self.set_variable(*bool_var_id, result) {
                    Ok(()) => {}
                    Err(e) => { return Err(e) },
                }
                self.instruction_counter = self.instruction_counter + 1;
                Ok(())
            }
            Instruction::Goto(instruction_number) => {
                self.instruction_counter = *instruction_number;
                Ok(())
            }
            Instruction::GotoIfTrue(instruction_number, bool_var_id) => {
                let value = match self.get_variable(*bool_var_id) {
                    Ok(v) => v,
                    Err(e) => { return Err(e) },
                };
                match value.get_bool() {
                    Some(true) => {
                        self.instruction_counter = *instruction_number;
                    }
                    Some(false) => {
                        self.instruction_counter = self.instruction_counter + 1;
                    }
                    None => { return Err(InterpreterError::GotoNonBoolean) },
                }
                Ok(())
            }
            Instruction::PushFunctionParameter(var_id) => {
                let value = match self.get_variable(*var_id) {
                    Ok(v) => v.clone(),
                    Err(e) => { return Err(e) },
                };
                self.function_parameter_stack.push(value);
                self.instruction_counter = self.instruction_counter + 1;
                proof {
                    assert(self@.queue =~= old(self)@.queue.push(
                        old(self)@.slots[instr->PushFunctionParameter_0 as int],
                    ));
                }
                Ok(())
            }
            Instruction::CallNativeVoidMethod(var_id, method_id) => {
                let push_value = match self.function_parameter_stack.pop() {
                    Some(v) => v,
                    None => {
                        return Err(InterpreterError::FunctionCallParameterStackEmptyPop(
                            *method_id,
                        ))
                    },
                };
                proof {
                    assert(self@.queue =~= old(self)@.queue.drop_last());
                }
                let r = self.array_push(*var_id, push_value);
                r
            }
            Instruction::CallNativeMethod(var_id, value_return_store, _method_id) => {
                let len = {
                    let array = match self.get_variable(*var_id) {
                        Ok(v) => v,
                        Err(e) => { return Err(e) },
                    };
                    let values = match array {
                        Value::Array(values) => values,
                        _ => {
                            return Err(InterpreterError::ArrayOperationOnNonArrayValue(
                                array.get_type(),
                            ))
                        },
                    };
                    values.len()
                };
                match self.set_variable(*value_return_store, Value::U64(len as u64)) {
                    Ok(()) => {}
                    Err(e) => { return Err(e) },
                }
                self.instruction_counter = self.instruction_counter + 1;
                Ok(())
            }
            _ => vstd::pervasive::unreached(),
        }
    }

    /// Overwrite one element of the array held in slot `var_id`, then move
    /// to the next instruction.
    fn array_set_index(&mut self, var_id: VariableIdType, index: usize, value: Value) -> (r:
        Result<(), InterpreterError>)
        requires
            old(self)@.ic < usize::MAX as int,
        ensures
            ({
                let f = old(self)@;
                match spec_get_slot(f, var_id) {
                    Err(e) => (r matches Err(er) && er@ == e) && final(self)@ == f,
                    Ok(arrv) => if !(arrv is Array) {
                        (r matches Err(er) && er@ == ErrorView::ArrayOperationOnNonArrayValue(
                            spec_type_of(arrv),
                        )) && final(self)@ == f
                    } else {
                        match spec_array_set(f, var_id, arrv->Array_0, arrv->Array_1, index, value@) {
                            Ok(f2) => r == Ok::<(), InterpreterError>(()) && final(self)@ == f2,
                            Err(e) => (r matches Err(er) && er@ == e) && final(self)@.slots
                                =~= f.slots && final(self)@.ic == f.ic && final(self)@.queue
                                == f.queue && final(self)@.pending == f.pending
                                && final(self)@.function_id == f.function_id,
                        }
                    },
                }
            }),
    {
        let idx = var_id as usize;
        if idx >= self.variables.len() {
            return Err(InterpreterError::VariableDoesNotExist(var_id));
        }
        let ghost old_slots = self@.slots;
        let ghost vv = value@;
        let slot = &mut self.variables[idx];
        match slot {
            Value::Array(values) => {
                let r = values.set_index(index, value);
                match r {
                    Ok(()) => {
                        self.instruction_counter = self.instruction_counter + 1;
                        proof {
                            assert(self@.slots =~= old_slots.update(
                                var_id as int,
                                ValueView::Array(
                                    old_slots[var_id as int]->Array_0,
                                    old_slots[var_id as int]->Array_1.update(index as int, vv),
                                ),
                            ));
                        }
                        Ok(())
                    }
                    Err(e) => {
                        proof {
                            assert(self@.slots =~= old_slots);
                        }
                        Err(e)
                    }
                }
            }
            _ => {
                let t = slot.get_type();
                proof {
                    assert(self@.slots =~= old_slots);
                }
                Err(InterpreterError::ArrayOperationOnNonArrayValue(t))
            }
        }
    }

    /// Append a value to the array held in slot `var_id`, then move to the
    /// next instruction.
    fn array_push(&mut self, var_id: VariableIdType, value: Value) -> (r: Result<
        (),
        InterpreterError,
    >)
        requires
            old(self)@.ic < usize::MAX as int,
        ensures
            ({
                let f = old(self)@;
                match spec_get_slot(f, var_id) {
                    Err(e) => (r matches Err(er) && er@ == e) && final(self)@ == f,
                    Ok(arrv) => if !(arrv is Array) {
                        (r matches Err(er) && er@ == ErrorView::ArrayOperationOnNonArrayValue(
                            spec_type_of(arrv),
                        )) && final(self)@ == f
                    } else {
                        let t = arrv->Array_0;
                        let es = arrv->Array_1;
                        if spec_type_of(value@) != t {
                            (r matches Err(er) && er@
                                == ErrorView::ArrayTypeIncompatibleWithPushValue(
                                VariableType::Array(Box::new(t)),
                                spec_type_of(value@),
                            )) && final(self)@.slots =~= f.slots && final(self)@.ic == f.ic
                                && final(self)@.queue == f.queue && final(self)@.pending
                                == f.pending && final(self)@.function_id == f.function_id
                        } else {
                            r == Ok::<(), InterpreterError>(()) && final(self)@ == (FrameView {
                                slots: f.slots.update(
                                    var_id as int,
                                    ValueView::Array(t, es.push(value@)),
                                ),
                                ic: f.ic + 1,
                                ..f
                            })
                        }
                    },
                }
            }),
    {
        let idx = var_id as usize;
        if idx >= self.variables.len() {
            return Err(InterpreterError::VariableDoesNotExist(var_id));
        }
        let ghost old_slots = self@.slots;
        let ghost vv = value@;
        let slot = &mut self.variables[idx];
        match slot {
            Value::Array(values) => {
                let r = values.push(value);
                match r {
                    Ok(()) => {
                        self.instruction_counter = self.instruction_counter + 1;
                        proof {
                            assert(self@.slots =~= old_slots.update(
                                var_id as int,
                                ValueView::Array(
                                    old_slots[var_id as int]->Array_0,
                                    old_slots[var_id as int]->Array_1.push(vv),
                                ),
                            ));
                        }
                        Ok(())
                    }
                    Err(e) => {
                        proof {
                            assert(self@.slots =~= old_slots);
                        }
                        Err(e)
                    }
                }
            }
            _ => {
                let t = slot.get_type();
                proof {
                    assert(self@.slots =~= old_slots);
                }
                Err(InterpreterError::ArrayOperationOnNonArrayValue(t))
            }
        }
    }
}

} // verus!

verus! {

/// Relies on std::io::Stdout through the writeln macro: prints one value's
/// debug rendering as a line on standard output, the VM's only I/O.
#[verifier::external_body]
fn print_value(value: &Value) {
    let mut out = std::io::stdout();
    let _ = writeln!(out, "Println {:?}", value);
}

/// Bind the callee's declared parameters from the caller's queue, last
/// parameter first, into the staged callee frame.
#[verifier::loop_isolation(false)]
fn bind_call_params(
    caller: &mut ExecutionContext,
    callee: &Function,
    fid: FunctionIdType,
    new_context: &mut ExecutionContext,
) -> (r: Result<(), InterpreterError>)
    ensures
        match spec_bind_params(
            old(caller)@.queue,
            callee.spec_parameters(),
            old(new_context)@,
            fid,
        ) {
            Ok(p) => r == Ok::<(), InterpreterError>(()) && final(new_context)@ == p.1
                && final(caller)@ == (FrameView { queue: p.0, ..old(caller)@ }),
            Err(e) => (r matches Err(er) && er@ == e),
        },
{
    let ghost q0 = old(caller)@.queue;
    let ghost caller0 = old(caller)@;
    let ghost cf0 = old(new_context)@;
    let ghost params = callee.spec_parameters();
    let mut j = callee.parameters.len();
    proof {
        assert(params.take(j as int) =~= params);
        assert(caller@ == (FrameView { queue: caller@.queue, ..caller0 }));
    }
    while j > 0
        invariant
            j <= params.len(),
            callee.spec_parameters() == params,
            j <= callee.parameters.len(),
            caller@ == (FrameView { queue: caller@.queue, ..caller0 }),
            spec_bind_params(q0, params, cf0, fid) == spec_bind_params(
                caller@.queue,
                params.take(j as int),
                new_context@,
                fid,
            ),
        decreases j,
    {
        j = j - 1;
        let ghost q_before = caller@.queue;
        let ghost cf_before = new_context@;
        proof {
            assert(params.take(j as int + 1).last() == params[j as int]);
            assert(params.take(j as int + 1).drop_last() =~= params.take(j as int));
            assert(spec_bind_params(q0, params, cf0, fid) == spec_bind_params(
                q_before,
                params.take(j as int + 1),
                cf_before,
                fid,
            ));
        }
        let param_value = match caller.function_parameter_stack.pop() {
            Some(v) => v,
            None => {
                proof {
                    assert(q_before.len() == 0);
                    assert(params.take(j as int + 1).len() > 0);
                    assert(spec_bind_params(q_before, params.take(j as int + 1), cf_before, fid)
                        == Err::<(Seq<ValueView>, FrameView), ErrorView>(
                        ErrorView::FunctionCallParameterStackEmptyPop(fid),
                    ));
                }
                return Err(InterpreterError::FunctionCallParameterStackEmptyPop(fid));
            },
        };
        proof {
            assert(caller@.queue =~= q_before.drop_last());
            assert(param_value@ == q_before.last());
        }
        let value_type = param_value.get_type();
        if !types_equal(&value_type, &callee.parameters[j]) {
            proof {
                assert(spec_type_of(q_before.last()) != params.take(j as int + 1).last());
                assert(spec_bind_params(q_before, params.take(j as int + 1), cf_before, fid)
                    == Err::<(Seq<ValueView>, FrameView), ErrorView>(
                    ErrorView::FunctionCallParametersInvalid(fid, false),
                ));
            }
            return Err(InterpreterError::FunctionCallParametersInvalid(fid, false));
        }
        match new_context.set_variable(j as VariableIdType, param_value) {
            Ok(()) => {
                proof {
                    assert(spec_bind_params(q0, params, cf0, fid) == spec_bind_params(
                        caller@.queue,
                        params.take(j as int),
                        new_context@,
                        fid,
                    ));
                }
            }
            Err(e) => {
                proof {
                    assert(spec_bind_params(q_before, params.take(j as int + 1), cf_before, fid)
                        matches Err(ev) && ev == e@);
                }
                return Err(e);
            },
        }
    }
    proof {
        assert(params.take(0) =~= Seq::<VariableType>::empty());
    }
    Ok(())
}

impl Interpreter {
    /// Every value printed so far, in dispatch order.
    pub fn output(&self) -> (r: &Vec<Value>)
        ensures
            r@.map_values(|v: Value| v@) == self.machine().output,
    {
        &self.output
    }

    /// One dispatch step: resolve the active frame's function, consume a
    /// pending return value, then execute the current instruction (or
    /// discard the frame past its last instruction).
    #[verifier::rlimit(100)]
    fn step(&mut self) -> (r: Result<(), InterpreterError>)
        requires
            old(self).machine().frames.len() > 0,
        ensures
            final(self).funcs() == old(self).funcs(),
            match r {
                Ok(()) => (spec_step(old(self).funcs(), old(self).machine()) matches Ok(m2)
                    && final(self).machine() == m2),
                Err(e) => (spec_step(old(self).funcs(), old(self).machine()) matches Err(ev) && ev
                    == e@),
            },
    {
        let ghost funcs = self.funcs();
        let ghost m0 = self.machine();
        let ghost f0 = m0.frames.last();
        let mut context = match self.callstack.pop() {
            Some(c) => c,
            None => vstd::pervasive::unreached(),
        };
        proof {
            assert(context@ == f0);
            assert(self.machine().frames =~= m0.frames.drop_last());
        }
        if !self.program.functions.contains_key(&context.function_id) {
            return Err(InterpreterError::FunctionDoesNotExist(context.function_id));
        }
        // Consume an outstanding return value before decoding anything.
        if let Some(return_to_var_id) = context.expecting_return_value {
            let return_value = self.return_value_storage.take();
            match return_value {
                None => {
                    return Err(InterpreterError::NoReturnValue);
                },
                Some(value) => {
                    match context.set_variable(return_to_var_id, value) {
                        Ok(()) => {}
                        Err(e) => {
                            return Err(e);
                        },
                    }
                    context.expecting_return_value = None;
                },
            }
        }
        let ghost f1 = context@;
        let ghost m1 = MachineView {
            frames: m0.frames.update(m0.frames.len() - 1, f1),
            ret: self.machine().ret,
            output: m0.output,
        };
        proof {
            assert(spec_consume_pending(f0, m0.ret) == Ok::<
                (FrameView, Option<ValueView>),
                ErrorView,
            >((f1, m1.ret)));
            assert(m1.frames.last() == f1);
            assert(spec_step(funcs, m0) == spec_dispatch(funcs, m1));
        }
        let func = match self.program.get_function(context.function_id) {
            Ok(f) => f,
            Err(_) => vstd::pervasive::unreached(),
        };
        if context.instruction_counter >= func.instructions.len() {
            // Falling past the last instruction ends the frame.
            proof {
                assert(self.machine().frames =~= m1.frames.drop_last());
            }
            return Ok(());
        }
        let instr = &func.instructions[context.instruction_counter];
        match instr {
            Instruction::Return(var_id_to_return) => {
                let value = match context.get_variable(*var_id_to_return) {
                    Ok(v) => v.clone(),
                    Err(e) => {
                        return Err(e);
                    },
                };
                self.return_value_storage = Some(value);
                proof {
                    assert(self.machine().frames =~= m1.frames.drop_last());
                }
                Ok(())
            }
            Instruction::CallFunction(function_id, return_value_destination_id) => {
                context.instruction_counter = context.instruction_counter + 1;
                context.expecting_return_value = Some(*return_value_destination_id);
                let callee = match self.program.get_function(*function_id) {
                    Ok(f) => f,
                    Err(e) => {
                        return Err(e);
                    },
                };
                if callee.return_type.is_none() {
                    return Err(InterpreterError::ExpectingReturnCallToVoidFunction(*function_id));
                }
                let mut new_context = ExecutionContext::new(callee, *function_id);
                match bind_call_params(&mut context, callee, *function_id, &mut new_context) {
                    Ok(()) => {}
                    Err(e) => {
                        return Err(e);
                    },
                }
                self.callstack.push(context);
                self.callstack.push(new_context);
                proof {
                    assert(spec_call(funcs, m1, f1, instr->CallFunction_0, Some(
                        instr->CallFunction_1,
                    )) matches Ok(m2) ==> self.machine().frames =~= m2.frames);
                }
                Ok(())
            }
            Instruction::CallVoidFunction(function_id) => {
                context.instruction_counter = context.instruction_counter + 1;
                let callee = match self.program.get_function(*function_id) {
                    Ok(f) => f,
                    Err(e) => {
                        return Err(e);
                    },
                };
                if callee.return_type.is_some() {
                    return Err(InterpreterError::VoidCallToNonVoidFunction(*function_id));
                }
                let mut new_context = ExecutionContext::new(callee, *function_id);
                match bind_call_params(&mut context, callee, *function_id, &mut new_context) {
                    Ok(()) => {}
                    Err(e) => {
                        return Err(e);
                    },
                }
                self.callstack.push(context);
                self.callstack.push(new_context);
                proof {
                    assert(spec_call(funcs, m1, f1, instr->CallVoidFunction_0, None)
                        matches Ok(m2) ==> self.machine().frames =~= m2.frames);
                }
                Ok(())
            }
            Instruction::CallNativeVoidFunction(native_function_id) => {
                let value = match context.function_parameter_stack.pop() {
                    Some(v) => v,
                    None => {
                        return Err(InterpreterError::FunctionCallParametersInvalid(
                            *native_function_id,
                            true,
                        ));
                    },
                };
                if context.function_parameter_stack.len() != 0 {
                    return Err(InterpreterError::FunctionCallParametersInvalid(
                        *native_function_id,
                        true,
                    ));
                }
                print_value(&value);
                self.output.push(value);
                context.instruction_counter = context.instruction_counter + 1;
                self.callstack.push(context);
                proof {
                    assert(context@.queue =~= Seq::<ValueView>::empty());
                    assert(self.machine().output =~= m1.output.push(f1.queue.last()));
                    assert(self.machine().frames =~= m1.frames.update(
                        m1.frames.len() - 1,
                        FrameView { queue: Seq::empty(), ic: f1.ic + 1, ..f1 },
                    ));
                }
                Ok(())
            }
            Instruction::Mul(..) | Instruction::Div(..) | Instruction::MulI(..)
                | Instruction::DivI(..) | Instruction::GreaterThan(..)
                | Instruction::GreaterThanI(..) | Instruction::LessThanOrEqual(..)
                | Instruction::LessThanOrEqualI(..) | Instruction::GreaterThanOrEqual(..)
                | Instruction::GreaterThanOrEqualI(..) | Instruction::Or(..)
                | Instruction::And(..) | Instruction::Xor(..) | Instruction::Not(..)
                | Instruction::SetArrayIIndex(..) | Instruction::GetArrayIndexI(..) => {
                // Reserved opcodes fail deterministically.
                Err(InterpreterError::NotImplemented)
            }
            _ => {
                match context.exec_frame_instr(instr) {
                    Ok(()) => {}
                    Err(e) => {
                        return Err(e);
                    },
                }
                self.callstack.push(context);
                proof {
                    assert(self.machine().frames =~= m1.frames.update(
                        m1.frames.len() - 1,
                        context@,
                    ));
                }
                Ok(())
            }
        }
    }

    /// Run the staged program until the call stack drains, an instruction
    /// fails, or the step budget runs out: the executable image of
    /// `spec_run` over `STEP_LIMIT` dispatch steps.
    #[verifier::rlimit(100)]
    pub fn execute(&mut self) -> (r: Result<(), InterpreterError>)
        ensures
            final(self).funcs() == old(self).funcs(),
            match r {
                Ok(()) => (spec_run(old(self).funcs(), old(self).machine(), STEP_LIMIT as nat)
                    matches RunOutcome::Finished(mf) && final(self).machine() == mf),
                Err(e) => (spec_run(old(self).funcs(), old(self).machine(), STEP_LIMIT as nat)
                    matches RunOutcome::Failed(ev) && ev == e@) || (e
                    == InterpreterError::StepLimitReached && spec_run(
                    old(self).funcs(),
                    old(self).machine(),
                    STEP_LIMIT as nat,
                ) is OutOfFuel),
            },
    {
        let ghost funcs = self.funcs();
        let ghost m0 = self.machine();
        let mut fuel: u64 = STEP_LIMIT;
        loop
            invariant
                self.funcs() == funcs,
                funcs == old(self).funcs(),
                m0 == old(self).machine(),
                spec_run(funcs, m0, STEP_LIMIT as nat) == spec_run(
                    funcs,
                    self.machine(),
                    fuel as nat,
                ),
            decreases fuel,
        {
            let ghost m_before = self.machine();
            let ghost fuel_before = fuel;
            if self.callstack.len() == 0 {
                proof {
                    assert(self.machine().frames =~= Seq::<FrameView>::empty());
                    assert(spec_run(funcs, m_before, fuel as nat) == RunOutcome::Finished(
                        m_before,
                    ));
                }
                return Ok(());
            }
            if fuel == 0 {
                return Err(InterpreterError::StepLimitReached);
            }
            fuel = fuel - 1;
            match self.step() {
                Ok(()) => {
                    proof {
                        assert(spec_run(funcs, m_before, fuel_before as nat) == spec_run(
                            funcs,
                            self.machine(),
                            fuel as nat,
                        ));
                    }
                }
                Err(e) => {
                    proof {
                        assert(spec_run(funcs, m_before, fuel_before as nat)
                            == RunOutcome::Failed(e@));
                    }
                    return Err(e);
                },
            }
        }
    }
}

} // verus!

verus! {

/// Slot typing holds of every reachable state: a well-typed machine that
/// runs to completion (or to the step budget) passes through well-typed
/// states only, since each step preserves well-typedness.
pub proof fn lemma_run_preserves_typing(
    funcs: Map<FunctionIdType, Function>,
    m: MachineView,
    fuel: nat,
)
    requires
        machine_wf(funcs, m),
    ensures
        spec_run(funcs, m, fuel) matches RunOutcome::Finished(mf) ==> machine_wf(funcs, mf),
        spec_run(funcs, m, fuel) matches RunOutcome::OutOfFuel(mf) ==> machine_wf(funcs, mf),
    decreases fuel,
{
    if m.frames.len() > 0 && fuel > 0 {
        match spec_step(funcs, m) {
            Ok(m2) => {
                lemma_step_preserves_typing(funcs, m);
                lemma_run_preserves_typing(funcs, m2, (fuel - 1) as nat);
            }
            Err(_) => {}
        }
    }
}

} // verus!
