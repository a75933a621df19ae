use crate::interpreter_error::{ErrorView, InterpreterError};
use vstd::prelude::*;

verus! {

pub type StringIdType = u16;

pub type VariableIdType = u16;

pub type ArrayIdType = u16;

pub type FunctionIdType = u16;

/// The closed set of primitive types. Type equality is structural:
/// `Array(U8)` differs from `Array(U16)`.
#[derive(Debug)]
pub enum VariableType {
    U8,
    U16,
    U32,
    U64,
    String,
    Array(Box<VariableType>),
    Bool,
}

/// A tagged value carrier: exactly one primitive payload.
#[derive(Debug)]
pub enum Value {
    Bool(bool),
    U8(u8),
    U16(u16),
    U32(u32),
    U64(u64),
    String(String),
    Array(ArrayValue),
}

/// A typed array: one packed homogeneous storage per element type, plus a
/// recursive variant for arrays of arrays (tagged with the inner arrays'
/// element type).
#[derive(Debug)]
pub enum ArrayValue {
    BoolArray(Vec<bool>),
    U8Array(Vec<u8>),
    U16Array(Vec<u16>),
    U32Array(Vec<u32>),
    U64Array(Vec<u64>),
    StringArray(Vec<String>),
    ArrayArray(VariableType, Vec<ArrayValue>),
}

/// Mathematical image of a `Value`: strings become character sequences and
/// arrays become an element type together with the sequence of element views.
pub ghost enum ValueView {
    Bool(bool),
    U8(u8),
    U16(u16),
    U32(u32),
    U64(u64),
    Str(Seq<char>),
    Array(VariableType, Seq<ValueView>),
}

/// The type tag a view projects.
pub open spec fn spec_type_of(v: ValueView) -> VariableType {
    match v {
        ValueView::Bool(_) => VariableType::Bool,
        ValueView::U8(_) => VariableType::U8,
        ValueView::U16(_) => VariableType::U16,
        ValueView::U32(_) => VariableType::U32,
        ValueView::U64(_) => VariableType::U64,
        ValueView::Str(_) => VariableType::String,
        ValueView::Array(t, _) => VariableType::Array(Box::new(t)),
    }
}

/// Whether a view carries one of the unsigned integer payloads.
pub open spec fn spec_is_numeric(v: ValueView) -> bool {
    v is U8 || v is U16 || v is U32 || v is U64
}

/// The integer payload of a numeric view.
pub open spec fn spec_numeric_value(v: ValueView) -> int {
    match v {
        ValueView::U8(x) => x as int,
        ValueView::U16(x) => x as int,
        ValueView::U32(x) => x as int,
        ValueView::U64(x) => x as int,
        _ => 0,
    }
}

/// The element type an array value declares.
pub open spec fn spec_inner_type(a: ArrayValue) -> VariableType {
    match a {
        ArrayValue::BoolArray(_) => VariableType::Bool,
        ArrayValue::U8Array(_) => VariableType::U8,
        ArrayValue::U16Array(_) => VariableType::U16,
        ArrayValue::U32Array(_) => VariableType::U32,
        ArrayValue::U64Array(_) => VariableType::U64,
        ArrayValue::StringArray(_) => VariableType::String,
        ArrayValue::ArrayArray(t, _) => VariableType::Array(Box::new(t)),
    }
}

/// The element views an array value holds, in storage order.
pub open spec fn spec_elems(a: ArrayValue) -> Seq<ValueView>
    decreases a,
    via spec_elems_decreases
{
    match a {
        ArrayValue::BoolArray(v) => v@.map_values(|b: bool| ValueView::Bool(b)),
        ArrayValue::U8Array(v) => v@.map_values(|x: u8| ValueView::U8(x)),
        ArrayValue::U16Array(v) => v@.map_values(|x: u16| ValueView::U16(x)),
        ArrayValue::U32Array(v) => v@.map_values(|x: u32| ValueView::U32(x)),
        ArrayValue::U64Array(v) => v@.map_values(|x: u64| ValueView::U64(x)),
        ArrayValue::StringArray(v) => v@.map_values(|s: String| ValueView::Str(s@)),
        ArrayValue::ArrayArray(_, v) => spec_elems_of_arrays(v@),
    }
}

/// The views of a sequence of array values.
pub open spec fn spec_elems_of_arrays(s: Seq<ArrayValue>) -> Seq<ValueView>
    decreases s,
    via spec_elems_of_arrays_decreases
{
    if s.len() == 0 {
        Seq::empty()
    } else {
        spec_elems_of_arrays(s.drop_last()).push(
            ValueView::Array(spec_inner_type(s.last()), spec_elems(s.last())),
        )
    }
}

#[via_fn]
proof fn spec_elems_decreases(a: ArrayValue) {
    broadcast use vstd::seq::group_seq_axioms;

    if a is ArrayArray {
        let v = a->ArrayArray_1;
        assert(decreases_to!(a => v));
        assert(decreases_to!(v => v@));
    }
}

#[via_fn]
proof fn spec_elems_of_arrays_decreases(s: Seq<ArrayValue>) {
    broadcast use vstd::seq::group_seq_axioms;

    if s.len() > 0 {
        assert(decreases_to!(s => s.drop_last()));
        assert(decreases_to!(s => s.last()));
    }
}

/// The view of an array value: its element type and element views.
pub open spec fn spec_array_view(a: ArrayValue) -> ValueView {
    ValueView::Array(spec_inner_type(a), spec_elems(a))
}

impl View for ArrayValue {
    type V = ValueView;

    open spec fn view(&self) -> ValueView {
        spec_array_view(*self)
    }
}

impl View for Value {
    type V = ValueView;

    open spec fn view(&self) -> ValueView {
        match *self {
            Value::Bool(b) => ValueView::Bool(b),
            Value::U8(x) => ValueView::U8(x),
            Value::U16(x) => ValueView::U16(x),
            Value::U32(x) => ValueView::U32(x),
            Value::U64(x) => ValueView::U64(x),
            Value::String(s) => ValueView::Str(s@),
            Value::Array(a) => spec_array_view(a),
        }
    }
}

/// Element views of a sequence of array values, stated pointwise.
pub proof fn lemma_elems_of_arrays(s: Seq<ArrayValue>)
    ensures
        spec_elems_of_arrays(s).len() == s.len(),
        forall|i: int|
            0 <= i < s.len() ==> spec_elems_of_arrays(s)[i] == spec_array_view(s[i]),
    decreases s.len(),
{
    if s.len() > 0 {
        lemma_elems_of_arrays(s.drop_last());
    }
}

} // verus!

verus! {

/// Structural copy of a type tag.
pub fn clone_variable_type(t: &VariableType) -> (res: VariableType)
    ensures
        res == *t,
    decreases *t,
{
    match t {
        VariableType::U8 => VariableType::U8,
        VariableType::U16 => VariableType::U16,
        VariableType::U32 => VariableType::U32,
        VariableType::U64 => VariableType::U64,
        VariableType::String => VariableType::String,
        VariableType::Bool => VariableType::Bool,
        VariableType::Array(inner) => {
            proof {
                assert(decreases_to!(*t => (*t)->Array_0));
            }
            VariableType::Array(Box::new(clone_variable_type(&**inner)))
        }
    }
}

impl Clone for VariableType {
    fn clone(&self) -> (res: Self)
        ensures
            res == *self,
    {
        clone_variable_type(self)
    }
}

/// Structural equality of two type tags.
pub fn types_equal(a: &VariableType, b: &VariableType) -> (r: bool)
    ensures
        r == (*a == *b),
    decreases *a,
{
    match (a, b) {
        (VariableType::U8, VariableType::U8) => true,
        (VariableType::U16, VariableType::U16) => true,
        (VariableType::U32, VariableType::U32) => true,
        (VariableType::U64, VariableType::U64) => true,
        (VariableType::String, VariableType::String) => true,
        (VariableType::Bool, VariableType::Bool) => true,
        (VariableType::Array(x), VariableType::Array(y)) => {
            proof {
                assert(decreases_to!(*a => (*a)->Array_0));
            }
            types_equal(&**x, &**y)
        }
        _ => false,
    }
}

/// Structural copy of an array value.
pub fn clone_array_value(a: &ArrayValue) -> (res: ArrayValue)
    ensures
        res@ == a@,
    decreases *a,
{
    match a {
            ArrayValue::BoolArray(v) => {
                let c = v.clone();
                proof {
                    assert(c@ =~= v@);
                }
                ArrayValue::BoolArray(c)
            }
            ArrayValue::U8Array(v) => {
                let c = v.clone();
                proof {
                    assert(c@ =~= v@);
                }
                ArrayValue::U8Array(c)
            }
            ArrayValue::U16Array(v) => {
                let c = v.clone();
                proof {
                    assert(c@ =~= v@);
                }
                ArrayValue::U16Array(c)
            }
            ArrayValue::U32Array(v) => {
                let c = v.clone();
                proof {
                    assert(c@ =~= v@);
                }
                ArrayValue::U32Array(c)
            }
            ArrayValue::U64Array(v) => {
                let c = v.clone();
                proof {
                    assert(c@ =~= v@);
                }
                ArrayValue::U64Array(c)
            }
            ArrayValue::StringArray(v) => {
                let c = v.clone();
                proof {
                    assert(c@ =~= v@);
                }
                ArrayValue::StringArray(c)
            }
            ArrayValue::ArrayArray(t, v) => {
                let mut c: Vec<ArrayValue> = Vec::new();
                let mut i: usize = 0;
                while i < v.len()
                    invariant
                        *a is ArrayArray,
                        *v == (*a)->ArrayArray_1,
                        i <= v@.len(),
                        c@.len() == i,
                        forall|j: int| 0 <= j < i ==> c@[j]@ == v@[j]@,
                    decreases v@.len() - i,
                {
                    proof {
                        broadcast use vstd::seq::group_seq_axioms;

                        assert(decreases_to!(*a => (*a)->ArrayArray_1));
                        assert(decreases_to!(*v => v@));
                        assert(decreases_to!(v@ => v@[i as int]));
                    }
                    let e = clone_array_value(&v[i]);
                    c.push(e);
                    i = i + 1;
                }
                proof {
                    lemma_elems_of_arrays(c@);
                    lemma_elems_of_arrays(v@);
                    assert(spec_elems_of_arrays(c@) =~= spec_elems_of_arrays(v@));
                }
                ArrayValue::ArrayArray(t.clone(), c)
            }
    }
}

impl Clone for ArrayValue {
    fn clone(&self) -> (res: Self)
        ensures
            res@ == self@,
    {
        clone_array_value(self)
    }
}

impl Clone for Value {
    fn clone(&self) -> (res: Self)
        ensures
            res@ == self@,
    {
        match self {
            Value::Bool(b) => Value::Bool(*b),
            Value::U8(x) => Value::U8(*x),
            Value::U16(x) => Value::U16(*x),
            Value::U32(x) => Value::U32(*x),
            Value::U64(x) => Value::U64(*x),
            Value::String(s) => Value::String(s.clone()),
            Value::Array(a) => Value::Array(a.clone()),
        }
    }
}

} // verus!

verus! {

/// The index an unsigned-integer view denotes, truncated as a `usize` cast
/// truncates.
pub open spec fn spec_to_index(v: ValueView) -> usize {
    match v {
        ValueView::U8(x) => x as usize,
        ValueView::U16(x) => x as usize,
        ValueView::U32(x) => x as usize,
        ValueView::U64(x) => x as usize,
        _ => 0,
    }
}

impl Value {
    /// The type tag this value carries.
    pub fn get_type(&self) -> (t: VariableType)
        ensures
            t == spec_type_of(self@),
    {
        match self {
            Value::U8(_) => VariableType::U8,
            Value::U16(_) => VariableType::U16,
            Value::U32(_) => VariableType::U32,
            Value::U64(_) => VariableType::U64,
            Value::String(_) => VariableType::String,
            Value::Array(array) => array.get_type(),
            Value::Bool(_) => VariableType::Bool,
        }
    }

    /// Whether this value is one of the unsigned integer widths.
    pub fn is_number(&self) -> (r: bool)
        ensures
            r == spec_is_numeric(self@),
    {
        match self {
            Value::U8(_) | Value::U16(_) | Value::U32(_) | Value::U64(_) => true,
            _ => false,
        }
    }

    /// Whether this value is a boolean.
    pub fn is_bool(&self) -> (r: bool)
        ensures
            r == (self@ is Bool),
    {
        match self {
            Value::Bool(_) => true,
            _ => false,
        }
    }

    /// The boolean payload, if this value is a boolean.
    pub fn get_bool(&self) -> (r: Option<bool>)
        ensures
            self@ is Bool ==> r == Some(self@->Bool_0),
            !(self@ is Bool) ==> r is None,
    {
        if let Value::Bool(b) = self {
            return Some(*b);
        }
        None
    }

    /// The value read as an array index; only unsigned integers qualify.
    pub fn to_usize(&self) -> (r: Result<usize, InterpreterError>)
        ensures
            spec_is_numeric(self@) ==> r == Ok::<usize, InterpreterError>(spec_to_index(self@)),
            !spec_is_numeric(self@) ==> (r matches Err(e) && e@ == ErrorView::ValueIsNotNumeric(
                self@,
            )),
    {
        Ok(
            match self {
                Value::U8(v) => *v as usize,
                Value::U16(v) => *v as usize,
                Value::U32(v) => *v as usize,
                Value::U64(v) => *v as usize,
                _ => { return Err(InterpreterError::ValueIsNotNumeric(self.clone())) },
            },
        )
    }
}

impl ArrayValue {
    /// An empty array whose elements will have the given type.
    pub fn new(array_type: VariableType) -> (a: Self)
        ensures
            spec_inner_type(a) == array_type,
            spec_elems(a) == Seq::<ValueView>::empty(),
    {
        let a = match array_type {
            VariableType::U8 => ArrayValue::U8Array(Vec::new()),
            VariableType::U16 => ArrayValue::U16Array(Vec::new()),
            VariableType::U32 => ArrayValue::U32Array(Vec::new()),
            VariableType::U64 => ArrayValue::U64Array(Vec::new()),
            VariableType::String => ArrayValue::StringArray(Vec::new()),
            VariableType::Array(sub_array_type) => ArrayValue::ArrayArray(
                *sub_array_type,
                Vec::new(),
            ),
            VariableType::Bool => ArrayValue::BoolArray(Vec::new()),
        };
        proof {
            assert(spec_elems(a) =~= Seq::<ValueView>::empty());
        }
        a
    }

    /// The element type this array declares.
    pub fn get_inner_type(&self) -> (t: VariableType)
        ensures
            t == spec_inner_type(*self),
    {
        match self {
            ArrayValue::BoolArray(_) => VariableType::Bool,
            ArrayValue::U8Array(_) => VariableType::U8,
            ArrayValue::U16Array(_) => VariableType::U16,
            ArrayValue::U32Array(_) => VariableType::U32,
            ArrayValue::U64Array(_) => VariableType::U64,
            ArrayValue::StringArray(_) => VariableType::String,
            ArrayValue::ArrayArray(a, _) => VariableType::Array(Box::new(a.clone())),
        }
    }

    /// The full type of this array value: an array of its element type.
    pub fn get_type(&self) -> (t: VariableType)
        ensures
            t == spec_type_of(self@),
    {
        VariableType::Array(Box::new(self.get_inner_type()))
    }

    /// The number of elements held.
    pub fn len(&self) -> (n: usize)
        ensures
            n == spec_elems(*self).len(),
    {
        match self {
            ArrayValue::BoolArray(a) => a.len(),
            ArrayValue::U8Array(a) => a.len(),
            ArrayValue::U16Array(a) => a.len(),
            ArrayValue::U32Array(a) => a.len(),
            ArrayValue::U64Array(a) => a.len(),
            ArrayValue::StringArray(a) => a.len(),
            ArrayValue::ArrayArray(_, a) => {
                proof {
                    lemma_elems_of_arrays(a@);
                }
                a.len()
            }
        }
    }

    /// Whether the array holds no elements.
    pub fn is_empty(&self) -> (r: bool)
        ensures
            r == (spec_elems(*self).len() == 0),
    {
        self.len() == 0
    }

    /// A fresh copy of the element at `index`; out-of-range indices are
    /// rejected.
    pub fn get_index(&self, index: usize) -> (r: Result<Value, InterpreterError>)
        ensures
            index < spec_elems(*self).len() ==> (r matches Ok(v) && v@ == spec_elems(
                *self,
            )[index as int]),
            index >= spec_elems(*self).len() ==> r == Err::<Value, InterpreterError>(
                InterpreterError::ArrayIndexBeyondBounds(index),
            ),
    {
        if index >= self.len() {
            return Err(InterpreterError::ArrayIndexBeyondBounds(index));
        }
        Ok(
            match self {
                ArrayValue::BoolArray(v) => Value::Bool(v[index]),
                ArrayValue::U8Array(v) => Value::U8(v[index]),
                ArrayValue::U16Array(v) => Value::U16(v[index]),
                ArrayValue::U32Array(v) => Value::U32(v[index]),
                ArrayValue::U64Array(v) => Value::U64(v[index]),
                ArrayValue::StringArray(v) => Value::String(v[index].clone()),
                ArrayValue::ArrayArray(_, v) => {
                    proof {
                        lemma_elems_of_arrays(v@);
                    }
                    Value::Array(v[index].clone())
                }
            },
        )
    }
}

} // verus!

verus! {

impl ArrayValue {
    /// Append `value`; its type must match the element type. The element
    /// type itself never changes.
    pub fn push(&mut self, value: Value) -> (r: Result<(), InterpreterError>)
        ensures
            spec_inner_type(*final(self)) == spec_inner_type(*old(self)),
            spec_type_of(value@) == spec_inner_type(*old(self)) ==> r == Ok::<(),
                InterpreterError,
            >(()) && spec_elems(*final(self)) == spec_elems(*old(self)).push(value@),
            spec_type_of(value@) != spec_inner_type(*old(self)) ==> r == Err::<(),
                InterpreterError,
            >(
                InterpreterError::ArrayTypeIncompatibleWithPushValue(
                    spec_type_of(spec_array_view(*old(self))),
                    spec_type_of(value@),
                ),
            ) && spec_elems(*final(self)) == spec_elems(*old(self)),
    {
        let value_type = value.get_type();
        let inner = self.get_inner_type();
        if !types_equal(&value_type, &inner) {
            let full = self.get_type();
            return Err(InterpreterError::ArrayTypeIncompatibleWithPushValue(full, value_type));
        }
        match (&mut *self, value) {
            (ArrayValue::BoolArray(v), Value::Bool(b)) => {
                v.push(b);
                proof {
                    assert(spec_elems(*self) =~= spec_elems(*old(self)).push(
                        ValueView::Bool(b),
                    ));
                }
            }
            (ArrayValue::U8Array(v), Value::U8(x)) => {
                v.push(x);
                proof {
                    assert(spec_elems(*self) =~= spec_elems(*old(self)).push(ValueView::U8(x)));
                }
            }
            (ArrayValue::U16Array(v), Value::U16(x)) => {
                v.push(x);
                proof {
                    assert(spec_elems(*self) =~= spec_elems(*old(self)).push(ValueView::U16(x)));
                }
            }
            (ArrayValue::U32Array(v), Value::U32(x)) => {
                v.push(x);
                proof {
                    assert(spec_elems(*self) =~= spec_elems(*old(self)).push(ValueView::U32(x)));
                }
            }
            (ArrayValue::U64Array(v), Value::U64(x)) => {
                v.push(x);
                proof {
                    assert(spec_elems(*self) =~= spec_elems(*old(self)).push(ValueView::U64(x)));
                }
            }
            (ArrayValue::StringArray(v), Value::String(s)) => {
                let ghost sv = s@;
                v.push(s);
                proof {
                    assert(spec_elems(*self) =~= spec_elems(*old(self)).push(ValueView::Str(sv)));
                }
            }
            (ArrayValue::ArrayArray(_, v), Value::Array(av)) => {
                let ghost avv = av@;
                v.push(av);
                proof {
                    lemma_elems_of_arrays(v@);
                    lemma_elems_of_arrays(old(self)->ArrayArray_1@);
                    assert(spec_elems(*self) =~= spec_elems(*old(self)).push(avv));
                }
            }
            _ => {
                proof {
                    assert(false);
                }
            }
        }
        Ok(())
    }

    /// Overwrite the element at `index`; the index must be in range and the
    /// value's type must match the element type. The element type itself
    /// never changes.
    pub fn set_index(&mut self, index: usize, value: Value) -> (r: Result<(), InterpreterError>)
        ensures
            spec_inner_type(*final(self)) == spec_inner_type(*old(self)),
            index >= spec_elems(*old(self)).len() ==> r == Err::<(), InterpreterError>(
                InterpreterError::ArrayIndexBeyondBounds(index),
            ) && spec_elems(*final(self)) == spec_elems(*old(self)),
            index < spec_elems(*old(self)).len() && spec_type_of(value@) != spec_inner_type(
                *old(self),
            ) ==> r == Err::<(), InterpreterError>(
                InterpreterError::ArraySetValueWithIncompatibleType(
                    spec_type_of(spec_array_view(*old(self))),
                    spec_type_of(value@),
                ),
            ) && spec_elems(*final(self)) == spec_elems(*old(self)),
            index < spec_elems(*old(self)).len() && spec_type_of(value@) == spec_inner_type(
                *old(self),
            ) ==> r == Ok::<(), InterpreterError>(()) && spec_elems(*final(self)) == spec_elems(
                *old(self),
            ).update(index as int, value@),
    {
        if index >= self.len() {
            return Err(InterpreterError::ArrayIndexBeyondBounds(index));
        }
        let value_type = value.get_type();
        let inner = self.get_inner_type();
        if !types_equal(&value_type, &inner) {
            let full = self.get_type();
            return Err(InterpreterError::ArraySetValueWithIncompatibleType(full, value_type));
        }
        match (&mut *self, value) {
            (ArrayValue::BoolArray(v), Value::Bool(b)) => {
                let slot = &mut v[index];
                *slot = b;
                proof {
                    assert(spec_elems(*self) =~= spec_elems(*old(self)).update(
                        index as int,
                        ValueView::Bool(b),
                    ));
                }
            }
            (ArrayValue::U8Array(v), Value::U8(x)) => {
                let slot = &mut v[index];
                *slot = x;
                proof {
                    assert(spec_elems(*self) =~= spec_elems(*old(self)).update(
                        index as int,
                        ValueView::U8(x),
                    ));
                }
            }
            (ArrayValue::U16Array(v), Value::U16(x)) => {
                let slot = &mut v[index];
                *slot = x;
                proof {
                    assert(spec_elems(*self) =~= spec_elems(*old(self)).update(
                        index as int,
                        ValueView::U16(x),
                    ));
                }
            }
            (ArrayValue::U32Array(v), Value::U32(x)) => {
                let slot = &mut v[index];
                *slot = x;
                proof {
                    assert(spec_elems(*self) =~= spec_elems(*old(self)).update(
                        index as int,
                        ValueView::U32(x),
                    ));
                }
            }
            (ArrayValue::U64Array(v), Value::U64(x)) => {
                let slot = &mut v[index];
                *slot = x;
                proof {
                    assert(spec_elems(*self) =~= spec_elems(*old(self)).update(
                        index as int,
                        ValueView::U64(x),
                    ));
                }
            }
            (ArrayValue::StringArray(v), Value::String(s)) => {
                let ghost sv = s@;
                let slot = &mut v[index];
                *slot = s;
                proof {
                    assert(spec_elems(*self) =~= spec_elems(*old(self)).update(
                        index as int,
                        ValueView::Str(sv),
                    ));
                }
            }
            (ArrayValue::ArrayArray(_, v), Value::Array(av)) => {
                let ghost avv = av@;
                proof {
                    lemma_elems_of_arrays(v@);
                }
                let slot = &mut v[index];
                *slot = av;
                proof {
                    lemma_elems_of_arrays(v@);
                    lemma_elems_of_arrays(old(self)->ArrayArray_1@);
                    assert(spec_elems(*self) =~= spec_elems(*old(self)).update(
                        index as int,
                        avv,
                    ));
                }
            }
            _ => {
                proof {
                    assert(false);
                }
            }
        }
        Ok(())
    }
}

} // verus!
