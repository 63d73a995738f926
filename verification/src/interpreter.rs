//! What the recorder reads of the interpreter: the current frame with its
//! locals, the operand stack, the call stack, and the resolver's answers.
//! All of it is read, none of it is changed.

use crate::error::RecorderError;
use crate::operation::{CallerInfo, ModuleId};
use crate::values::Value;
use vstd::prelude::*;
use vstd::slice::slice_subrange;

verus! {

/// A function as a frame names it: its module, if it has one, and its index.
#[derive(Clone, Debug, PartialEq, Eq)]
pub struct Function {
    pub module_id: Option<ModuleId>,
    pub index: usize,
}

/// The local slots of a frame. A slot is unset before its first write and
/// after its value was moved out.
#[derive(Debug, PartialEq, Eq)]
pub struct Locals {
    pub values: Vec<Option<Value>>,
}

/// What slot `idx` holds, where it is set.
pub open spec fn local_at(values: Seq<Option<Value>>, idx: int) -> Option<Value> {
    if 0 <= idx < values.len() {
        values[idx]
    } else {
        None
    }
}

impl Locals {
    /// The value in slot `idx`; refused for a slot that is unset or does not
    /// exist.
    pub fn copy_loc(&self, idx: usize) -> (r: Result<&Value, RecorderError>)
        ensures
            match r {
                Ok(v) => local_at(self.values@, idx as int) == Some(*v),
                Err(e) => e == RecorderError::OperandAccess && local_at(self.values@, idx as int)
                    is None,
            },
    {
        if idx >= self.values.len() {
            return Err(RecorderError::OperandAccess);
        }
        match &self.values[idx] {
            Some(v) => Ok(v),
            None => Err(RecorderError::OperandAccess),
        }
    }

    /// True where slot `idx` is unset; refused for a slot that does not exist.
    pub fn is_invalid(&self, idx: usize) -> (r: Result<bool, RecorderError>)
        ensures
            match r {
                Ok(b) => idx < self.values.len() && b == (self.values[idx as int] is None),
                Err(e) => e == RecorderError::OperandAccess && idx >= self.values.len(),
            },
    {
        if idx >= self.values.len() {
            return Err(RecorderError::OperandAccess);
        }
        Ok(self.values[idx].is_none())
    }
}

/// A call frame: the function that runs in it, the program counter, and the
/// locals.
#[derive(Debug, PartialEq, Eq)]
pub struct Frame {
    pub function: Function,
    pub pc: u16,
    pub locals: Locals,
}

/// The operand stack; the top is the last value.
#[derive(Debug, PartialEq, Eq)]
pub struct Stack {
    pub value: Vec<Value>,
}

/// The top `n` values of `stack`, the deepest first.
pub open spec fn top_values(stack: Seq<Value>, n: int) -> Seq<Value> {
    stack.subrange(stack.len() - n, stack.len() as int)
}

impl Stack {
    /// The top `n` values, the deepest first, without popping; refused where
    /// the stack holds fewer.
    pub fn last_n(&self, n: usize) -> (r: Result<&[Value], RecorderError>)
        ensures
            match r {
                Ok(s) => n <= self.value.len() && s@ == top_values(self.value@, n as int),
                Err(e) => e == RecorderError::OperandAccess && n > self.value.len(),
            },
    {
        let len = self.value.len();
        if n > len {
            return Err(RecorderError::OperandAccess);
        }
        Ok(slice_subrange(self.value.as_slice(), len - n, len))
    }

    /// The value that is `k` below the top, without popping; refused where
    /// the stack holds fewer than `n` values. `k` is less than `n`.
    pub fn peek(&self, n: usize, k: usize) -> (r: Result<&Value, RecorderError>)
        requires
            k < n,
        ensures
            match r {
                Ok(v) => n <= self.value.len() && *v == self.value[self.value.len() - 1 - k],
                Err(e) => e == RecorderError::OperandAccess && n > self.value.len(),
            },
    {
        let len = self.value.len();
        if n > len {
            return Err(RecorderError::OperandAccess);
        }
        Ok(&self.value[len - 1 - k])
    }
}

/// The interpreter between two instructions: the operand stack, and the
/// frames of the callers, the outermost first.
#[derive(Debug, PartialEq, Eq)]
pub struct Interpreter {
    pub operand_stack: Stack,
    pub call_stack: Vec<Frame>,
}

/// The frame that a return goes back to: the last frame of the call stack,
/// where there is one.
pub open spec fn caller_of(call_stack: Seq<Frame>) -> Option<CallerInfo> {
    if call_stack.len() == 0 {
        None
    } else {
        Some(
            CallerInfo {
                frame_index: (call_stack.len() - 1) as usize,
                module_id: call_stack.last().function.module_id,
                function_id: call_stack.last().function.index,
                pc: call_stack.last().pc,
            },
        )
    }
}

/// A copy of a module's name.
pub fn copy_module_id(module_id: &Option<ModuleId>) -> (r: Option<ModuleId>)
    ensures
        r == *module_id,
{
    match module_id {
        Some(id) => Some(ModuleId { address: id.address, name: id.name.clone() }),
        None => None,
    }
}

impl Interpreter {
    /// The frame that a return goes back to.
    pub fn caller(&self) -> (r: Option<CallerInfo>)
        ensures
            r == caller_of(self.call_stack@),
    {
        let n = self.call_stack.len();
        if n == 0 {
            None
        } else {
            let caller = &self.call_stack[n - 1];
            Some(
                CallerInfo {
                    frame_index: n - 1,
                    module_id: copy_module_id(&caller.function.module_id),
                    function_id: caller.function.index,
                    pc: caller.pc,
                },
            )
        }
    }
}

/// The resolver's answers, each table indexed by the handle it is asked with.
#[derive(Clone, Debug, PartialEq, Eq)]
pub struct Resolver {
    /// Parameter count of the function behind a function handle.
    pub function_param_counts: Vec<usize>,
    /// Parameter count of the function behind a function instantiation.
    pub instantiation_param_counts: Vec<usize>,
    /// Field count of a struct definition.
    pub field_counts: Vec<u16>,
    /// Field count of a struct instantiation.
    pub field_instantiation_counts: Vec<u16>,
    /// Offset of the field behind a field handle.
    pub field_offsets: Vec<usize>,
    /// Offset of the field behind a field instantiation.
    pub field_instantiation_offsets: Vec<usize>,
}

/// The entry of `table` at `idx`, where there is one.
pub open spec fn entry<T>(table: Seq<T>, idx: u16) -> Result<T, RecorderError> {
    if idx < table.len() {
        Ok(table[idx as int])
    } else {
        Err(RecorderError::OperandAccess)
    }
}

impl Resolver {
    /// Parameter count of the function behind handle `idx`.
    pub fn function_from_handle(&self, idx: u16) -> (r: Result<usize, RecorderError>)
        ensures
            r == entry(self.function_param_counts@, idx),
    {
        if (idx as usize) < self.function_param_counts.len() {
            Ok(self.function_param_counts[idx as usize])
        } else {
            Err(RecorderError::OperandAccess)
        }
    }

    /// Parameter count of the function behind instantiation `idx`.
    pub fn function_from_instantiation(&self, idx: u16) -> (r: Result<usize, RecorderError>)
        ensures
            r == entry(self.instantiation_param_counts@, idx),
    {
        if (idx as usize) < self.instantiation_param_counts.len() {
            Ok(self.instantiation_param_counts[idx as usize])
        } else {
            Err(RecorderError::OperandAccess)
        }
    }

    /// Field count of struct definition `idx`.
    pub fn field_count(&self, idx: u16) -> (r: Result<u16, RecorderError>)
        ensures
            r == entry(self.field_counts@, idx),
    {
        if (idx as usize) < self.field_counts.len() {
            Ok(self.field_counts[idx as usize])
        } else {
            Err(RecorderError::OperandAccess)
        }
    }

    /// Field count of struct instantiation `idx`.
    pub fn field_instantiation_count(&self, idx: u16) -> (r: Result<u16, RecorderError>)
        ensures
            r == entry(self.field_instantiation_counts@, idx),
    {
        if (idx as usize) < self.field_instantiation_counts.len() {
            Ok(self.field_instantiation_counts[idx as usize])
        } else {
            Err(RecorderError::OperandAccess)
        }
    }

    /// Offset of the field behind handle `idx`.
    pub fn field_offset(&self, idx: u16) -> (r: Result<usize, RecorderError>)
        ensures
            r == entry(self.field_offsets@, idx),
    {
        if (idx as usize) < self.field_offsets.len() {
            Ok(self.field_offsets[idx as usize])
        } else {
            Err(RecorderError::OperandAccess)
        }
    }

    /// Offset of the field behind instantiation `idx`.
    pub fn field_instantiation_offset(&self, idx: u16) -> (r: Result<usize, RecorderError>)
        ensures
            r == entry(self.field_instantiation_offsets@, idx),
    {
        if (idx as usize) < self.field_instantiation_offsets.len() {
            Ok(self.field_instantiation_offsets[idx as usize])
        } else {
            Err(RecorderError::OperandAccess)
        }
    }
}

} // verus!
