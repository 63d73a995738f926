//! The payload of a footprint, family by family: what is read of the
//! operand stack and the locals, and what is recorded of it.

use crate::builder::{reference_of, trace_reference};
use crate::bytecode::Bytecode;
use crate::error::RecorderError;
use crate::interpreter::{local_at, top_values, Locals, Stack};
use crate::operation::{BinaryIntegerOperationType, Operation, OperationOf, OperationView};
use crate::snapshot::{items_of, items_of_all, plain_items_of, snapshot, snapshot_all, snapshot_plain};
use crate::traced_value::{integer_of, Integer, Reference};
use crate::values::Value;
use std::collections::BTreeMap;
use vstd::prelude::*;

verus! {

/// The value that is `k` below the top of `stack`, where the stack holds at
/// least `n` values.
pub open spec fn operand(stack: Seq<Value>, n: int, k: int) -> Result<Value, RecorderError> {
    if n <= stack.len() {
        Ok(stack[stack.len() - 1 - k])
    } else {
        Err(RecorderError::OperandAccess)
    }
}

/// What a read yields, where the interpreter grants it.
pub open spec fn granted<T>(read: Option<T>) -> Result<T, RecorderError> {
    match read {
        Some(v) => Ok(v),
        None => Err(RecorderError::OperandAccess),
    }
}

/// A payload that was built is the one that was asked for, and a refusal
/// is the one that was due.
pub open spec fn payload_is(
    built: Result<Operation, RecorderError>,
    due: Result<OperationView, RecorderError>,
) -> bool {
    match built {
        Ok(operation) => due == Ok::<OperationView, RecorderError>(operation@),
        Err(e) => due == Err::<OperationView, RecorderError>(e),
    }
}

/// The integer that an operand holds.
pub open spec fn integer_operand(value: Value) -> Result<Integer, RecorderError> {
    match value.as_integer() {
        Some(v) => Ok(integer_of(v)),
        None => Err(RecorderError::OperandAccess),
    }
}

/// Reads an operand as an integer.
pub fn read_integer(value: &Value) -> (r: Result<Integer, RecorderError>)
    ensures
        r == integer_operand(*value),
{
    match value.value_as_integer() {
        Some(v) => Ok(Integer::from(v)),
        None => Err(RecorderError::OperandAccess),
    }
}

/// `Pop`: the top of the stack as a plain value.
pub open spec fn pop_payload(stack: Seq<Value>) -> Result<OperationView, RecorderError> {
    match operand(stack, 1, 0) {
        Ok(top) => match plain_items_of(top) {
            Ok(items) => Ok(OperationOf::Pop { poped_value: items }),
            Err(e) => Err(e),
        },
        Err(e) => Err(e),
    }
}

/// Builds the payload of `Pop`.
pub fn record_pop(stack: &Stack) -> (r: Result<Operation, RecorderError>)
    ensures
        payload_is(r, pop_payload(stack.value@)),
{
    let top = stack.peek(1, 0)?;
    let items = snapshot_plain(top)?;
    Ok(OperationOf::Pop { poped_value: items })
}

/// `BrTrue` and `BrFalse`: the boolean on top of the stack and the code
/// offset.
pub open spec fn branch_payload(stack: Seq<Value>, code_offset: u16, on_true: bool) -> Result<
    OperationView,
    RecorderError,
> {
    match operand(stack, 1, 0) {
        Ok(top) => match granted(top.as_bool()) {
            Ok(cond_val) => if on_true {
                Ok(OperationOf::BrTrue { cond_val, code_offset })
            } else {
                Ok(OperationOf::BrFalse { cond_val, code_offset })
            },
            Err(e) => Err(e),
        },
        Err(e) => Err(e),
    }
}

/// Builds the payload of `BrTrue` or `BrFalse`.
pub fn record_branch(stack: &Stack, code_offset: u16, on_true: bool) -> (r: Result<
    Operation,
    RecorderError,
>)
    ensures
        payload_is(r, branch_payload(stack.value@, code_offset, on_true)),
{
    let top = stack.peek(1, 0)?;
    match top.value_as_bool() {
        Some(cond_val) => if on_true {
            Ok(OperationOf::BrTrue { cond_val, code_offset })
        } else {
            Ok(OperationOf::BrFalse { cond_val, code_offset })
        },
        None => Err(RecorderError::OperandAccess),
    }
}

/// The payload of the cast `instruction` with source integer `origin`.
pub open spec fn cast_of(instruction: Bytecode, origin: Integer) -> OperationView {
    match instruction {
        Bytecode::CastU8 => OperationOf::CastU8 { origin },
        Bytecode::CastU16 => OperationOf::CastU16 { origin },
        Bytecode::CastU32 => OperationOf::CastU32 { origin },
        Bytecode::CastU64 => OperationOf::CastU64 { origin },
        Bytecode::CastU128 => OperationOf::CastU128 { origin },
        _ => OperationOf::CastU256 { origin },
    }
}

/// The casts: the integer on top of the stack.
pub open spec fn cast_payload(stack: Seq<Value>, instruction: Bytecode) -> Result<
    OperationView,
    RecorderError,
> {
    match operand(stack, 1, 0) {
        Ok(top) => match integer_operand(top) {
            Ok(origin) => Ok(cast_of(instruction, origin)),
            Err(e) => Err(e),
        },
        Err(e) => Err(e),
    }
}

/// Builds the payload of a cast.
pub fn record_cast(stack: &Stack, instruction: &Bytecode) -> (r: Result<Operation, RecorderError>)
    ensures
        payload_is(r, cast_payload(stack.value@, *instruction)),
{
    let top = stack.peek(1, 0)?;
    let origin = read_integer(top)?;
    Ok(
        match instruction {
            Bytecode::CastU8 => OperationOf::CastU8 { origin },
            Bytecode::CastU16 => OperationOf::CastU16 { origin },
            Bytecode::CastU32 => OperationOf::CastU32 { origin },
            Bytecode::CastU64 => OperationOf::CastU64 { origin },
            Bytecode::CastU128 => OperationOf::CastU128 { origin },
            _ => OperationOf::CastU256 { origin },
        },
    )
}

/// `CopyLoc` and `MoveLoc`: the local traced against `reverse`.
pub open spec fn local_payload(
    locals: Seq<Option<Value>>,
    local_index: u8,
    reverse: Map<usize, Reference>,
    moved: bool,
) -> Result<OperationView, RecorderError> {
    match granted(local_at(locals, local_index as int)) {
        Ok(value) => match items_of(value, reverse) {
            Ok(local) => if moved {
                Ok(OperationOf::MoveLoc { local_index, local })
            } else {
                Ok(OperationOf::CopyLoc { local_index, local })
            },
            Err(e) => Err(e),
        },
        Err(e) => Err(e),
    }
}

/// Builds the payload of `CopyLoc` or `MoveLoc`.
pub fn record_local(
    locals: &Locals,
    local_index: u8,
    reverse: &BTreeMap<usize, Reference>,
    moved: bool,
) -> (r: Result<Operation, RecorderError>)
    ensures
        payload_is(r, local_payload(locals.values@, local_index, reverse@, moved)),
{
    let value = locals.copy_loc(local_index as usize)?;
    let local = snapshot(value, reverse)?;
    if moved {
        Ok(OperationOf::MoveLoc { local_index, local })
    } else {
        Ok(OperationOf::CopyLoc { local_index, local })
    }
}

/// What local `local_index` held before a store: nothing for an unset slot,
/// else its value traced against `reverse`.
pub open spec fn old_local_items(
    locals: Seq<Option<Value>>,
    local_index: u8,
    reverse: Map<usize, Reference>,
) -> Result<Option<Seq<crate::traced_value::ValueItem>>, RecorderError> {
    if local_index >= locals.len() {
        Err(RecorderError::OperandAccess)
    } else {
        match locals[local_index as int] {
            None => Ok(None),
            Some(value) => match items_of(value, reverse) {
                Ok(items) => Ok(Some(items)),
                Err(e) => Err(e),
            },
        }
    }
}

/// Reads what local `local_index` held before a store.
pub fn snapshot_old_local(
    locals: &Locals,
    local_index: u8,
    reverse: &BTreeMap<usize, Reference>,
) -> (r: Result<Option<crate::traced_value::ValueItems>, RecorderError>)
    ensures
        match r {
            Ok(items) => old_local_items(locals.values@, local_index, reverse@) == Ok::<
                Option<Seq<crate::traced_value::ValueItem>>,
                RecorderError,
            >(crate::operation::optional_view(items)),
            Err(e) => old_local_items(locals.values@, local_index, reverse@) == Err::<
                Option<Seq<crate::traced_value::ValueItem>>,
                RecorderError,
            >(e),
        },
{
    if locals.is_invalid(local_index as usize)? {
        Ok(None)
    } else {
        let value = locals.copy_loc(local_index as usize)?;
        Ok(Some(snapshot(value, reverse)?))
    }
}

/// `Call` and `CallGeneric`: the top `count` operands, the deepest first.
pub open spec fn call_payload(
    stack: Seq<Value>,
    count: Result<usize, RecorderError>,
    fh_idx: u16,
    generic: bool,
    reverse: Map<usize, Reference>,
) -> Result<OperationView, RecorderError> {
    match count {
        Ok(count) => if count > stack.len() {
            Err(RecorderError::OperandAccess)
        } else {
            match items_of_all(top_values(stack, count as int), reverse) {
                Ok(args) => if generic {
                    Ok(OperationOf::CallGeneric { fh_idx, args })
                } else {
                    Ok(OperationOf::Call { fh_idx, args })
                },
                Err(e) => Err(e),
            }
        },
        Err(e) => Err(e),
    }
}

/// Builds the payload of `Call` or `CallGeneric`.
pub fn record_call(
    stack: &Stack,
    count: Result<usize, RecorderError>,
    fh_idx: u16,
    generic: bool,
    reverse: &BTreeMap<usize, Reference>,
) -> (r: Result<Operation, RecorderError>)
    ensures
        payload_is(r, call_payload(stack.value@, count, fh_idx, generic, reverse@)),
{
    let count = count?;
    let operands = stack.last_n(count)?;
    let args = snapshot_all(operands, reverse)?;
    if generic {
        Ok(OperationOf::CallGeneric { fh_idx, args })
    } else {
        Ok(OperationOf::Call { fh_idx, args })
    }
}

/// `Pack` and `PackGeneric`: the field count and the top operands, one for
/// each field.
pub open spec fn pack_payload(
    stack: Seq<Value>,
    field_count: Result<u16, RecorderError>,
    idx: u16,
    generic: bool,
    reverse: Map<usize, Reference>,
) -> Result<OperationView, RecorderError> {
    match field_count {
        Ok(count) => if count > stack.len() {
            Err(RecorderError::OperandAccess)
        } else {
            match items_of_all(top_values(stack, count as int), reverse) {
                Ok(args) => if generic {
                    Ok(OperationOf::PackGeneric { si_idx: idx, num: count as u64, args })
                } else {
                    Ok(OperationOf::Pack { sd_idx: idx, num: count as u64, args })
                },
                Err(e) => Err(e),
            }
        },
        Err(e) => Err(e),
    }
}

/// Builds the payload of `Pack` or `PackGeneric`.
pub fn record_pack(
    stack: &Stack,
    field_count: Result<u16, RecorderError>,
    idx: u16,
    generic: bool,
    reverse: &BTreeMap<usize, Reference>,
) -> (r: Result<Operation, RecorderError>)
    ensures
        payload_is(r, pack_payload(stack.value@, field_count, idx, generic, reverse@)),
{
    let count = field_count?;
    let operands = stack.last_n(count as usize)?;
    let args = snapshot_all(operands, reverse)?;
    if generic {
        Ok(OperationOf::PackGeneric { si_idx: idx, num: count as u64, args })
    } else {
        Ok(OperationOf::Pack { sd_idx: idx, num: count as u64, args })
    }
}

/// `Unpack` and `UnpackGeneric`: the field count and the aggregate on top
/// of the stack.
pub open spec fn unpack_payload(
    stack: Seq<Value>,
    field_count: Result<u16, RecorderError>,
    idx: u16,
    generic: bool,
    reverse: Map<usize, Reference>,
) -> Result<OperationView, RecorderError> {
    match field_count {
        Ok(count) => match operand(stack, 1, 0) {
            Ok(top) => match items_of(top, reverse) {
                Ok(arg) => if generic {
                    Ok(OperationOf::UnpackGeneric { sd_idx: idx, num: count as u64, arg })
                } else {
                    Ok(OperationOf::Unpack { sd_idx: idx, num: count as u64, arg })
                },
                Err(e) => Err(e),
            },
            Err(e) => Err(e),
        },
        Err(e) => Err(e),
    }
}

/// Builds the payload of `Unpack` or `UnpackGeneric`.
pub fn record_unpack(
    stack: &Stack,
    field_count: Result<u16, RecorderError>,
    idx: u16,
    generic: bool,
    reverse: &BTreeMap<usize, Reference>,
) -> (r: Result<Operation, RecorderError>)
    ensures
        payload_is(r, unpack_payload(stack.value@, field_count, idx, generic, reverse@)),
{
    let count = field_count?;
    let top = stack.peek(1, 0)?;
    let arg = snapshot(top, reverse)?;
    if generic {
        Ok(OperationOf::UnpackGeneric { sd_idx: idx, num: count as u64, arg })
    } else {
        Ok(OperationOf::Unpack { sd_idx: idx, num: count as u64, arg })
    }
}

/// `ReadRef`: the coordinate of the reference on top of the stack, and the
/// value that it dereferences to.
pub open spec fn read_ref_payload(stack: Seq<Value>, reverse: Map<usize, Reference>) -> Result<
    OperationView,
    RecorderError,
> {
    match operand(stack, 1, 0) {
        Ok(top) => match reference_of(top, reverse) {
            Ok(reference) => match granted(top.referent()) {
                Ok(target) => match plain_items_of(target) {
                    Ok(value) => Ok(OperationOf::ReadRef { reference, value }),
                    Err(e) => Err(e),
                },
                Err(e) => Err(e),
            },
            Err(e) => Err(e),
        },
        Err(e) => Err(e),
    }
}

/// Builds the payload of `ReadRef`.
pub fn record_read_ref(stack: &Stack, reverse: &BTreeMap<usize, Reference>) -> (r: Result<
    Operation,
    RecorderError,
>)
    ensures
        payload_is(r, read_ref_payload(stack.value@, reverse@)),
{
    let top = stack.peek(1, 0)?;
    let reference = trace_reference(top, reverse)?;
    let target = match top.read_ref() {
        Some(target) => target,
        None => {
            return Err(RecorderError::OperandAccess);
        },
    };
    let value = snapshot_plain(target)?;
    Ok(OperationOf::ReadRef { reference, value })
}

/// `WriteRef`: the coordinate of the reference on top of the stack, what it
/// points at now, and the new value below it.
pub open spec fn write_ref_payload(stack: Seq<Value>, reverse: Map<usize, Reference>) -> Result<
    OperationView,
    RecorderError,
> {
    match operand(stack, 1, 0) {
        Ok(top) => match reference_of(top, reverse) {
            Ok(reference) => match granted(top.referent()) {
                Ok(target) => match operand(stack, 2, 1) {
                    Ok(below) => match plain_items_of(target) {
                        Ok(old_value) => match plain_items_of(below) {
                            Ok(new_value) => Ok(
                                OperationOf::WriteRef { reference, old_value, new_value },
                            ),
                            Err(e) => Err(e),
                        },
                        Err(e) => Err(e),
                    },
                    Err(e) => Err(e),
                },
                Err(e) => Err(e),
            },
            Err(e) => Err(e),
        },
        Err(e) => Err(e),
    }
}

/// Builds the payload of `WriteRef`.
pub fn record_write_ref(stack: &Stack, reverse: &BTreeMap<usize, Reference>) -> (r: Result<
    Operation,
    RecorderError,
>)
    ensures
        payload_is(r, write_ref_payload(stack.value@, reverse@)),
{
    let top = stack.peek(1, 0)?;
    let reference = trace_reference(top, reverse)?;
    let target = match top.read_ref() {
        Some(target) => target,
        None => {
            return Err(RecorderError::OperandAccess);
        },
    };
    let below = stack.peek(2, 1)?;
    let old_value = snapshot_plain(target)?;
    let new_value = snapshot_plain(below)?;
    Ok(OperationOf::WriteRef { reference, old_value, new_value })
}

/// The raw address of the struct that a reference points at.
pub open spec fn struct_address(value: Value) -> Result<usize, RecorderError> {
    match value {
        Value::ContainerRef { address, .. } => Ok(address),
        _ => Err(RecorderError::OperandAccess),
    }
}

/// The four field borrows: the coordinate of the struct that the reference
/// on top of the stack points at, and the offset of the field.
pub open spec fn borrow_field_payload(
    stack: Seq<Value>,
    reverse: Map<usize, Reference>,
    field_offset: Result<usize, RecorderError>,
    idx: u16,
    imm: bool,
    generic: bool,
) -> Result<OperationView, RecorderError> {
    match operand(stack, 1, 0) {
        Ok(top) => match struct_address(top) {
            Ok(address) => if !reverse.contains_key(address) {
                Err(RecorderError::PointerLookupMiss)
            } else {
                match field_offset {
                    Ok(field_offset) => if generic {
                        Ok(
                            OperationOf::BorrowFieldGeneric {
                                fi_idx: idx,
                                imm,
                                reference: reverse[address],
                                field_offset,
                            },
                        )
                    } else {
                        Ok(
                            OperationOf::BorrowField {
                                imm,
                                fh_idx: idx,
                                reference: reverse[address],
                                field_offset,
                            },
                        )
                    },
                    Err(e) => Err(e),
                }
            },
            Err(e) => Err(e),
        },
        Err(e) => Err(e),
    }
}

/// Builds the payload of a field borrow.
pub fn record_borrow_field(
    stack: &Stack,
    reverse: &BTreeMap<usize, Reference>,
    field_offset: Result<usize, RecorderError>,
    idx: u16,
    imm: bool,
    generic: bool,
) -> (r: Result<Operation, RecorderError>)
    ensures
        payload_is(r, borrow_field_payload(stack.value@, reverse@, field_offset, idx, imm, generic)),
{
    let top = stack.peek(1, 0)?;
    let address = match top {
        Value::ContainerRef { address, .. } => *address,
        _ => {
            return Err(RecorderError::OperandAccess);
        },
    };
    let reference = match reverse.get(&address) {
        Some(reference) => *reference,
        None => {
            return Err(RecorderError::PointerLookupMiss);
        },
    };
    let field_offset = field_offset?;
    if generic {
        Ok(OperationOf::BorrowFieldGeneric { fi_idx: idx, imm, reference, field_offset })
    } else {
        Ok(OperationOf::BorrowField { imm, fh_idx: idx, reference, field_offset })
    }
}

/// The instructions on two integers: both operands and the subkind.
pub open spec fn binary_payload(stack: Seq<Value>, ty: BinaryIntegerOperationType) -> Result<
    OperationView,
    RecorderError,
> {
    match operand(stack, 2, 1) {
        Ok(below) => match integer_operand(below) {
            Ok(lhs) => match integer_operand(stack.last()) {
                Ok(rhs) => Ok(OperationOf::BinaryOp { ty, lhs, rhs }),
                Err(e) => Err(e),
            },
            Err(e) => Err(e),
        },
        Err(e) => Err(e),
    }
}

/// Builds the payload of an instruction on two integers.
pub fn record_binary(stack: &Stack, ty: BinaryIntegerOperationType) -> (r: Result<
    Operation,
    RecorderError,
>)
    ensures
        payload_is(r, binary_payload(stack.value@, ty)),
{
    let below = stack.peek(2, 1)?;
    let top = stack.peek(2, 0)?;
    let lhs = read_integer(below)?;
    let rhs = read_integer(top)?;
    Ok(OperationOf::BinaryOp { ty, lhs, rhs })
}

/// `Or` and `And`: both booleans, whatever the first of them is.
pub open spec fn logic_payload(stack: Seq<Value>, is_or: bool) -> Result<
    OperationView,
    RecorderError,
> {
    match operand(stack, 2, 1) {
        Ok(below) => match granted(below.as_bool()) {
            Ok(lhs) => match granted(stack.last().as_bool()) {
                Ok(rhs) => if is_or {
                    Ok(OperationOf::Or { lhs, rhs })
                } else {
                    Ok(OperationOf::And { lhs, rhs })
                },
                Err(e) => Err(e),
            },
            Err(e) => Err(e),
        },
        Err(e) => Err(e),
    }
}

/// Builds the payload of `Or` or `And`.
pub fn record_logic(stack: &Stack, is_or: bool) -> (r: Result<Operation, RecorderError>)
    ensures
        payload_is(r, logic_payload(stack.value@, is_or)),
{
    let below = stack.peek(2, 1)?;
    let top = stack.peek(2, 0)?;
    let lhs = match below.value_as_bool() {
        Some(v) => v,
        None => {
            return Err(RecorderError::OperandAccess);
        },
    };
    let rhs = match top.value_as_bool() {
        Some(v) => v,
        None => {
            return Err(RecorderError::OperandAccess);
        },
    };
    if is_or {
        Ok(OperationOf::Or { lhs, rhs })
    } else {
        Ok(OperationOf::And { lhs, rhs })
    }
}

/// `Not`: the boolean on top of the stack.
pub open spec fn not_payload(stack: Seq<Value>) -> Result<OperationView, RecorderError> {
    match operand(stack, 1, 0) {
        Ok(top) => match granted(top.as_bool()) {
            Ok(value) => Ok(OperationOf::Not { value }),
            Err(e) => Err(e),
        },
        Err(e) => Err(e),
    }
}

/// Builds the payload of `Not`.
pub fn record_not(stack: &Stack) -> (r: Result<Operation, RecorderError>)
    ensures
        payload_is(r, not_payload(stack.value@)),
{
    let top = stack.peek(1, 0)?;
    match top.value_as_bool() {
        Some(value) => Ok(OperationOf::Not { value }),
        None => Err(RecorderError::OperandAccess),
    }
}

/// `Eq` and `Neq`: both operands as plain values.
pub open spec fn equality_payload(stack: Seq<Value>, is_eq: bool) -> Result<
    OperationView,
    RecorderError,
> {
    match operand(stack, 2, 1) {
        Ok(below) => match plain_items_of(stack.last()) {
            Ok(rhs) => match plain_items_of(below) {
                Ok(lhs) => if is_eq {
                    Ok(OperationOf::Eq { lhs, rhs })
                } else {
                    Ok(OperationOf::Neq { lhs, rhs })
                },
                Err(e) => Err(e),
            },
            Err(e) => Err(e),
        },
        Err(e) => Err(e),
    }
}

/// Builds the payload of `Eq` or `Neq`.
pub fn record_equality(stack: &Stack, is_eq: bool) -> (r: Result<Operation, RecorderError>)
    ensures
        payload_is(r, equality_payload(stack.value@, is_eq)),
{
    let below = stack.peek(2, 1)?;
    let top = stack.peek(2, 0)?;
    let rhs = snapshot_plain(top)?;
    let lhs = snapshot_plain(below)?;
    if is_eq {
        Ok(OperationOf::Eq { lhs, rhs })
    } else {
        Ok(OperationOf::Neq { lhs, rhs })
    }
}

/// `Abort`: the 64-bit error code on top of the stack.
pub open spec fn abort_payload(stack: Seq<Value>) -> Result<OperationView, RecorderError> {
    match operand(stack, 1, 0) {
        Ok(top) => match granted(top.as_u64()) {
            Ok(error_code) => Ok(OperationOf::Abort { error_code }),
            Err(e) => Err(e),
        },
        Err(e) => Err(e),
    }
}

/// Builds the payload of `Abort`.
pub fn record_abort(stack: &Stack) -> (r: Result<Operation, RecorderError>)
    ensures
        payload_is(r, abort_payload(stack.value@)),
{
    let top = stack.peek(1, 0)?;
    match top.value_as_u64() {
        Some(error_code) => Ok(OperationOf::Abort { error_code }),
        None => Err(RecorderError::OperandAccess),
    }
}

/// `Shl` and `Shr`: the shift amount on top of the stack, and the integer
/// below it.
pub open spec fn shift_payload(stack: Seq<Value>, left: bool) -> Result<
    OperationView,
    RecorderError,
> {
    match operand(stack, 2, 1) {
        Ok(below) => match granted(stack.last().as_u8()) {
            Ok(rhs) => match integer_operand(below) {
                Ok(lhs) => if left {
                    Ok(OperationOf::Shl { rhs, lhs })
                } else {
                    Ok(OperationOf::Shr { rhs, lhs })
                },
                Err(e) => Err(e),
            },
            Err(e) => Err(e),
        },
        Err(e) => Err(e),
    }
}

/// Builds the payload of `Shl` or `Shr`.
pub fn record_shift(stack: &Stack, left: bool) -> (r: Result<Operation, RecorderError>)
    ensures
        payload_is(r, shift_payload(stack.value@, left)),
{
    let below = stack.peek(2, 1)?;
    let top = stack.peek(2, 0)?;
    let rhs = match top.value_as_u8() {
        Some(v) => v,
        None => {
            return Err(RecorderError::OperandAccess);
        },
    };
    let lhs = read_integer(below)?;
    if left {
        Ok(OperationOf::Shl { rhs, lhs })
    } else {
        Ok(OperationOf::Shr { rhs, lhs })
    }
}

} // verus!
