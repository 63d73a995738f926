//! The payloads of the vector instructions.

use crate::builder::{reference_of, trace_reference};
use crate::error::RecorderError;
use crate::interpreter::{top_values, Stack};
use crate::operation::{Operation, OperationOf, OperationView};
use crate::payload::{granted, operand, payload_is};
use crate::snapshot::{plain_items_of, plain_items_of_all, snapshot_all_plain, snapshot_plain};
use crate::traced_value::Reference;
use crate::values::Value;
use std::collections::BTreeMap;
use vstd::prelude::*;

verus! {

/// The element at index `idx` of `elements`, where there is one.
pub open spec fn element_at(elements: Seq<Value>, idx: int) -> Result<Value, RecorderError> {
    if 0 <= idx < elements.len() {
        Ok(elements[idx])
    } else {
        Err(RecorderError::OperandAccess)
    }
}

/// Borrows the element at index `idx` and reads it.
pub fn borrow_elem(elements: &Vec<Value>, idx: u64) -> (r: Result<&Value, RecorderError>)
    ensures
        match r {
            Ok(v) => element_at(elements@, idx as int) == Ok::<Value, RecorderError>(*v),
            Err(e) => element_at(elements@, idx as int) == Err::<Value, RecorderError>(e),
        },
{
    if idx < elements.len() as u64 {
        Ok(&elements[idx as usize])
    } else {
        Err(RecorderError::OperandAccess)
    }
}

/// `VecPack`: the top `num` operands as plain values, the deepest first.
pub open spec fn vec_pack_payload(stack: Seq<Value>, si: u16, num: u64) -> Result<
    OperationView,
    RecorderError,
> {
    if num > stack.len() {
        Err(RecorderError::OperandAccess)
    } else {
        match plain_items_of_all(top_values(stack, num as int)) {
            Ok(args) => Ok(OperationOf::VecPack { si, num, args }),
            Err(e) => Err(e),
        }
    }
}

/// Builds the payload of `VecPack`.
pub fn record_vec_pack(stack: &Stack, si: u16, num: u64) -> (r: Result<Operation, RecorderError>)
    ensures
        payload_is(r, vec_pack_payload(stack.value@, si, num)),
{
    if num > stack.value.len() as u64 {
        return Err(RecorderError::OperandAccess);
    }
    let operands = stack.last_n(num as usize)?;
    let args = snapshot_all_plain(operands)?;
    Ok(OperationOf::VecPack { si, num, args })
}

/// `VecUnpack`: the vector on top of the stack as a plain value.
pub open spec fn vec_unpack_payload(stack: Seq<Value>, si: u16, num: u64) -> Result<
    OperationView,
    RecorderError,
> {
    match operand(stack, 1, 0) {
        Ok(top) => match plain_items_of(top) {
            Ok(arg) => Ok(OperationOf::VecUnpack { si, num, arg }),
            Err(e) => Err(e),
        },
        Err(e) => Err(e),
    }
}

/// Builds the payload of `VecUnpack`.
pub fn record_vec_unpack(stack: &Stack, si: u16, num: u64) -> (r: Result<Operation, RecorderError>)
    ensures
        payload_is(r, vec_unpack_payload(stack.value@, si, num)),
{
    let top = stack.peek(1, 0)?;
    let arg = snapshot_plain(top)?;
    Ok(OperationOf::VecUnpack { si, num, arg })
}

/// `VecLen`: the coordinate of the vector that the reference on top of the
/// stack points at, and its length.
pub open spec fn vec_len_payload(stack: Seq<Value>, si: u16, reverse: Map<usize, Reference>) -> Result<
    OperationView,
    RecorderError,
> {
    match operand(stack, 1, 0) {
        Ok(top) => match reference_of(top, reverse) {
            Ok(vec_ref) => match granted(top.referent_elements()) {
                Ok(elements) => Ok(OperationOf::VecLen { si, vec_ref, len: elements.len() as u64 }),
                Err(e) => Err(e),
            },
            Err(e) => Err(e),
        },
        Err(e) => Err(e),
    }
}

/// Builds the payload of `VecLen`.
pub fn record_vec_len(stack: &Stack, si: u16, reverse: &BTreeMap<usize, Reference>) -> (r: Result<
    Operation,
    RecorderError,
>)
    ensures
        payload_is(r, vec_len_payload(stack.value@, si, reverse@)),
{
    let top = stack.peek(1, 0)?;
    let vec_ref = trace_reference(top, reverse)?;
    match top.vector_elements() {
        Some(elements) => Ok(OperationOf::VecLen { si, vec_ref, len: elements.len() as u64 }),
        None => Err(RecorderError::OperandAccess),
    }
}

/// `VecImmBorrow` and `VecMutBorrow`: the index on top of the stack, and
/// the coordinate of the vector that the reference below it points at.
pub open spec fn vec_borrow_payload(
    stack: Seq<Value>,
    si: u16,
    imm: bool,
    reverse: Map<usize, Reference>,
) -> Result<OperationView, RecorderError> {
    match operand(stack, 2, 1) {
        Ok(below) => match granted(stack.last().as_u64()) {
            Ok(idx) => match reference_of(below, reverse) {
                Ok(vec_ref) => Ok(OperationOf::VecBorrow { si, imm, idx, vec_ref }),
                Err(e) => Err(e),
            },
            Err(e) => Err(e),
        },
        Err(e) => Err(e),
    }
}

/// Builds the payload of `VecImmBorrow` or `VecMutBorrow`.
pub fn record_vec_borrow(
    stack: &Stack,
    si: u16,
    imm: bool,
    reverse: &BTreeMap<usize, Reference>,
) -> (r: Result<Operation, RecorderError>)
    ensures
        payload_is(r, vec_borrow_payload(stack.value@, si, imm, reverse@)),
{
    let below = stack.peek(2, 1)?;
    let top = stack.peek(2, 0)?;
    let idx = match top.value_as_u64() {
        Some(v) => v,
        None => {
            return Err(RecorderError::OperandAccess);
        },
    };
    let vec_ref = trace_reference(below, reverse)?;
    Ok(OperationOf::VecBorrow { si, imm, idx, vec_ref })
}

/// `VecPushBack`: the element on top of the stack as a plain value, the
/// coordinate of the vector that the reference below it points at, and the
/// vector's length before the push.
pub open spec fn vec_push_back_payload(
    stack: Seq<Value>,
    si: u16,
    reverse: Map<usize, Reference>,
) -> Result<OperationView, RecorderError> {
    match operand(stack, 2, 1) {
        Ok(below) => match reference_of(below, reverse) {
            Ok(vec_ref) => match granted(below.referent_elements()) {
                Ok(elements) => match plain_items_of(stack.last()) {
                    Ok(elem) => Ok(
                        OperationOf::VecPushBack {
                            si,
                            vec_len: elements.len() as u64,
                            vec_ref,
                            elem,
                        },
                    ),
                    Err(e) => Err(e),
                },
                Err(e) => Err(e),
            },
            Err(e) => Err(e),
        },
        Err(e) => Err(e),
    }
}

/// Builds the payload of `VecPushBack`.
pub fn record_vec_push_back(stack: &Stack, si: u16, reverse: &BTreeMap<usize, Reference>) -> (r:
    Result<Operation, RecorderError>)
    ensures
        payload_is(r, vec_push_back_payload(stack.value@, si, reverse@)),
{
    let below = stack.peek(2, 1)?;
    let top = stack.peek(2, 0)?;
    let vec_ref = trace_reference(below, reverse)?;
    let elements = match below.vector_elements() {
        Some(elements) => elements,
        None => {
            return Err(RecorderError::OperandAccess);
        },
    };
    let elem = snapshot_plain(top)?;
    Ok(OperationOf::VecPushBack { si, vec_len: elements.len() as u64, vec_ref, elem })
}

/// `VecPopBack`: the coordinate of the vector that the reference on top of
/// the stack points at, the vector's length, and its last element as a plain
/// value.
pub open spec fn vec_pop_back_payload(
    stack: Seq<Value>,
    si: u16,
    reverse: Map<usize, Reference>,
) -> Result<OperationView, RecorderError> {
    match operand(stack, 1, 0) {
        Ok(top) => match reference_of(top, reverse) {
            Ok(vec_ref) => match granted(top.referent_elements()) {
                Ok(elements) => match element_at(elements, elements.len() - 1) {
                    Ok(last) => match plain_items_of(last) {
                        Ok(elem) => Ok(
                            OperationOf::VecPopBack {
                                si,
                                vec_len: elements.len() as u64,
                                vec_ref,
                                elem,
                            },
                        ),
                        Err(e) => Err(e),
                    },
                    Err(e) => Err(e),
                },
                Err(e) => Err(e),
            },
            Err(e) => Err(e),
        },
        Err(e) => Err(e),
    }
}

/// Builds the payload of `VecPopBack`.
pub fn record_vec_pop_back(stack: &Stack, si: u16, reverse: &BTreeMap<usize, Reference>) -> (r:
    Result<Operation, RecorderError>)
    ensures
        payload_is(r, vec_pop_back_payload(stack.value@, si, reverse@)),
{
    let top = stack.peek(1, 0)?;
    let vec_ref = trace_reference(top, reverse)?;
    let elements = match top.vector_elements() {
        Some(elements) => elements,
        None => {
            return Err(RecorderError::OperandAccess);
        },
    };
    let vec_len = elements.len() as u64;
    if vec_len == 0 {
        return Err(RecorderError::OperandAccess);
    }
    let last = borrow_elem(elements, vec_len - 1)?;
    let elem = snapshot_plain(last)?;
    Ok(OperationOf::VecPopBack { si, vec_len, vec_ref, elem })
}

/// `VecSwap`: the two indices on top of the stack, the coordinate of the
/// vector that the reference below them points at, the vector's length, and
/// the two elements as plain values.
pub open spec fn vec_swap_payload(stack: Seq<Value>, si: u16, reverse: Map<usize, Reference>) -> Result<
    OperationView,
    RecorderError,
> {
    match operand(stack, 3, 2) {
        Ok(lowest) => match granted(stack.last().as_u64()) {
            Ok(idx2) => match granted(stack[stack.len() - 2].as_u64()) {
                Ok(idx1) => match reference_of(lowest, reverse) {
                    Ok(vec_ref) => match granted(lowest.referent_elements()) {
                        Ok(elements) => match element_at(elements, idx2 as int) {
                            Ok(second) => match element_at(elements, idx1 as int) {
                                Ok(first) => match plain_items_of(second) {
                                    Ok(idx2_elem) => match plain_items_of(first) {
                                        Ok(idx1_elem) => Ok(
                                            OperationOf::VecSwap {
                                                si,
                                                vec_ref,
                                                vec_len: elements.len() as u64,
                                                idx1,
                                                idx2,
                                                idx1_elem,
                                                idx2_elem,
                                            },
                                        ),
                                        Err(e) => Err(e),
                                    },
                                    Err(e) => Err(e),
                                },
                                Err(e) => Err(e),
                            },
                            Err(e) => Err(e),
                        },
                        Err(e) => Err(e),
                    },
                    Err(e) => Err(e),
                },
                Err(e) => Err(e),
            },
            Err(e) => Err(e),
        },
        Err(e) => Err(e),
    }
}

/// Builds the payload of `VecSwap`.
pub fn record_vec_swap(stack: &Stack, si: u16, reverse: &BTreeMap<usize, Reference>) -> (r: Result<
    Operation,
    RecorderError,
>)
    ensures
        payload_is(r, vec_swap_payload(stack.value@, si, reverse@)),
{
    let lowest = stack.peek(3, 2)?;
    let middle = stack.peek(3, 1)?;
    let top = stack.peek(3, 0)?;
    let idx2 = match top.value_as_u64() {
        Some(v) => v,
        None => {
            return Err(RecorderError::OperandAccess);
        },
    };
    let idx1 = match middle.value_as_u64() {
        Some(v) => v,
        None => {
            return Err(RecorderError::OperandAccess);
        },
    };
    let vec_ref = trace_reference(lowest, reverse)?;
    let elements = match lowest.vector_elements() {
        Some(elements) => elements,
        None => {
            return Err(RecorderError::OperandAccess);
        },
    };
    let second = borrow_elem(elements, idx2)?;
    let first = borrow_elem(elements, idx1)?;
    let idx2_elem = snapshot_plain(second)?;
    let idx1_elem = snapshot_plain(first)?;
    Ok(
        OperationOf::VecSwap {
            si,
            vec_ref,
            vec_len: elements.len() as u64,
            idx1,
            idx2,
            idx1_elem,
            idx2_elem,
        },
    )
}

} // verus!
