//! The recorder: one footprint appended for each instruction that is about
//! to execute, and the pointer index kept in step with stores, moves and
//! returns.

use crate::builder::{trace, traced};
use crate::bytecode::{
    first_immediate, opcode_of, second_immediate, serialize_instruction, touches_global_storage,
    Bytecode,
};
use crate::error::RecorderError;
use crate::interpreter::{caller_of, copy_module_id, entry, Frame, Function, Interpreter, Resolver};
use crate::operation::{binary_kind, lists_view, records_view, BinaryIntegerOperationType, EntryCallOf, Footprint, FootprintOf, FootprintView, Operation, OperationOf, OperationView};
use crate::payload::{
    abort_payload, binary_payload, borrow_field_payload, branch_payload, call_payload,
    cast_payload, equality_payload, local_payload, logic_payload, not_payload, old_local_items,
    operand, pack_payload, payload_is, pop_payload, read_ref_payload, record_abort, record_binary,
    record_borrow_field, record_branch, record_call, record_cast, record_equality, record_local,
    record_logic, record_not, record_pack, record_pop, record_read_ref, record_shift,
    record_unpack, record_write_ref, shift_payload, snapshot_old_local, unpack_payload,
    write_ref_payload,
};
use crate::pointer_index::{
    addresses_are_fresh, forward_without_frame, lemma_add_keeps_agreement,
    lemma_remove_frame_keeps_agreement, lemma_remove_local_keeps_agreement, maps_agree,
    reverse_with_local, reverse_without_frame, reverse_without_local, FootprintState,
};
use crate::sub_index::SubIndex;
use crate::traced_value::{Integer, Reference, ValueItem, ValueItems};
use crate::values::Value;
use crate::vector_payload::{
    record_vec_borrow, record_vec_len, record_vec_pack, record_vec_pop_back,
    record_vec_push_back, record_vec_swap, record_vec_unpack, vec_borrow_payload,
    vec_len_payload, vec_pack_payload, vec_pop_back_payload, vec_push_back_payload,
    vec_swap_payload, vec_unpack_payload,
};
use vstd::prelude::*;

verus! {

/// The pointer index and the trace of one top-level call.
pub struct Footprints {
    state: FootprintState,
    pub data: Vec<Footprint>,
}

/// The recorder's state as mathematics sees it.
pub struct FootprintsView {
    /// The forward map of the pointer index.
    pub forward: Map<(usize, usize), Map<usize, SubIndex>>,
    /// The reverse map of the pointer index.
    pub reverse: Map<usize, Reference>,
    /// The records appended so far.
    pub records: Seq<FootprintView>,
}

impl View for Footprints {
    type V = FootprintsView;

    closed spec fn view(&self) -> FootprintsView {
        FootprintsView {
            forward: self.state.forward(),
            reverse: self.state.reverse(),
            records: records_view(self.data),
        }
    }
}

/// The reverse map after the value on top of `stack` was stored into local
/// `local_index` of frame `frame_index`: the entries of that local are
/// dropped, then the containers of the stored value are put under it.
pub open spec fn reverse_after_store(
    stack: Seq<Value>,
    reverse: Map<usize, Reference>,
    frame_index: usize,
    local_index: usize,
) -> Map<usize, Reference> {
    reverse_with_local(
        reverse_without_local(reverse, frame_index, local_index),
        frame_index,
        local_index,
        traced(stack.last(), reverse).unwrap().container_sub_indexes,
    )
}

/// `StLoc`: the operand on top of the stack traced before the index is
/// changed, and what the local held, traced after it.
pub open spec fn store_payload(
    stack: Seq<Value>,
    locals: Seq<Option<Value>>,
    local_index: u8,
    reverse: Map<usize, Reference>,
    frame_index: usize,
) -> Result<OperationView, RecorderError> {
    match operand(stack, 1, 0) {
        Ok(top) => match traced(top, reverse) {
            Ok(new_value) => match old_local_items(
                locals,
                local_index,
                reverse_after_store(stack, reverse, frame_index, local_index as usize),
            ) {
                Ok(old_local) => Ok(
                    OperationOf::StLoc { local_index, old_local, new_value: new_value.items },
                ),
                Err(e) => Err(e),
            },
            Err(e) => Err(e),
        },
        Err(e) => Err(e),
    }
}

/// The payload that `instruction` calls for, read of the frame, the
/// operand stack and the resolver, with references resolved through the
/// reverse map `reverse`.
#[verifier::opaque]
pub open spec fn payload_of(
    instruction: Bytecode,
    frame: Frame,
    resolver: Resolver,
    interp: Interpreter,
    reverse: Map<usize, Reference>,
) -> Result<OperationView, RecorderError> {
    let stack = interp.operand_stack.value@;
    let locals = frame.locals.values@;
    let frame_index = interp.call_stack@.len() as usize;
    match instruction {
        Bytecode::Pop => pop_payload(stack),
        Bytecode::Ret => Ok(OperationOf::Ret { caller: caller_of(interp.call_stack@) }),
        Bytecode::BrTrue(offset) => branch_payload(stack, offset, true),
        Bytecode::BrFalse(offset) => branch_payload(stack, offset, false),
        Bytecode::Branch(offset) => Ok(OperationOf::Branch(offset)),
        Bytecode::LdU8(v) => Ok(OperationOf::LdSimple(Integer::U8(v))),
        Bytecode::LdU16(v) => Ok(OperationOf::LdSimple(Integer::U16(v))),
        Bytecode::LdU32(v) => Ok(OperationOf::LdSimple(Integer::U32(v))),
        Bytecode::LdU64(v) => Ok(OperationOf::LdSimple(Integer::U64(v))),
        Bytecode::LdU128(v) => Ok(OperationOf::LdSimple(Integer::U128(v))),
        Bytecode::LdU256(v) => Ok(OperationOf::LdSimple(Integer::U256(v))),
        Bytecode::LdTrue => Ok(OperationOf::LdTrue),
        Bytecode::LdFalse => Ok(OperationOf::LdFalse),
        Bytecode::LdConst(idx) => Ok(OperationOf::LdConst { const_pool_index: idx }),
        Bytecode::CastU8 | Bytecode::CastU16 | Bytecode::CastU32 | Bytecode::CastU64
        | Bytecode::CastU128 | Bytecode::CastU256 => cast_payload(stack, instruction),
        Bytecode::CopyLoc(idx) => local_payload(locals, idx, reverse, false),
        Bytecode::MoveLoc(idx) => local_payload(
            locals,
            idx,
            reverse_without_local(reverse, frame_index, idx as usize),
            true,
        ),
        Bytecode::StLoc(idx) => store_payload(stack, locals, idx, reverse, frame_index),
        Bytecode::Call(idx) => call_payload(
            stack,
            entry(resolver.function_param_counts@, idx),
            idx,
            false,
            reverse,
        ),
        Bytecode::CallGeneric(idx) => call_payload(
            stack,
            entry(resolver.instantiation_param_counts@, idx),
            idx,
            true,
            reverse,
        ),
        Bytecode::Pack(idx) => pack_payload(
            stack,
            entry(resolver.field_counts@, idx),
            idx,
            false,
            reverse,
        ),
        Bytecode::PackGeneric(idx) => pack_payload(
            stack,
            entry(resolver.field_instantiation_counts@, idx),
            idx,
            true,
            reverse,
        ),
        Bytecode::Unpack(idx) => unpack_payload(
            stack,
            entry(resolver.field_counts@, idx),
            idx,
            false,
            reverse,
        ),
        Bytecode::UnpackGeneric(idx) => unpack_payload(
            stack,
            entry(resolver.field_instantiation_counts@, idx),
            idx,
            true,
            reverse,
        ),
        Bytecode::ReadRef => read_ref_payload(stack, reverse),
        Bytecode::WriteRef => write_ref_payload(stack, reverse),
        Bytecode::FreezeRef => Ok(OperationOf::FreezeRef),
        Bytecode::MutBorrowLoc(idx) => Ok(OperationOf::BorrowLoc { imm: false, local_index: idx }),
        Bytecode::ImmBorrowLoc(idx) => Ok(OperationOf::BorrowLoc { imm: true, local_index: idx }),
        Bytecode::MutBorrowField(idx) => borrow_field_payload(
            stack,
            reverse,
            entry(resolver.field_offsets@, idx),
            idx,
            false,
            false,
        ),
        Bytecode::ImmBorrowField(idx) => borrow_field_payload(
            stack,
            reverse,
            entry(resolver.field_offsets@, idx),
            idx,
            true,
            false,
        ),
        Bytecode::MutBorrowFieldGeneric(idx) => borrow_field_payload(
            stack,
            reverse,
            entry(resolver.field_instantiation_offsets@, idx),
            idx,
            false,
            true,
        ),
        Bytecode::ImmBorrowFieldGeneric(idx) => borrow_field_payload(
            stack,
            reverse,
            entry(resolver.field_instantiation_offsets@, idx),
            idx,
            true,
            true,
        ),
        Bytecode::Add | Bytecode::Sub | Bytecode::Mul | Bytecode::Mod | Bytecode::Div
        | Bytecode::BitOr | Bytecode::BitAnd | Bytecode::Xor | Bytecode::Lt | Bytecode::Gt
        | Bytecode::Le | Bytecode::Ge => binary_payload(stack, binary_kind(instruction).unwrap()),
        Bytecode::Or => logic_payload(stack, true),
        Bytecode::And => logic_payload(stack, false),
        Bytecode::Not => not_payload(stack),
        Bytecode::Eq => equality_payload(stack, true),
        Bytecode::Neq => equality_payload(stack, false),
        Bytecode::Abort => abort_payload(stack),
        Bytecode::Nop => Ok(OperationOf::Nop),
        Bytecode::Shl => shift_payload(stack, true),
        Bytecode::Shr => shift_payload(stack, false),
        Bytecode::VecPack(si, num) => vec_pack_payload(stack, si, num),
        Bytecode::VecUnpack(si, num) => vec_unpack_payload(stack, si, num),
        Bytecode::VecLen(si) => vec_len_payload(stack, si, reverse),
        Bytecode::VecImmBorrow(si) => vec_borrow_payload(stack, si, true, reverse),
        Bytecode::VecMutBorrow(si) => vec_borrow_payload(stack, si, false, reverse),
        Bytecode::VecPushBack(si) => vec_push_back_payload(stack, si, reverse),
        Bytecode::VecPopBack(si) => vec_pop_back_payload(stack, si, reverse),
        Bytecode::VecSwap(si) => vec_swap_payload(stack, si, reverse),
        Bytecode::MutBorrowGlobal(_) | Bytecode::MutBorrowGlobalGeneric(_) | Bytecode::Exists(_)
        | Bytecode::ExistsGeneric(_) | Bytecode::MoveFrom(_) | Bytecode::MoveFromGeneric(_)
        | Bytecode::MoveTo(_) | Bytecode::MoveToGeneric(_) | Bytecode::ImmBorrowGlobal(_)
        | Bytecode::ImmBorrowGlobalGeneric(_) => Err(RecorderError::UnsupportedInstruction),
    }
}

/// The reverse map once `instruction` is recorded: a return drops the
/// frame, a move drops the local, a store replaces the local, and any other
/// instruction leaves the map as it is.
pub open spec fn reverse_after(
    instruction: Bytecode,
    interp: Interpreter,
    reverse: Map<usize, Reference>,
) -> Map<usize, Reference> {
    let frame_index = interp.call_stack@.len() as usize;
    match instruction {
        Bytecode::Ret => reverse_without_frame(reverse, frame_index),
        Bytecode::MoveLoc(idx) => reverse_without_local(reverse, frame_index, idx as usize),
        Bytecode::StLoc(idx) => reverse_after_store(
            interp.operand_stack.value@,
            reverse,
            frame_index,
            idx as usize,
        ),
        _ => reverse,
    }
}

/// The forward map once `instruction` is recorded.
pub open spec fn forward_after(
    instruction: Bytecode,
    interp: Interpreter,
    forward: Map<(usize, usize), Map<usize, SubIndex>>,
    reverse: Map<usize, Reference>,
) -> Map<(usize, usize), Map<usize, SubIndex>> {
    let frame_index = interp.call_stack@.len() as usize;
    match instruction {
        Bytecode::Ret => forward_without_frame(forward, frame_index),
        Bytecode::MoveLoc(idx) => forward.remove((frame_index, idx as usize)),
        Bytecode::StLoc(idx) => forward.remove((frame_index, idx as usize)).insert(
            (frame_index, idx as usize),
            traced(interp.operand_stack.value@.last(), reverse).unwrap().container_sub_indexes,
        ),
        _ => forward,
    }
}

/// The record of `instruction` with payload `data`: the context of the
/// frame, the height of the operand stack, and the instruction's encoding.
pub open spec fn record_of(
    instruction: Bytecode,
    frame: Frame,
    interp: Interpreter,
    data: OperationView,
) -> FootprintView {
    FootprintOf {
        module_id: frame.function.module_id,
        function_id: frame.function.index,
        pc: frame.pc,
        frame_index: interp.call_stack@.len() as usize,
        stack_pointer: interp.operand_stack.value@.len() as usize,
        op: opcode_of(instruction),
        aux0: first_immediate(instruction),
        aux1: second_immediate(instruction),
        data,
    }
}

/// The recorder's state once `instruction` is recorded, or the reason why
/// it is not.
pub open spec fn recorded(
    before: FootprintsView,
    frame: Frame,
    instruction: Bytecode,
    resolver: Resolver,
    interp: Interpreter,
) -> Result<FootprintsView, RecorderError> {
    match payload_of(instruction, frame, resolver, interp, before.reverse) {
        Ok(data) => Ok(
            FootprintsView {
                forward: forward_after(instruction, interp, before.forward, before.reverse),
                reverse: reverse_after(instruction, interp, before.reverse),
                records: before.records.push(record_of(instruction, frame, interp, data)),
            },
        ),
        Err(e) => Err(e),
    }
}

/// Builds the payload of an instruction that leaves the locals' entries in
/// the pointer index alone.
#[verifier::rlimit(40)]
fn record_payload(
    frame: &Frame,
    instr: &Bytecode,
    resolver: &Resolver,
    interp: &Interpreter,
    state: &FootprintState,
) -> (r: Result<Operation, RecorderError>)
    requires
        !(instr is MoveLoc),
        !(instr is StLoc),
    ensures
        payload_is(r, payload_of(*instr, *frame, *resolver, *interp, state.reverse())),
{
    let stack = &interp.operand_stack;
    let locals = &frame.locals;
    let reverse = state.reverse_local_value_addressings();
    proof {
        reveal(payload_of);
    }
    match instr {
        Bytecode::Pop => record_pop(stack),
        Bytecode::Ret => Ok(OperationOf::Ret { caller: interp.caller() }),
        Bytecode::BrTrue(offset) => record_branch(stack, *offset, true),
        Bytecode::BrFalse(offset) => record_branch(stack, *offset, false),
        Bytecode::Branch(offset) => Ok(OperationOf::Branch(*offset)),
        Bytecode::LdU8(v) => Ok(OperationOf::LdSimple(Integer::U8(*v))),
        Bytecode::LdU64(v) => Ok(OperationOf::LdSimple(Integer::U64(*v))),
        Bytecode::LdU128(v) => Ok(OperationOf::LdSimple(Integer::U128(*v))),
        Bytecode::LdU16(v) => Ok(OperationOf::LdSimple(Integer::U16(*v))),
        Bytecode::LdU32(v) => Ok(OperationOf::LdSimple(Integer::U32(*v))),
        Bytecode::LdU256(v) => Ok(OperationOf::LdSimple(Integer::U256(*v))),
        Bytecode::LdTrue => Ok(OperationOf::LdTrue),
        Bytecode::LdFalse => Ok(OperationOf::LdFalse),
        Bytecode::LdConst(idx) => Ok(OperationOf::LdConst { const_pool_index: *idx }),
        Bytecode::CastU8 | Bytecode::CastU16 | Bytecode::CastU32 | Bytecode::CastU64
        | Bytecode::CastU128 | Bytecode::CastU256 => record_cast(stack, instr),
        Bytecode::CopyLoc(idx) => record_local(locals, *idx, reverse, false),
        // Excluded by the precondition: a move and a store change the index.
        Bytecode::MoveLoc(_) | Bytecode::StLoc(_) => Err(RecorderError::UnsupportedInstruction),
        Bytecode::Call(idx) => record_call(
            stack,
            resolver.function_from_handle(*idx),
            *idx,
            false,
            reverse,
        ),
        Bytecode::CallGeneric(idx) => record_call(
            stack,
            resolver.function_from_instantiation(*idx),
            *idx,
            true,
            reverse,
        ),
        Bytecode::Pack(idx) => record_pack(stack, resolver.field_count(*idx), *idx, false, reverse),
        Bytecode::PackGeneric(idx) => record_pack(
            stack,
            resolver.field_instantiation_count(*idx),
            *idx,
            true,
            reverse,
        ),
        Bytecode::Unpack(idx) => record_unpack(
            stack,
            resolver.field_count(*idx),
            *idx,
            false,
            reverse,
        ),
        Bytecode::UnpackGeneric(idx) => record_unpack(
            stack,
            resolver.field_instantiation_count(*idx),
            *idx,
            true,
            reverse,
        ),
        Bytecode::ReadRef => record_read_ref(stack, reverse),
        Bytecode::WriteRef => record_write_ref(stack, reverse),
        Bytecode::FreezeRef => Ok(OperationOf::FreezeRef),
        Bytecode::MutBorrowLoc(idx) => Ok(
            OperationOf::BorrowLoc { imm: false, local_index: *idx },
        ),
        Bytecode::ImmBorrowLoc(idx) => Ok(OperationOf::BorrowLoc { imm: true, local_index: *idx }),
        Bytecode::MutBorrowField(idx) => record_borrow_field(
            stack,
            reverse,
            resolver.field_offset(*idx),
            *idx,
            false,
            false,
        ),
        Bytecode::ImmBorrowField(idx) => record_borrow_field(
            stack,
            reverse,
            resolver.field_offset(*idx),
            *idx,
            true,
            false,
        ),
        Bytecode::MutBorrowFieldGeneric(idx) => record_borrow_field(
            stack,
            reverse,
            resolver.field_instantiation_offset(*idx),
            *idx,
            false,
            true,
        ),
        Bytecode::ImmBorrowFieldGeneric(idx) => record_borrow_field(
            stack,
            reverse,
            resolver.field_instantiation_offset(*idx),
            *idx,
            true,
            true,
        ),
        Bytecode::Add | Bytecode::Sub | Bytecode::Mul | Bytecode::Mod | Bytecode::Div
        | Bytecode::BitOr | Bytecode::BitAnd | Bytecode::Xor | Bytecode::Lt | Bytecode::Gt
        | Bytecode::Le | Bytecode::Ge => match BinaryIntegerOperationType::try_from(*instr) {
            Ok(ty) => record_binary(stack, ty),
            Err(_) => Err(RecorderError::UnsupportedInstruction),
        },
        Bytecode::Or => record_logic(stack, true),
        Bytecode::And => record_logic(stack, false),
        Bytecode::Not => record_not(stack),
        Bytecode::Eq => record_equality(stack, true),
        Bytecode::Neq => record_equality(stack, false),
        Bytecode::Abort => record_abort(stack),
        Bytecode::Nop => Ok(OperationOf::Nop),
        Bytecode::Shl => record_shift(stack, true),
        Bytecode::Shr => record_shift(stack, false),
        Bytecode::VecPack(si, num) => record_vec_pack(stack, *si, *num),
        Bytecode::VecUnpack(si, num) => record_vec_unpack(stack, *si, *num),
        Bytecode::VecLen(si) => record_vec_len(stack, *si, reverse),
        Bytecode::VecImmBorrow(si) => record_vec_borrow(stack, *si, true, reverse),
        Bytecode::VecMutBorrow(si) => record_vec_borrow(stack, *si, false, reverse),
        Bytecode::VecPushBack(si) => record_vec_push_back(stack, *si, reverse),
        Bytecode::VecPopBack(si) => record_vec_pop_back(stack, *si, reverse),
        Bytecode::VecSwap(si) => record_vec_swap(stack, *si, reverse),
        Bytecode::MutBorrowGlobal(_) | Bytecode::MutBorrowGlobalGeneric(_) | Bytecode::Exists(_)
        | Bytecode::ExistsGeneric(_) | Bytecode::MoveFrom(_) | Bytecode::MoveFromGeneric(_)
        | Bytecode::MoveTo(_) | Bytecode::MoveToGeneric(_) | Bytecode::ImmBorrowGlobal(_)
        | Bytecode::ImmBorrowGlobalGeneric(_) => Err(RecorderError::UnsupportedInstruction),
    }
}

impl Footprints {
    /// A recorder with an empty index and an empty trace.
    pub fn new() -> (r: Self)
        ensures
            r@.forward == Map::<(usize, usize), Map<usize, SubIndex>>::empty(),
            r@.reverse == Map::<usize, Reference>::empty(),
            r@.records == Seq::<FootprintView>::empty(),
    {
        let r = Footprints { state: FootprintState::new(), data: Vec::new() };
        proof {
            assert(records_view(r.data) =~= Seq::<FootprintView>::empty());
        }
        r
    }

    /// The pointer index.
    pub fn state(&self) -> (r: &FootprintState)
        ensures
            r.forward() == self@.forward,
            r.reverse() == self@.reverse,
    {
        &self.state
    }

    /// Appends `record`, and puts `state` in place of the index where one is
    /// given.
    fn commit(&mut self, state: Option<FootprintState>, record: Footprint)
        ensures
            final(self)@ == (FootprintsView {
                forward: match state {
                    Some(state) => state.forward(),
                    None => old(self)@.forward,
                },
                reverse: match state {
                    Some(state) => state.reverse(),
                    None => old(self)@.reverse,
                },
                records: old(self)@.records.push(record@),
            }),
    {
        let ghost before = records_view(self.data);
        match state {
            Some(state) => {
                self.state = state;
            },
            None => {},
        }
        self.data.push(record);
        proof {
            assert(records_view(self.data) =~= before.push(record@));
        }
    }
}

/// What recording `instruction` owes: on success the state that [`recorded`]
/// gives, on failure its error and an unchanged recorder.
pub open spec fn recording_is(
    r: Result<(), RecorderError>,
    before: FootprintsView,
    after: FootprintsView,
    frame: Frame,
    instruction: Bytecode,
    resolver: Resolver,
    interp: Interpreter,
) -> bool {
    match r {
        Ok(()) => recorded(before, frame, instruction, resolver, interp) == Ok::<
            FootprintsView,
            RecorderError,
        >(after),
        Err(e) => recorded(before, frame, instruction, resolver, interp) == Err::<
            FootprintsView,
            RecorderError,
        >(e) && after == before,
    }
}

/// Appends the record of `instr` with payload `operation`, and puts `next`
/// in place of the pointer index where one is given.
fn append(
    frame: &Frame,
    instr: &Bytecode,
    interp: &Interpreter,
    footprints: &mut Footprints,
    next: Option<FootprintState>,
    operation: Operation,
)
    ensures
        final(footprints)@ == (FootprintsView {
            forward: match next {
                Some(state) => state.forward(),
                None => old(footprints)@.forward,
            },
            reverse: match next {
                Some(state) => state.reverse(),
                None => old(footprints)@.reverse,
            },
            records: old(footprints)@.records.push(
                record_of(*instr, *frame, *interp, operation@),
            ),
        }),
{
    let inst = serialize_instruction(instr);
    let record = FootprintOf {
        op: inst.opcodes,
        aux0: inst.aux0,
        aux1: inst.aux1,
        module_id: copy_module_id(&frame.function.module_id),
        function_id: frame.function.index,
        pc: frame.pc,
        frame_index: interp.call_stack.len(),
        stack_pointer: interp.operand_stack.value.len(),
        data: operation,
    };
    footprints.commit(next, record);
}

/// Records a return: the caller, and the frame dropped from the index.
fn record_return(
    frame: &Frame,
    instr: &Bytecode,
    resolver: &Resolver,
    interp: &Interpreter,
    footprints: &mut Footprints,
) -> (r: Result<(), RecorderError>)
    requires
        instr is Ret,
    ensures
        recording_is(r, old(footprints)@, final(footprints)@, *frame, *instr, *resolver, *interp),
{
    let operation = record_payload(frame, instr, resolver, interp, &footprints.state)?;
    footprints.state.remove_locals(interp.call_stack.len());
    append(frame, instr, interp, footprints, None, operation);
    Ok(())
}

/// Records a move out of local `idx`: the local dropped from the index,
/// then its value traced.
fn record_move(
    frame: &Frame,
    instr: &Bytecode,
    idx: u8,
    resolver: &Resolver,
    interp: &Interpreter,
    footprints: &mut Footprints,
) -> (r: Result<(), RecorderError>)
    requires
        *instr == Bytecode::MoveLoc(idx),
    ensures
        recording_is(r, old(footprints)@, final(footprints)@, *frame, *instr, *resolver, *interp),
{
    proof {
        reveal(payload_of);
    }
    let mut next = footprints.state.snapshot();
    next.remove_local(interp.call_stack.len(), idx as usize);
    let operation = record_local(&frame.locals, idx, next.reverse_local_value_addressings(), true)?;
    append(frame, instr, interp, footprints, Some(next), operation);
    Ok(())
}

/// Records a store into local `idx`: the operand traced, the local replaced
/// in the index, then what the local held traced.
fn record_store(
    frame: &Frame,
    instr: &Bytecode,
    idx: u8,
    resolver: &Resolver,
    interp: &Interpreter,
    footprints: &mut Footprints,
) -> (r: Result<(), RecorderError>)
    requires
        *instr == Bytecode::StLoc(idx),
    ensures
        recording_is(r, old(footprints)@, final(footprints)@, *frame, *instr, *resolver, *interp),
{
    proof {
        reveal(payload_of);
    }
    let frame_index = interp.call_stack.len();
    let top = interp.operand_stack.peek(1, 0)?;
    let new_value = trace(top, footprints.state.reverse_local_value_addressings())?;
    let mut next = footprints.state.snapshot();
    next.remove_local(frame_index, idx as usize);
    // A value that is stored into a local is owned by that local alone, so
    // this is the place to index each of its containers by its address.
    next.add_local(frame_index, idx as usize, new_value.container_sub_indexes);
    let old_local = snapshot_old_local(&frame.locals, idx, next.reverse_local_value_addressings())?;
    let operation = OperationOf::StLoc { local_index: idx, old_local, new_value: new_value.items };
    append(frame, instr, interp, footprints, Some(next), operation);
    Ok(())
}

/// Records an instruction that leaves the pointer index as it is.
fn record_plain(
    frame: &Frame,
    instr: &Bytecode,
    resolver: &Resolver,
    interp: &Interpreter,
    footprints: &mut Footprints,
) -> (r: Result<(), RecorderError>)
    requires
        !(instr is Ret),
        !(instr is MoveLoc),
        !(instr is StLoc),
    ensures
        recording_is(r, old(footprints)@, final(footprints)@, *frame, *instr, *resolver, *interp),
{
    let operation = record_payload(frame, instr, resolver, interp, &footprints.state)?;
    append(frame, instr, interp, footprints, None, operation);
    Ok(())
}

/// Records `instr`, which is about to execute in `frame`: builds the payload
/// that its family calls for, brings the pointer index in step with it, and
/// appends the footprint. Where the instruction cannot be recorded, nothing
/// is changed.
pub fn footprinting(
    frame: &Frame,
    instr: &Bytecode,
    resolver: &Resolver,
    interp: &Interpreter,
    footprints: &mut Footprints,
) -> (r: Result<(), RecorderError>)
    ensures
        recording_is(r, old(footprints)@, final(footprints)@, *frame, *instr, *resolver, *interp),
{
    match instr {
        Bytecode::Ret => record_return(frame, instr, resolver, interp, footprints),
        Bytecode::MoveLoc(idx) => record_move(frame, instr, *idx, resolver, interp, footprints),
        Bytecode::StLoc(idx) => record_store(frame, instr, *idx, resolver, interp, footprints),
        _ => record_plain(frame, instr, resolver, interp, footprints),
    }
}

/// The pointer index and the flattened arguments while the arguments of
/// the entry call are taken in.
pub struct EntryView {
    /// The forward map of the pointer index.
    pub forward: Map<(usize, usize), Map<usize, SubIndex>>,
    /// The reverse map of the pointer index.
    pub reverse: Map<usize, Reference>,
    /// The items of each argument taken in so far.
    pub args: Seq<Seq<ValueItem>>,
}

/// The state after the first `n` of `args` were taken in: each is traced
/// against the index as the arguments before it left it, and its containers
/// are put under the local of frame zero that has the argument's position.
pub open spec fn entry_taken(
    args: Seq<Value>,
    n: nat,
    forward: Map<(usize, usize), Map<usize, SubIndex>>,
    reverse: Map<usize, Reference>,
) -> Result<EntryView, RecorderError>
    decreases n,
{
    if n == 0 {
        Ok(EntryView { forward, reverse, args: Seq::empty() })
    } else {
        match entry_taken(args, (n - 1) as nat, forward, reverse) {
            Ok(taken) => match traced(args[n - 1], taken.reverse) {
                Ok(value) => Ok(
                    EntryView {
                        forward: taken.forward.insert(
                            (0usize, (n - 1) as usize),
                            value.container_sub_indexes,
                        ),
                        reverse: reverse_with_local(
                            taken.reverse,
                            0,
                            (n - 1) as usize,
                            value.container_sub_indexes,
                        ),
                        args: taken.args.push(value.items),
                    },
                ),
                Err(e) => Err(e),
            },
            Err(e) => Err(e),
        }
    }
}

/// The record of the entry call: a header of zeros, and the call with its
/// flattened arguments.
pub open spec fn start_record(function: Function, args: Seq<Seq<ValueItem>>) -> FootprintView {
    FootprintOf {
        module_id: None,
        function_id: 0,
        pc: 0,
        frame_index: 0,
        stack_pointer: 0,
        op: 0,
        aux0: None,
        aux1: None,
        data: OperationOf::Start {
            entry_call: EntryCallOf {
                module_id: function.module_id,
                function_index: function.index,
                args,
            },
        },
    }
}

/// The recorder's state once the entry call is recorded, or the reason why
/// it is not.
pub open spec fn started(before: FootprintsView, function: Function, args: Seq<Value>) -> Result<
    FootprintsView,
    RecorderError,
> {
    match entry_taken(args, args.len(), before.forward, before.reverse) {
        Ok(taken) => Ok(
            FootprintsView {
                forward: taken.forward,
                reverse: taken.reverse,
                records: before.records.push(start_record(function, taken.args)),
            },
        ),
        Err(e) => Err(e),
    }
}

/// Records the entry call, before its first instruction: each argument is
/// flattened in order and its containers are put under the local of frame
/// zero that has the argument's position; then one record of the call is
/// appended. Where an argument cannot be traced, nothing is changed.
pub fn footprint_args_processing(
    function: &Function,
    args: &Vec<Value>,
    footprints: &mut Footprints,
) -> (r: Result<(), RecorderError>)
    ensures
        match r {
            Ok(()) => started(old(footprints)@, *function, args@) == Ok::<
                FootprintsView,
                RecorderError,
            >(final(footprints)@),
            Err(e) => started(old(footprints)@, *function, args@) == Err::<
                FootprintsView,
                RecorderError,
            >(e) && final(footprints)@ == old(footprints)@,
        },
{
    let mut next = footprints.state.snapshot();
    let mut values: Vec<ValueItems> = Vec::new();
    let ghost forward = footprints@.forward;
    let ghost reverse = footprints@.reverse;
    proof {
        assert(lists_view(values) =~= Seq::<Seq<ValueItem>>::empty());
    }
    let mut i: usize = 0;
    while i < args.len()
        invariant
            i <= args.len(),
            *footprints == *old(footprints),
            forward == old(footprints)@.forward,
            reverse == old(footprints)@.reverse,
            entry_taken(args@, i as nat, forward, reverse) == Ok::<EntryView, RecorderError>(
                EntryView {
                    forward: next.forward(),
                    reverse: next.reverse(),
                    args: lists_view(values),
                },
            ),
        decreases args.len() - i,
    {
        match trace(&args[i], next.reverse_local_value_addressings()) {
            Ok(value) => {
                let ghost before = lists_view(values);
                let ghost items = value.items@;
                next.add_local(0, i, value.container_sub_indexes);
                values.push(value.items);
                proof {
                    assert(lists_view(values) =~= before.push(items));
                }
            },
            Err(e) => {
                proof {
                    lemma_entry_refused(args@, (i + 1) as nat, args@.len(), forward, reverse, e);
                }
                return Err(e);
            },
        }
        i += 1;
    }
    let record = FootprintOf {
        op: 0,
        module_id: None,
        function_id: 0,
        pc: 0,
        frame_index: 0,
        stack_pointer: 0,
        aux0: None,
        aux1: None,
        data: OperationOf::Start {
            entry_call: EntryCallOf {
                module_id: copy_module_id(&function.module_id),
                function_index: function.index,
                args: values,
            },
        },
    };
    footprints.commit(Some(next), record);
    Ok(())
}

/// Where taking in the first `n` arguments is refused, taking in more of
/// them is refused for the same reason.
pub proof fn lemma_entry_refused(
    args: Seq<Value>,
    n: nat,
    m: nat,
    forward: Map<(usize, usize), Map<usize, SubIndex>>,
    reverse: Map<usize, Reference>,
    e: RecorderError,
)
    requires
        n <= m,
        entry_taken(args, n, forward, reverse) == Err::<EntryView, RecorderError>(e),
    ensures
        entry_taken(args, m, forward, reverse) == Err::<EntryView, RecorderError>(e),
    decreases m,
{
    if n < m {
        lemma_entry_refused(args, n, (m - 1) as nat, forward, reverse, e);
    }
}

/// The containers of the value that a store puts into a local.
pub open spec fn stored_containers(interp: Interpreter, reverse: Map<usize, Reference>) -> Map<
    usize,
    SubIndex,
> {
    traced(interp.operand_stack.value@.last(), reverse).unwrap().container_sub_indexes
}

/// Recording keeps the forward and the reverse map in agreement: a return,
/// a move and any instruction that only reads always do; a store does where
/// no container of the stored value is already indexed under another local.
pub proof fn law_recording_keeps_agreement(
    before: FootprintsView,
    frame: Frame,
    instruction: Bytecode,
    resolver: Resolver,
    interp: Interpreter,
)
    requires
        maps_agree(before.forward, before.reverse),
        recorded(before, frame, instruction, resolver, interp) is Ok,
        instruction matches Bytecode::StLoc(idx) ==> addresses_are_fresh(
            reverse_without_local(
                before.reverse,
                interp.call_stack@.len() as usize,
                idx as usize,
            ),
            stored_containers(interp, before.reverse),
        ),
    ensures
        maps_agree(
            recorded(before, frame, instruction, resolver, interp).unwrap().forward,
            recorded(before, frame, instruction, resolver, interp).unwrap().reverse,
        ),
{
    let frame_index = interp.call_stack@.len() as usize;
    match instruction {
        Bytecode::Ret => {
            lemma_remove_frame_keeps_agreement(before.forward, before.reverse, frame_index);
        },
        Bytecode::MoveLoc(idx) => {
            lemma_remove_local_keeps_agreement(
                before.forward,
                before.reverse,
                frame_index,
                idx as usize,
            );
        },
        Bytecode::StLoc(idx) => {
            lemma_remove_local_keeps_agreement(
                before.forward,
                before.reverse,
                frame_index,
                idx as usize,
            );
            lemma_add_keeps_agreement(
                before.forward.remove((frame_index, idx as usize)),
                reverse_without_local(before.reverse, frame_index, idx as usize),
                frame_index,
                idx as usize,
                stored_containers(interp, before.reverse),
            );
        },
        _ => {},
    }
}

/// Once a return is recorded, no entry of the reverse map points into the
/// frame that returns, and the forward map holds no local of it.
pub proof fn law_return_clears_frame(
    before: FootprintsView,
    frame: Frame,
    resolver: Resolver,
    interp: Interpreter,
)
    requires
        recorded(before, frame, Bytecode::Ret, resolver, interp) is Ok,
    ensures
        ({
            let after = recorded(before, frame, Bytecode::Ret, resolver, interp).unwrap();
            let frame_index = interp.call_stack@.len() as usize;
            &&& forall|a: usize| #[trigger]
                after.reverse.contains_key(a) ==> after.reverse[a].frame_index != frame_index
            &&& forall|l: usize| !(#[trigger] after.forward.contains_key((frame_index, l)))
        }),
{
}

/// Once a store into a local is recorded, the forward map holds under that
/// local exactly the containers of the stored value, and every entry of the
/// reverse map that points into the local comes from them: none is left
/// from what the local held before.
pub proof fn law_store_is_atomic(
    before: FootprintsView,
    frame: Frame,
    local_index: u8,
    resolver: Resolver,
    interp: Interpreter,
)
    requires
        recorded(before, frame, Bytecode::StLoc(local_index), resolver, interp) is Ok,
    ensures
        ({
            let after = recorded(
                before,
                frame,
                Bytecode::StLoc(local_index),
                resolver,
                interp,
            ).unwrap();
            let frame_index = interp.call_stack@.len() as usize;
            let stored = stored_containers(interp, before.reverse);
            &&& after.forward.contains_key((frame_index, local_index as usize))
            &&& after.forward[(frame_index, local_index as usize)] == stored
            &&& forall|a: usize|
                #![trigger after.reverse.contains_key(a)]
                after.reverse.contains_key(a) && after.reverse[a].frame_index == frame_index
                    && after.reverse[a].local_index == local_index as usize
                    ==> stored.contains_key(a) && after.reverse[a].sub_index == stored[a]
        }),
{
}

/// An instruction that reads or writes global storage is never recorded.
pub proof fn law_global_storage_is_unsupported(
    before: FootprintsView,
    frame: Frame,
    instruction: Bytecode,
    resolver: Resolver,
    interp: Interpreter,
)
    requires
        touches_global_storage(instruction),
    ensures
        recorded(before, frame, instruction, resolver, interp) == Err::<
            FootprintsView,
            RecorderError,
        >(RecorderError::UnsupportedInstruction),
{
    reveal(payload_of);
}

} // verus!
