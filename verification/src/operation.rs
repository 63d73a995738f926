//! The trace records: one footprint for each instruction retired, with the
//! payload that the instruction's family calls for.

use crate::bytecode::Bytecode;
use crate::traced_value::{AccountAddress, Integer, Reference, ValueItem, ValueItems};
use vstd::prelude::*;
use vstd::std_specs::convert::TryFromSpecImpl;

verus! {

/// The name of a module: the account that publishes it and its identifier.
#[derive(Clone, Debug, PartialEq, Eq)]
pub struct ModuleId {
    pub address: AccountAddress,
    pub name: String,
}

/// The frame that a returning function goes back to.
#[derive(Clone, Debug, PartialEq, Eq)]
pub struct CallerInfo {
    pub frame_index: usize,
    pub module_id: Option<ModuleId>,
    pub function_id: usize,
    pub pc: u16,
}

/// The top-level call whose execution one trace witnesses. `L` is the
/// type that holds the flattened arguments.
#[derive(Clone, Debug, PartialEq, Eq)]
pub struct EntryCallOf<L> {
    pub module_id: Option<ModuleId>,
    pub function_index: usize,
    pub args: L,
}

/// The subkind of an instruction on two integers.
#[derive(Clone, Copy, Debug, PartialEq, Eq)]
pub enum BinaryIntegerOperationType {
    Add,
    Sub,
    Mul,
    Mod,
    Div,
    BitOr,
    BitAnd,
    Xor,
    Lt,
    Gt,
    Le,
    Ge,
}

/// An instruction that is none of the twelve on two integers.
#[derive(Clone, Copy, Debug, PartialEq, Eq)]
pub struct NotBinaryOperation;

/// The subkind of an instruction, where it is one on two integers.
pub open spec fn binary_kind(instruction: Bytecode) -> Result<
    BinaryIntegerOperationType,
    NotBinaryOperation,
> {
    match instruction {
        Bytecode::Add => Ok(BinaryIntegerOperationType::Add),
        Bytecode::Sub => Ok(BinaryIntegerOperationType::Sub),
        Bytecode::Mul => Ok(BinaryIntegerOperationType::Mul),
        Bytecode::Mod => Ok(BinaryIntegerOperationType::Mod),
        Bytecode::Div => Ok(BinaryIntegerOperationType::Div),
        Bytecode::BitOr => Ok(BinaryIntegerOperationType::BitOr),
        Bytecode::BitAnd => Ok(BinaryIntegerOperationType::BitAnd),
        Bytecode::Xor => Ok(BinaryIntegerOperationType::Xor),
        Bytecode::Lt => Ok(BinaryIntegerOperationType::Lt),
        Bytecode::Gt => Ok(BinaryIntegerOperationType::Gt),
        Bytecode::Le => Ok(BinaryIntegerOperationType::Le),
        Bytecode::Ge => Ok(BinaryIntegerOperationType::Ge),
        _ => Err(NotBinaryOperation),
    }
}

impl TryFrom<Bytecode> for BinaryIntegerOperationType {
    type Error = NotBinaryOperation;

    fn try_from(value: Bytecode) -> (r: Result<Self, NotBinaryOperation>) {
        match value {
            Bytecode::Add => Ok(BinaryIntegerOperationType::Add),
            Bytecode::Sub => Ok(BinaryIntegerOperationType::Sub),
            Bytecode::Mul => Ok(BinaryIntegerOperationType::Mul),
            Bytecode::Mod => Ok(BinaryIntegerOperationType::Mod),
            Bytecode::Div => Ok(BinaryIntegerOperationType::Div),
            Bytecode::BitOr => Ok(BinaryIntegerOperationType::BitOr),
            Bytecode::BitAnd => Ok(BinaryIntegerOperationType::BitAnd),
            Bytecode::Xor => Ok(BinaryIntegerOperationType::Xor),
            Bytecode::Lt => Ok(BinaryIntegerOperationType::Lt),
            Bytecode::Gt => Ok(BinaryIntegerOperationType::Gt),
            Bytecode::Le => Ok(BinaryIntegerOperationType::Le),
            Bytecode::Ge => Ok(BinaryIntegerOperationType::Ge),
            _ => Err(NotBinaryOperation),
        }
    }
}

impl TryFromSpecImpl<Bytecode> for BinaryIntegerOperationType {
    open spec fn obeys_try_from_spec() -> bool {
        true
    }

    open spec fn try_from_spec(value: Bytecode) -> Result<Self, NotBinaryOperation> {
        binary_kind(value)
    }
}

/// The payload of a footprint, one case for each instruction family. `I` is
/// the type that holds the items of one flattened value, `L` the type that
/// holds a list of them.
#[derive(Clone, Debug, PartialEq, Eq)]
pub enum OperationOf<I, L> {
    /// The entry call, recorded before the first instruction.
    Start { entry_call: EntryCallOf<L> },
    Pop { poped_value: I },
    Ret { caller: Option<CallerInfo> },
    BrTrue { cond_val: bool, code_offset: u16 },
    BrFalse { cond_val: bool, code_offset: u16 },
    Branch(u16),
    /// An integer literal of any width is loaded.
    LdSimple(Integer),
    LdTrue,
    LdFalse,
    LdConst { const_pool_index: u16 },
    CopyLoc { local_index: u8, local: I },
    MoveLoc { local_index: u8, local: I },
    StLoc { local_index: u8, old_local: Option<I>, new_value: I },
    Call { fh_idx: u16, args: L },
    CallGeneric { fh_idx: u16, args: L },
    Pack { sd_idx: u16, num: u64, args: L },
    PackGeneric { si_idx: u16, num: u64, args: L },
    Unpack { sd_idx: u16, num: u64, arg: I },
    UnpackGeneric { sd_idx: u16, num: u64, arg: I },
    ReadRef { reference: Reference, value: I },
    WriteRef { reference: Reference, old_value: I, new_value: I },
    FreezeRef,
    /// An arithmetic, bitwise or comparison instruction on two integers.
    BinaryOp { ty: BinaryIntegerOperationType, lhs: Integer, rhs: Integer },
    Or { lhs: bool, rhs: bool },
    And { lhs: bool, rhs: bool },
    Not { value: bool },
    Shl { rhs: u8, lhs: Integer },
    Shr { rhs: u8, lhs: Integer },
    Eq { lhs: I, rhs: I },
    Neq { lhs: I, rhs: I },
    Abort { error_code: u64 },
    Nop,
    VecPack { si: u16, num: u64, args: L },
    VecUnpack { si: u16, num: u64, arg: I },
    VecLen { si: u16, vec_ref: Reference, len: u64 },
    /// An element of a vector is borrowed, mutably or not.
    VecBorrow { si: u16, imm: bool, idx: u64, vec_ref: Reference },
    VecPushBack { si: u16, vec_len: u64, vec_ref: Reference, elem: I },
    VecPopBack { si: u16, vec_len: u64, vec_ref: Reference, elem: I },
    VecSwap { si: u16, vec_ref: Reference, vec_len: u64, idx1: u64, idx2: u64, idx1_elem: I, idx2_elem: I },
    BorrowLoc { imm: bool, local_index: u8 },
    BorrowField { imm: bool, fh_idx: u16, reference: Reference, field_offset: usize },
    BorrowFieldGeneric { fi_idx: u16, imm: bool, reference: Reference, field_offset: usize },
    CastU8 { origin: Integer },
    CastU16 { origin: Integer },
    CastU32 { origin: Integer },
    CastU64 { origin: Integer },
    CastU128 { origin: Integer },
    CastU256 { origin: Integer },
}

/// One trace record. `I` and `L` are as in [`OperationOf`].
#[derive(Clone, Debug, PartialEq, Eq)]
pub struct FootprintOf<I, L> {
    pub module_id: Option<ModuleId>,
    pub function_id: usize,
    pub pc: u16,
    pub frame_index: usize,
    pub stack_pointer: usize,
    pub op: u8,
    pub aux0: Option<u128>,
    pub aux1: Option<u128>,
    pub data: OperationOf<I, L>,
}

/// The entry call as the recorder holds it.
pub type EntryCall = EntryCallOf<Vec<ValueItems>>;

/// The payload as the recorder holds it.
pub type Operation = OperationOf<ValueItems, Vec<ValueItems>>;

/// The trace record as the recorder holds it.
pub type Footprint = FootprintOf<ValueItems, Vec<ValueItems>>;

/// The payload as mathematics sees it.
pub type OperationView = OperationOf<Seq<ValueItem>, Seq<Seq<ValueItem>>>;

/// The trace record as mathematics sees it.
pub type FootprintView = FootprintOf<Seq<ValueItem>, Seq<Seq<ValueItem>>>;

/// The item sequences that a list of flattened values holds.
pub open spec fn lists_view(lists: Vec<ValueItems>) -> Seq<Seq<ValueItem>> {
    lists@.map_values(|items: ValueItems| items@)
}

/// The item sequence of a flattened value that may be absent.
pub open spec fn optional_view(items: Option<ValueItems>) -> Option<Seq<ValueItem>> {
    match items {
        Some(items) => Some(items@),
        None => None,
    }
}

impl View for OperationOf<ValueItems, Vec<ValueItems>> {
    type V = OperationOf<Seq<ValueItem>, Seq<Seq<ValueItem>>>;

    open spec fn view(&self) -> OperationView {
        match *self {
            OperationOf::Start { entry_call } => OperationOf::Start {
                entry_call: EntryCallOf { module_id: entry_call.module_id, function_index: entry_call.function_index, args: lists_view(entry_call.args) },
            },
            OperationOf::Pop { poped_value } => OperationOf::Pop {
                poped_value: poped_value@,
            },
            OperationOf::Ret { caller } => OperationOf::Ret {
                caller,
            },
            OperationOf::BrTrue { cond_val, code_offset } => OperationOf::BrTrue {
                cond_val,
                code_offset,
            },
            OperationOf::BrFalse { cond_val, code_offset } => OperationOf::BrFalse {
                cond_val,
                code_offset,
            },
            OperationOf::Branch(v) => OperationOf::Branch(v),
            OperationOf::LdSimple(v) => OperationOf::LdSimple(v),
            OperationOf::LdTrue => OperationOf::LdTrue,
            OperationOf::LdFalse => OperationOf::LdFalse,
            OperationOf::LdConst { const_pool_index } => OperationOf::LdConst {
                const_pool_index,
            },
            OperationOf::CopyLoc { local_index, local } => OperationOf::CopyLoc {
                local_index,
                local: local@,
            },
            OperationOf::MoveLoc { local_index, local } => OperationOf::MoveLoc {
                local_index,
                local: local@,
            },
            OperationOf::StLoc { local_index, old_local, new_value } => OperationOf::StLoc {
                local_index,
                old_local: optional_view(old_local),
                new_value: new_value@,
            },
            OperationOf::Call { fh_idx, args } => OperationOf::Call {
                fh_idx,
                args: lists_view(args),
            },
            OperationOf::CallGeneric { fh_idx, args } => OperationOf::CallGeneric {
                fh_idx,
                args: lists_view(args),
            },
            OperationOf::Pack { sd_idx, num, args } => OperationOf::Pack {
                sd_idx,
                num,
                args: lists_view(args),
            },
            OperationOf::PackGeneric { si_idx, num, args } => OperationOf::PackGeneric {
                si_idx,
                num,
                args: lists_view(args),
            },
            OperationOf::Unpack { sd_idx, num, arg } => OperationOf::Unpack {
                sd_idx,
                num,
                arg: arg@,
            },
            OperationOf::UnpackGeneric { sd_idx, num, arg } => OperationOf::UnpackGeneric {
                sd_idx,
                num,
                arg: arg@,
            },
            OperationOf::ReadRef { reference, value } => OperationOf::ReadRef {
                reference,
                value: value@,
            },
            OperationOf::WriteRef { reference, old_value, new_value } => OperationOf::WriteRef {
                reference,
                old_value: old_value@,
                new_value: new_value@,
            },
            OperationOf::FreezeRef => OperationOf::FreezeRef,
            OperationOf::BinaryOp { ty, lhs, rhs } => OperationOf::BinaryOp {
                ty,
                lhs,
                rhs,
            },
            OperationOf::Or { lhs, rhs } => OperationOf::Or {
                lhs,
                rhs,
            },
            OperationOf::And { lhs, rhs } => OperationOf::And {
                lhs,
                rhs,
            },
            OperationOf::Not { value } => OperationOf::Not {
                value,
            },
            OperationOf::Shl { rhs, lhs } => OperationOf::Shl {
                rhs,
                lhs,
            },
            OperationOf::Shr { rhs, lhs } => OperationOf::Shr {
                rhs,
                lhs,
            },
            OperationOf::Eq { lhs, rhs } => OperationOf::Eq {
                lhs: lhs@,
                rhs: rhs@,
            },
            OperationOf::Neq { lhs, rhs } => OperationOf::Neq {
                lhs: lhs@,
                rhs: rhs@,
            },
            OperationOf::Abort { error_code } => OperationOf::Abort {
                error_code,
            },
            OperationOf::Nop => OperationOf::Nop,
            OperationOf::VecPack { si, num, args } => OperationOf::VecPack {
                si,
                num,
                args: lists_view(args),
            },
            OperationOf::VecUnpack { si, num, arg } => OperationOf::VecUnpack {
                si,
                num,
                arg: arg@,
            },
            OperationOf::VecLen { si, vec_ref, len } => OperationOf::VecLen {
                si,
                vec_ref,
                len,
            },
            OperationOf::VecBorrow { si, imm, idx, vec_ref } => OperationOf::VecBorrow {
                si,
                imm,
                idx,
                vec_ref,
            },
            OperationOf::VecPushBack { si, vec_len, vec_ref, elem } => OperationOf::VecPushBack {
                si,
                vec_len,
                vec_ref,
                elem: elem@,
            },
            OperationOf::VecPopBack { si, vec_len, vec_ref, elem } => OperationOf::VecPopBack {
                si,
                vec_len,
                vec_ref,
                elem: elem@,
            },
            OperationOf::VecSwap { si, vec_ref, vec_len, idx1, idx2, idx1_elem, idx2_elem } => OperationOf::VecSwap {
                si,
                vec_ref,
                vec_len,
                idx1,
                idx2,
                idx1_elem: idx1_elem@,
                idx2_elem: idx2_elem@,
            },
            OperationOf::BorrowLoc { imm, local_index } => OperationOf::BorrowLoc {
                imm,
                local_index,
            },
            OperationOf::BorrowField { imm, fh_idx, reference, field_offset } => OperationOf::BorrowField {
                imm,
                fh_idx,
                reference,
                field_offset,
            },
            OperationOf::BorrowFieldGeneric { fi_idx, imm, reference, field_offset } => OperationOf::BorrowFieldGeneric {
                fi_idx,
                imm,
                reference,
                field_offset,
            },
            OperationOf::CastU8 { origin } => OperationOf::CastU8 {
                origin,
            },
            OperationOf::CastU16 { origin } => OperationOf::CastU16 {
                origin,
            },
            OperationOf::CastU32 { origin } => OperationOf::CastU32 {
                origin,
            },
            OperationOf::CastU64 { origin } => OperationOf::CastU64 {
                origin,
            },
            OperationOf::CastU128 { origin } => OperationOf::CastU128 {
                origin,
            },
            OperationOf::CastU256 { origin } => OperationOf::CastU256 {
                origin,
            },
        }
    }
}

impl View for FootprintOf<ValueItems, Vec<ValueItems>> {
    type V = FootprintOf<Seq<ValueItem>, Seq<Seq<ValueItem>>>;

    open spec fn view(&self) -> FootprintView {
        FootprintOf {
            module_id: self.module_id,
            function_id: self.function_id,
            pc: self.pc,
            frame_index: self.frame_index,
            stack_pointer: self.stack_pointer,
            op: self.op,
            aux0: self.aux0,
            aux1: self.aux1,
            data: self.data@,
        }
    }
}

/// The records that a trace holds.
pub open spec fn records_view(records: Vec<Footprint>) -> Seq<FootprintView> {
    records@.map_values(|record: Footprint| record@)
}

} // verus!
