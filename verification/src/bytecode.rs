//! The instruction set that the recorder observes, and the compact
//! encoding of an instruction: its opcode byte and up to two 128-bit
//! immediates.

use crate::traced_value::U256;
use vstd::prelude::*;

verus! {
pub const POP: u8 = 0x01;
pub const RET: u8 = 0x02;
pub const BR_TRUE: u8 = 0x03;
pub const BR_FALSE: u8 = 0x04;
pub const BRANCH: u8 = 0x05;
pub const LD_U64: u8 = 0x06;
pub const LD_CONST: u8 = 0x07;
pub const LD_TRUE: u8 = 0x08;
pub const LD_FALSE: u8 = 0x09;
pub const COPY_LOC: u8 = 0x0A;
pub const MOVE_LOC: u8 = 0x0B;
pub const ST_LOC: u8 = 0x0C;
pub const MUT_BORROW_LOC: u8 = 0x0D;
pub const IMM_BORROW_LOC: u8 = 0x0E;
pub const MUT_BORROW_FIELD: u8 = 0x0F;
pub const IMM_BORROW_FIELD: u8 = 0x10;
pub const CALL: u8 = 0x11;
pub const PACK: u8 = 0x12;
pub const UNPACK: u8 = 0x13;
pub const READ_REF: u8 = 0x14;
pub const WRITE_REF: u8 = 0x15;
pub const ADD: u8 = 0x16;
pub const SUB: u8 = 0x17;
pub const MUL: u8 = 0x18;
pub const MOD: u8 = 0x19;
pub const DIV: u8 = 0x1A;
pub const BIT_OR: u8 = 0x1B;
pub const BIT_AND: u8 = 0x1C;
pub const XOR: u8 = 0x1D;
pub const OR: u8 = 0x1E;
pub const AND: u8 = 0x1F;
pub const NOT: u8 = 0x20;
pub const EQ: u8 = 0x21;
pub const NEQ: u8 = 0x22;
pub const LT: u8 = 0x23;
pub const GT: u8 = 0x24;
pub const LE: u8 = 0x25;
pub const GE: u8 = 0x26;
pub const ABORT: u8 = 0x27;
pub const NOP: u8 = 0x28;
pub const EXISTS: u8 = 0x29;
pub const MUT_BORROW_GLOBAL: u8 = 0x2A;
pub const IMM_BORROW_GLOBAL: u8 = 0x2B;
pub const MOVE_FROM: u8 = 0x2C;
pub const MOVE_TO: u8 = 0x2D;
pub const FREEZE_REF: u8 = 0x2E;
pub const SHL: u8 = 0x2F;
pub const SHR: u8 = 0x30;
pub const LD_U8: u8 = 0x31;
pub const LD_U128: u8 = 0x32;
pub const CAST_U8: u8 = 0x33;
pub const CAST_U64: u8 = 0x34;
pub const CAST_U128: u8 = 0x35;
pub const MUT_BORROW_FIELD_GENERIC: u8 = 0x36;
pub const IMM_BORROW_FIELD_GENERIC: u8 = 0x37;
pub const CALL_GENERIC: u8 = 0x38;
pub const PACK_GENERIC: u8 = 0x39;
pub const UNPACK_GENERIC: u8 = 0x3A;
pub const EXISTS_GENERIC: u8 = 0x3B;
pub const MUT_BORROW_GLOBAL_GENERIC: u8 = 0x3C;
pub const IMM_BORROW_GLOBAL_GENERIC: u8 = 0x3D;
pub const MOVE_FROM_GENERIC: u8 = 0x3E;
pub const MOVE_TO_GENERIC: u8 = 0x3F;
pub const VEC_PACK: u8 = 0x40;
pub const VEC_LEN: u8 = 0x41;
pub const VEC_IMM_BORROW: u8 = 0x42;
pub const VEC_MUT_BORROW: u8 = 0x43;
pub const VEC_PUSH_BACK: u8 = 0x44;
pub const VEC_POP_BACK: u8 = 0x45;
pub const VEC_UNPACK: u8 = 0x46;
pub const VEC_SWAP: u8 = 0x47;
pub const LD_U16: u8 = 0x48;
pub const LD_U32: u8 = 0x49;
pub const LD_U256: u8 = 0x4A;
pub const CAST_U16: u8 = 0x4B;
pub const CAST_U32: u8 = 0x4C;
pub const CAST_U256: u8 = 0x4D;

/// One instruction. Indices into the tables of a module, code offsets and
/// local slots are carried as plain numbers.
#[derive(Clone, Copy, Debug, PartialEq, Eq)]
pub enum Bytecode {
    Pop,
    Ret,
    BrTrue(u16),
    BrFalse(u16),
    Branch(u16),
    LdU8(u8),
    LdU64(u64),
    LdU128(u128),
    CastU8,
    CastU64,
    CastU128,
    LdConst(u16),
    LdTrue,
    LdFalse,
    CopyLoc(u8),
    MoveLoc(u8),
    StLoc(u8),
    Call(u16),
    CallGeneric(u16),
    Pack(u16),
    PackGeneric(u16),
    Unpack(u16),
    UnpackGeneric(u16),
    ReadRef,
    WriteRef,
    FreezeRef,
    MutBorrowLoc(u8),
    ImmBorrowLoc(u8),
    MutBorrowField(u16),
    MutBorrowFieldGeneric(u16),
    ImmBorrowField(u16),
    ImmBorrowFieldGeneric(u16),
    MutBorrowGlobal(u16),
    MutBorrowGlobalGeneric(u16),
    ImmBorrowGlobal(u16),
    ImmBorrowGlobalGeneric(u16),
    Add,
    Sub,
    Mul,
    Mod,
    Div,
    BitOr,
    BitAnd,
    Xor,
    Or,
    And,
    Not,
    Eq,
    Neq,
    Lt,
    Gt,
    Le,
    Ge,
    Abort,
    Nop,
    Exists(u16),
    ExistsGeneric(u16),
    MoveFrom(u16),
    MoveFromGeneric(u16),
    MoveTo(u16),
    MoveToGeneric(u16),
    Shl,
    Shr,
    VecPack(u16, u64),
    VecLen(u16),
    VecImmBorrow(u16),
    VecMutBorrow(u16),
    VecPushBack(u16),
    VecPopBack(u16),
    VecUnpack(u16, u64),
    VecSwap(u16),
    LdU16(u16),
    LdU32(u32),
    LdU256(U256),
    CastU16,
    CastU32,
    CastU256,
}

/// The compact encoding of one instruction.
#[derive(Clone, Copy, Debug, PartialEq, Eq)]
pub struct Instruction {
    /// The opcode byte.
    pub opcodes: u8,
    /// First immediate: an offset, an index or a literal; for a 256-bit
    /// literal its lower half.
    pub aux0: Option<u128>,
    /// Second immediate: the length of a vector that is packed or unpacked;
    /// for a 256-bit literal its upper half.
    pub aux1: Option<u128>,
}

impl Instruction {
    /// The encoding made of its three parts.
    pub fn new(opcodes: u8, aux0: Option<u128>, aux1: Option<u128>) -> (r: Self)
        ensures
            r == (Instruction { opcodes, aux0, aux1 }),
    {
        Instruction { opcodes, aux0, aux1 }
    }
}

/// The opcode byte of an instruction.
pub open spec fn opcode_of(instruction: Bytecode) -> u8 {
    match instruction {
        Bytecode::Pop => POP,
        Bytecode::Ret => RET,
        Bytecode::BrTrue(_) => BR_TRUE,
        Bytecode::BrFalse(_) => BR_FALSE,
        Bytecode::Branch(_) => BRANCH,
        Bytecode::LdU8(_) => LD_U8,
        Bytecode::LdU64(_) => LD_U64,
        Bytecode::LdU128(_) => LD_U128,
        Bytecode::CastU8 => CAST_U8,
        Bytecode::CastU64 => CAST_U64,
        Bytecode::CastU128 => CAST_U128,
        Bytecode::LdConst(_) => LD_CONST,
        Bytecode::LdTrue => LD_TRUE,
        Bytecode::LdFalse => LD_FALSE,
        Bytecode::CopyLoc(_) => COPY_LOC,
        Bytecode::MoveLoc(_) => MOVE_LOC,
        Bytecode::StLoc(_) => ST_LOC,
        Bytecode::Call(_) => CALL,
        Bytecode::CallGeneric(_) => CALL_GENERIC,
        Bytecode::Pack(_) => PACK,
        Bytecode::PackGeneric(_) => PACK_GENERIC,
        Bytecode::Unpack(_) => UNPACK,
        Bytecode::UnpackGeneric(_) => UNPACK_GENERIC,
        Bytecode::ReadRef => READ_REF,
        Bytecode::WriteRef => WRITE_REF,
        Bytecode::FreezeRef => FREEZE_REF,
        Bytecode::MutBorrowLoc(_) => MUT_BORROW_LOC,
        Bytecode::ImmBorrowLoc(_) => IMM_BORROW_LOC,
        Bytecode::MutBorrowField(_) => MUT_BORROW_FIELD,
        Bytecode::MutBorrowFieldGeneric(_) => MUT_BORROW_FIELD_GENERIC,
        Bytecode::ImmBorrowField(_) => IMM_BORROW_FIELD,
        Bytecode::ImmBorrowFieldGeneric(_) => IMM_BORROW_FIELD_GENERIC,
        Bytecode::MutBorrowGlobal(_) => MUT_BORROW_GLOBAL,
        Bytecode::MutBorrowGlobalGeneric(_) => MUT_BORROW_GLOBAL_GENERIC,
        Bytecode::ImmBorrowGlobal(_) => IMM_BORROW_GLOBAL,
        Bytecode::ImmBorrowGlobalGeneric(_) => IMM_BORROW_GLOBAL_GENERIC,
        Bytecode::Add => ADD,
        Bytecode::Sub => SUB,
        Bytecode::Mul => MUL,
        Bytecode::Mod => MOD,
        Bytecode::Div => DIV,
        Bytecode::BitOr => BIT_OR,
        Bytecode::BitAnd => BIT_AND,
        Bytecode::Xor => XOR,
        Bytecode::Or => OR,
        Bytecode::And => AND,
        Bytecode::Not => NOT,
        Bytecode::Eq => EQ,
        Bytecode::Neq => NEQ,
        Bytecode::Lt => LT,
        Bytecode::Gt => GT,
        Bytecode::Le => LE,
        Bytecode::Ge => GE,
        Bytecode::Abort => ABORT,
        Bytecode::Nop => NOP,
        Bytecode::Exists(_) => EXISTS,
        Bytecode::ExistsGeneric(_) => EXISTS_GENERIC,
        Bytecode::MoveFrom(_) => MOVE_FROM,
        Bytecode::MoveFromGeneric(_) => MOVE_FROM_GENERIC,
        Bytecode::MoveTo(_) => MOVE_TO,
        Bytecode::MoveToGeneric(_) => MOVE_TO_GENERIC,
        Bytecode::Shl => SHL,
        Bytecode::Shr => SHR,
        Bytecode::VecPack(_, _) => VEC_PACK,
        Bytecode::VecLen(_) => VEC_LEN,
        Bytecode::VecImmBorrow(_) => VEC_IMM_BORROW,
        Bytecode::VecMutBorrow(_) => VEC_MUT_BORROW,
        Bytecode::VecPushBack(_) => VEC_PUSH_BACK,
        Bytecode::VecPopBack(_) => VEC_POP_BACK,
        Bytecode::VecUnpack(_, _) => VEC_UNPACK,
        Bytecode::VecSwap(_) => VEC_SWAP,
        Bytecode::LdU16(_) => LD_U16,
        Bytecode::LdU32(_) => LD_U32,
        Bytecode::LdU256(_) => LD_U256,
        Bytecode::CastU16 => CAST_U16,
        Bytecode::CastU32 => CAST_U32,
        Bytecode::CastU256 => CAST_U256,
    }
}

/// The first immediate of an instruction, where it has one.
pub open spec fn first_immediate(instruction: Bytecode) -> Option<u128> {
    match instruction {
        Bytecode::BrTrue(value) => Some(value as u128),
        Bytecode::BrFalse(value) => Some(value as u128),
        Bytecode::Branch(value) => Some(value as u128),
        Bytecode::LdU8(value) => Some(value as u128),
        Bytecode::LdU64(value) => Some(value as u128),
        Bytecode::LdU128(value) => Some(value),
        Bytecode::LdConst(value) => Some(value as u128),
        Bytecode::CopyLoc(value) => Some(value as u128),
        Bytecode::MoveLoc(value) => Some(value as u128),
        Bytecode::StLoc(value) => Some(value as u128),
        Bytecode::Call(value) => Some(value as u128),
        Bytecode::CallGeneric(value) => Some(value as u128),
        Bytecode::Pack(value) => Some(value as u128),
        Bytecode::PackGeneric(value) => Some(value as u128),
        Bytecode::Unpack(value) => Some(value as u128),
        Bytecode::UnpackGeneric(value) => Some(value as u128),
        Bytecode::MutBorrowLoc(value) => Some(value as u128),
        Bytecode::ImmBorrowLoc(value) => Some(value as u128),
        Bytecode::MutBorrowField(value) => Some(value as u128),
        Bytecode::MutBorrowFieldGeneric(value) => Some(value as u128),
        Bytecode::ImmBorrowField(value) => Some(value as u128),
        Bytecode::ImmBorrowFieldGeneric(value) => Some(value as u128),
        Bytecode::MutBorrowGlobal(value) => Some(value as u128),
        Bytecode::MutBorrowGlobalGeneric(value) => Some(value as u128),
        Bytecode::ImmBorrowGlobal(value) => Some(value as u128),
        Bytecode::ImmBorrowGlobalGeneric(value) => Some(value as u128),
        Bytecode::Exists(value) => Some(value as u128),
        Bytecode::ExistsGeneric(value) => Some(value as u128),
        Bytecode::MoveFrom(value) => Some(value as u128),
        Bytecode::MoveFromGeneric(value) => Some(value as u128),
        Bytecode::MoveTo(value) => Some(value as u128),
        Bytecode::MoveToGeneric(value) => Some(value as u128),
        Bytecode::VecPack(index, _) => Some(index as u128),
        Bytecode::VecLen(value) => Some(value as u128),
        Bytecode::VecImmBorrow(value) => Some(value as u128),
        Bytecode::VecMutBorrow(value) => Some(value as u128),
        Bytecode::VecPushBack(value) => Some(value as u128),
        Bytecode::VecPopBack(value) => Some(value as u128),
        Bytecode::VecUnpack(index, _) => Some(index as u128),
        Bytecode::VecSwap(value) => Some(value as u128),
        Bytecode::LdU16(value) => Some(value as u128),
        Bytecode::LdU32(value) => Some(value as u128),
        Bytecode::LdU256(value) => Some(value.lo),
        _ => None,
    }
}

/// The second immediate of an instruction, where it has one.
pub open spec fn second_immediate(instruction: Bytecode) -> Option<u128> {
    match instruction {
        Bytecode::VecPack(_, num) => Some(num as u128),
        Bytecode::VecUnpack(_, num) => Some(num as u128),
        Bytecode::LdU256(value) => Some(value.hi),
        _ => None,
    }
}

/// The encoding of an instruction.
pub open spec fn encoding_of(instruction: Bytecode) -> Instruction {
    Instruction {
        opcodes: opcode_of(instruction),
        aux0: first_immediate(instruction),
        aux1: second_immediate(instruction),
    }
}

/// Encodes an instruction: its opcode byte, and its scalar immediates as
/// 128-bit numbers.
pub fn serialize_instruction(opcode: &Bytecode) -> (r: Instruction)
    ensures
        r == encoding_of(*opcode),
{
    match opcode {
        Bytecode::Pop => Instruction::new(POP, None, None),
        Bytecode::Ret => Instruction::new(RET, None, None),
        Bytecode::BrTrue(value) => Instruction::new(BR_TRUE, Some(*value as u128), None),
        Bytecode::BrFalse(value) => Instruction::new(BR_FALSE, Some(*value as u128), None),
        Bytecode::Branch(value) => Instruction::new(BRANCH, Some(*value as u128), None),
        Bytecode::LdU8(value) => Instruction::new(LD_U8, Some(*value as u128), None),
        Bytecode::LdU64(value) => Instruction::new(LD_U64, Some(*value as u128), None),
        Bytecode::LdU128(value) => Instruction::new(LD_U128, Some(*value), None),
        Bytecode::CastU8 => Instruction::new(CAST_U8, None, None),
        Bytecode::CastU64 => Instruction::new(CAST_U64, None, None),
        Bytecode::CastU128 => Instruction::new(CAST_U128, None, None),
        Bytecode::LdConst(value) => Instruction::new(LD_CONST, Some(*value as u128), None),
        Bytecode::LdTrue => Instruction::new(LD_TRUE, None, None),
        Bytecode::LdFalse => Instruction::new(LD_FALSE, None, None),
        Bytecode::CopyLoc(value) => Instruction::new(COPY_LOC, Some(*value as u128), None),
        Bytecode::MoveLoc(value) => Instruction::new(MOVE_LOC, Some(*value as u128), None),
        Bytecode::StLoc(value) => Instruction::new(ST_LOC, Some(*value as u128), None),
        Bytecode::Call(value) => Instruction::new(CALL, Some(*value as u128), None),
        Bytecode::CallGeneric(value) => Instruction::new(CALL_GENERIC, Some(*value as u128), None),
        Bytecode::Pack(value) => Instruction::new(PACK, Some(*value as u128), None),
        Bytecode::PackGeneric(value) => Instruction::new(PACK_GENERIC, Some(*value as u128), None),
        Bytecode::Unpack(value) => Instruction::new(UNPACK, Some(*value as u128), None),
        Bytecode::UnpackGeneric(value) => Instruction::new(UNPACK_GENERIC, Some(*value as u128), None),
        Bytecode::ReadRef => Instruction::new(READ_REF, None, None),
        Bytecode::WriteRef => Instruction::new(WRITE_REF, None, None),
        Bytecode::FreezeRef => Instruction::new(FREEZE_REF, None, None),
        Bytecode::MutBorrowLoc(value) => Instruction::new(MUT_BORROW_LOC, Some(*value as u128), None),
        Bytecode::ImmBorrowLoc(value) => Instruction::new(IMM_BORROW_LOC, Some(*value as u128), None),
        Bytecode::MutBorrowField(value) => Instruction::new(MUT_BORROW_FIELD, Some(*value as u128), None),
        Bytecode::MutBorrowFieldGeneric(value) => Instruction::new(MUT_BORROW_FIELD_GENERIC, Some(*value as u128), None),
        Bytecode::ImmBorrowField(value) => Instruction::new(IMM_BORROW_FIELD, Some(*value as u128), None),
        Bytecode::ImmBorrowFieldGeneric(value) => Instruction::new(IMM_BORROW_FIELD_GENERIC, Some(*value as u128), None),
        Bytecode::MutBorrowGlobal(value) => Instruction::new(MUT_BORROW_GLOBAL, Some(*value as u128), None),
        Bytecode::MutBorrowGlobalGeneric(value) => Instruction::new(MUT_BORROW_GLOBAL_GENERIC, Some(*value as u128), None),
        Bytecode::ImmBorrowGlobal(value) => Instruction::new(IMM_BORROW_GLOBAL, Some(*value as u128), None),
        Bytecode::ImmBorrowGlobalGeneric(value) => Instruction::new(IMM_BORROW_GLOBAL_GENERIC, Some(*value as u128), None),
        Bytecode::Add => Instruction::new(ADD, None, None),
        Bytecode::Sub => Instruction::new(SUB, None, None),
        Bytecode::Mul => Instruction::new(MUL, None, None),
        Bytecode::Mod => Instruction::new(MOD, None, None),
        Bytecode::Div => Instruction::new(DIV, None, None),
        Bytecode::BitOr => Instruction::new(BIT_OR, None, None),
        Bytecode::BitAnd => Instruction::new(BIT_AND, None, None),
        Bytecode::Xor => Instruction::new(XOR, None, None),
        Bytecode::Or => Instruction::new(OR, None, None),
        Bytecode::And => Instruction::new(AND, None, None),
        Bytecode::Not => Instruction::new(NOT, None, None),
        Bytecode::Eq => Instruction::new(EQ, None, None),
        Bytecode::Neq => Instruction::new(NEQ, None, None),
        Bytecode::Lt => Instruction::new(LT, None, None),
        Bytecode::Gt => Instruction::new(GT, None, None),
        Bytecode::Le => Instruction::new(LE, None, None),
        Bytecode::Ge => Instruction::new(GE, None, None),
        Bytecode::Abort => Instruction::new(ABORT, None, None),
        Bytecode::Nop => Instruction::new(NOP, None, None),
        Bytecode::Exists(value) => Instruction::new(EXISTS, Some(*value as u128), None),
        Bytecode::ExistsGeneric(value) => Instruction::new(EXISTS_GENERIC, Some(*value as u128), None),
        Bytecode::MoveFrom(value) => Instruction::new(MOVE_FROM, Some(*value as u128), None),
        Bytecode::MoveFromGeneric(value) => Instruction::new(MOVE_FROM_GENERIC, Some(*value as u128), None),
        Bytecode::MoveTo(value) => Instruction::new(MOVE_TO, Some(*value as u128), None),
        Bytecode::MoveToGeneric(value) => Instruction::new(MOVE_TO_GENERIC, Some(*value as u128), None),
        Bytecode::Shl => Instruction::new(SHL, None, None),
        Bytecode::Shr => Instruction::new(SHR, None, None),
        Bytecode::VecPack(sig_idx, num) => Instruction::new(
            VEC_PACK,
            Some(*sig_idx as u128),
            Some(*num as u128),
        ),
        Bytecode::VecLen(value) => Instruction::new(VEC_LEN, Some(*value as u128), None),
        Bytecode::VecImmBorrow(value) => Instruction::new(VEC_IMM_BORROW, Some(*value as u128), None),
        Bytecode::VecMutBorrow(value) => Instruction::new(VEC_MUT_BORROW, Some(*value as u128), None),
        Bytecode::VecPushBack(value) => Instruction::new(VEC_PUSH_BACK, Some(*value as u128), None),
        Bytecode::VecPopBack(value) => Instruction::new(VEC_POP_BACK, Some(*value as u128), None),
        Bytecode::VecUnpack(sig_idx, num) => Instruction::new(
            VEC_UNPACK,
            Some(*sig_idx as u128),
            Some(*num as u128),
        ),
        Bytecode::VecSwap(value) => Instruction::new(VEC_SWAP, Some(*value as u128), None),
        Bytecode::LdU16(value) => Instruction::new(LD_U16, Some(*value as u128), None),
        Bytecode::LdU32(value) => Instruction::new(LD_U32, Some(*value as u128), None),
        Bytecode::LdU256(value) => Instruction::new(LD_U256, Some(value.lo), Some(value.hi)),
        Bytecode::CastU16 => Instruction::new(CAST_U16, None, None),
        Bytecode::CastU32 => Instruction::new(CAST_U32, None, None),
        Bytecode::CastU256 => Instruction::new(CAST_U256, None, None),
    }
}

/// The instruction reads or writes global storage.
pub open spec fn touches_global_storage(instruction: Bytecode) -> bool {
    ||| instruction is MutBorrowGlobal
    ||| instruction is MutBorrowGlobalGeneric
    ||| instruction is ImmBorrowGlobal
    ||| instruction is ImmBorrowGlobalGeneric
    ||| instruction is Exists
    ||| instruction is ExistsGeneric
    ||| instruction is MoveFrom
    ||| instruction is MoveFromGeneric
    ||| instruction is MoveTo
    ||| instruction is MoveToGeneric
}

} // verus!
