use witnessing::bytecode::{serialize_instruction, Bytecode, Instruction};
use witnessing::operation::{BinaryIntegerOperationType, NotBinaryOperation};
use witnessing::traced_value::U256;

fn check(instruction: Bytecode, opcodes: u8, aux0: Option<u128>, aux1: Option<u128>) {
    assert_eq!(serialize_instruction(&instruction), Instruction::new(opcodes, aux0, aux1));
}

#[test]
fn instructions_without_immediates() {
    check(Bytecode::Pop, 0x01, None, None);
    check(Bytecode::Ret, 0x02, None, None);
    check(Bytecode::LdTrue, 0x08, None, None);
    check(Bytecode::LdFalse, 0x09, None, None);
    check(Bytecode::ReadRef, 0x14, None, None);
    check(Bytecode::WriteRef, 0x15, None, None);
    check(Bytecode::Add, 0x16, None, None);
    check(Bytecode::Sub, 0x17, None, None);
    check(Bytecode::Mul, 0x18, None, None);
    check(Bytecode::Mod, 0x19, None, None);
    check(Bytecode::Div, 0x1A, None, None);
    check(Bytecode::BitOr, 0x1B, None, None);
    check(Bytecode::BitAnd, 0x1C, None, None);
    check(Bytecode::Xor, 0x1D, None, None);
    check(Bytecode::Or, 0x1E, None, None);
    check(Bytecode::And, 0x1F, None, None);
    check(Bytecode::Not, 0x20, None, None);
    check(Bytecode::Eq, 0x21, None, None);
    check(Bytecode::Neq, 0x22, None, None);
    check(Bytecode::Lt, 0x23, None, None);
    check(Bytecode::Gt, 0x24, None, None);
    check(Bytecode::Le, 0x25, None, None);
    check(Bytecode::Ge, 0x26, None, None);
    check(Bytecode::Abort, 0x27, None, None);
    check(Bytecode::Nop, 0x28, None, None);
    check(Bytecode::FreezeRef, 0x2E, None, None);
    check(Bytecode::Shl, 0x2F, None, None);
    check(Bytecode::Shr, 0x30, None, None);
    check(Bytecode::CastU8, 0x33, None, None);
    check(Bytecode::CastU64, 0x34, None, None);
    check(Bytecode::CastU128, 0x35, None, None);
    check(Bytecode::CastU16, 0x4B, None, None);
    check(Bytecode::CastU32, 0x4C, None, None);
    check(Bytecode::CastU256, 0x4D, None, None);
}

#[test]
fn offsets_and_indices_go_into_the_first_immediate() {
    check(Bytecode::BrTrue(7), 0x03, Some(7), None);
    check(Bytecode::BrFalse(8), 0x04, Some(8), None);
    check(Bytecode::Branch(65535), 0x05, Some(65535), None);
    check(Bytecode::LdConst(9), 0x07, Some(9), None);
    check(Bytecode::CopyLoc(255), 0x0A, Some(255), None);
    check(Bytecode::MoveLoc(1), 0x0B, Some(1), None);
    check(Bytecode::StLoc(2), 0x0C, Some(2), None);
    check(Bytecode::MutBorrowLoc(3), 0x0D, Some(3), None);
    check(Bytecode::ImmBorrowLoc(4), 0x0E, Some(4), None);
    check(Bytecode::MutBorrowField(5), 0x0F, Some(5), None);
    check(Bytecode::ImmBorrowField(6), 0x10, Some(6), None);
    check(Bytecode::Call(10), 0x11, Some(10), None);
    check(Bytecode::Pack(11), 0x12, Some(11), None);
    check(Bytecode::Unpack(12), 0x13, Some(12), None);
    check(Bytecode::Exists(13), 0x29, Some(13), None);
    check(Bytecode::MutBorrowGlobal(14), 0x2A, Some(14), None);
    check(Bytecode::ImmBorrowGlobal(15), 0x2B, Some(15), None);
    check(Bytecode::MoveFrom(16), 0x2C, Some(16), None);
    check(Bytecode::MoveTo(17), 0x2D, Some(17), None);
    check(Bytecode::MutBorrowFieldGeneric(18), 0x36, Some(18), None);
    check(Bytecode::ImmBorrowFieldGeneric(19), 0x37, Some(19), None);
    check(Bytecode::CallGeneric(20), 0x38, Some(20), None);
    check(Bytecode::PackGeneric(21), 0x39, Some(21), None);
    check(Bytecode::UnpackGeneric(22), 0x3A, Some(22), None);
    check(Bytecode::ExistsGeneric(23), 0x3B, Some(23), None);
    check(Bytecode::MutBorrowGlobalGeneric(24), 0x3C, Some(24), None);
    check(Bytecode::ImmBorrowGlobalGeneric(25), 0x3D, Some(25), None);
    check(Bytecode::MoveFromGeneric(26), 0x3E, Some(26), None);
    check(Bytecode::MoveToGeneric(27), 0x3F, Some(27), None);
    check(Bytecode::VecLen(28), 0x41, Some(28), None);
    check(Bytecode::VecImmBorrow(29), 0x42, Some(29), None);
    check(Bytecode::VecMutBorrow(30), 0x43, Some(30), None);
    check(Bytecode::VecPushBack(31), 0x44, Some(31), None);
    check(Bytecode::VecPopBack(32), 0x45, Some(32), None);
    check(Bytecode::VecSwap(33), 0x47, Some(33), None);
}

#[test]
fn literals_go_into_the_immediates() {
    check(Bytecode::LdU8(200), 0x31, Some(200), None);
    check(Bytecode::LdU16(60000), 0x48, Some(60000), None);
    check(Bytecode::LdU32(u32::MAX), 0x49, Some(u32::MAX as u128), None);
    check(Bytecode::LdU64(u64::MAX), 0x06, Some(u64::MAX as u128), None);
    check(Bytecode::LdU128(u128::MAX), 0x32, Some(u128::MAX), None);
    check(Bytecode::LdU256(U256 { hi: 5, lo: 6 }), 0x4A, Some(6), Some(5));
    check(
        Bytecode::LdU256(U256 { hi: u128::MAX, lo: 0 }),
        0x4A,
        Some(0),
        Some(u128::MAX),
    );
}

#[test]
fn vector_lengths_go_into_the_second_immediate() {
    check(Bytecode::VecPack(3, 4), 0x40, Some(3), Some(4));
    check(Bytecode::VecUnpack(5, u64::MAX), 0x46, Some(5), Some(u64::MAX as u128));
}

#[test]
fn twelve_instructions_are_binary_operations() {
    let table = [
        (Bytecode::Add, BinaryIntegerOperationType::Add),
        (Bytecode::Sub, BinaryIntegerOperationType::Sub),
        (Bytecode::Mul, BinaryIntegerOperationType::Mul),
        (Bytecode::Mod, BinaryIntegerOperationType::Mod),
        (Bytecode::Div, BinaryIntegerOperationType::Div),
        (Bytecode::BitOr, BinaryIntegerOperationType::BitOr),
        (Bytecode::BitAnd, BinaryIntegerOperationType::BitAnd),
        (Bytecode::Xor, BinaryIntegerOperationType::Xor),
        (Bytecode::Lt, BinaryIntegerOperationType::Lt),
        (Bytecode::Gt, BinaryIntegerOperationType::Gt),
        (Bytecode::Le, BinaryIntegerOperationType::Le),
        (Bytecode::Ge, BinaryIntegerOperationType::Ge),
    ];
    for (instruction, kind) in table {
        assert_eq!(BinaryIntegerOperationType::try_from(instruction), Ok(kind));
    }
    for instruction in [Bytecode::Shl, Bytecode::Or, Bytecode::Eq, Bytecode::Pop, Bytecode::LdU8(1)] {
        assert_eq!(BinaryIntegerOperationType::try_from(instruction), Err(NotBinaryOperation));
    }
}
