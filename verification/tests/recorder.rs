use witnessing::bytecode::Bytecode;
use witnessing::error::RecorderError;
use witnessing::interpreter::{copy_module_id, Frame, Function, Interpreter, Locals, Resolver, Stack};
use witnessing::operation::{BinaryIntegerOperationType, Operation, OperationOf};
use witnessing::recorder::{footprinting, Footprints};
use witnessing::sub_index::SubIndex;
use witnessing::traced_value::{Integer, Reference, SimpleValue, ValueItem, U256};
use witnessing::values::Value;

fn path(p: &[usize]) -> SubIndex {
    SubIndex::from_path(&p.to_vec()).unwrap()
}

fn leaf(p: &[usize], value: SimpleValue) -> ValueItem {
    ValueItem { sub_index: path(p), header: false, value }
}

fn header(p: &[usize], len: u128, count: u128) -> ValueItem {
    ValueItem { sub_index: path(p), header: true, value: SimpleValue::U256(U256 { hi: len, lo: count }) }
}

fn frame(locals: Vec<Option<Value>>) -> Frame {
    Frame { function: Function { module_id: None, index: 1 }, pc: 2, locals: Locals { values: locals } }
}

fn interp(stack: Vec<Value>) -> Interpreter {
    Interpreter { operand_stack: Stack { value: stack }, call_stack: vec![] }
}

fn resolver() -> Resolver {
    Resolver {
        function_param_counts: vec![0, 2],
        instantiation_param_counts: vec![1],
        field_counts: vec![2],
        field_instantiation_counts: vec![1, 3],
        field_offsets: vec![0, 1],
        field_instantiation_offsets: vec![3],
    }
}

fn numbers(address: usize, xs: &[u64]) -> Value {
    Value::Vector { address, elements: xs.iter().map(|x| Value::U64(*x)).collect() }
}

fn record(fp: &mut Footprints, locals: Vec<Option<Value>>, instruction: Bytecode, stack: Vec<Value>)
    -> Result<Operation, RecorderError>
{
    let before = fp.data.len();
    footprinting(&frame(locals), &instruction, &resolver(), &interp(stack), fp)?;
    assert_eq!(fp.data.len(), before + 1);
    Ok(fp.data[before].data.clone())
}

fn once(instruction: Bytecode, stack: Vec<Value>) -> Result<Operation, RecorderError> {
    record(&mut Footprints::new(), vec![], instruction, stack)
}

/// A recorder whose local 0 of frame 0 holds the vector `[10, 20, 30]` at address 500.
fn with_vector() -> (Footprints, Value) {
    let mut fp = Footprints::new();
    record(&mut fp, vec![None], Bytecode::StLoc(0), vec![numbers(500, &[10, 20, 30])]).unwrap();
    let vec_ref =
        Value::ContainerRef { address: 500, target: Box::new(numbers(500, &[10, 20, 30])) };
    (fp, vec_ref)
}

#[test]
fn pop_snapshots_the_top() {
    assert_eq!(
        once(Bytecode::Pop, vec![Value::U8(1), Value::Bool(true)]),
        Ok(OperationOf::Pop { poped_value: vec![leaf(&[], SimpleValue::Bool(true))] })
    );
}

#[test]
fn branches_record_condition_and_offset() {
    assert_eq!(
        once(Bytecode::BrTrue(9), vec![Value::Bool(true)]),
        Ok(OperationOf::BrTrue { cond_val: true, code_offset: 9 })
    );
    assert_eq!(
        once(Bytecode::BrFalse(4), vec![Value::Bool(true)]),
        Ok(OperationOf::BrFalse { cond_val: true, code_offset: 4 })
    );
    assert_eq!(once(Bytecode::Branch(3), vec![]), Ok(OperationOf::Branch(3)));
}

#[test]
fn loads_record_the_literal() {
    assert_eq!(once(Bytecode::LdU8(1), vec![]), Ok(OperationOf::LdSimple(Integer::U8(1))));
    assert_eq!(once(Bytecode::LdU16(2), vec![]), Ok(OperationOf::LdSimple(Integer::U16(2))));
    assert_eq!(once(Bytecode::LdU32(3), vec![]), Ok(OperationOf::LdSimple(Integer::U32(3))));
    assert_eq!(once(Bytecode::LdU64(4), vec![]), Ok(OperationOf::LdSimple(Integer::U64(4))));
    assert_eq!(once(Bytecode::LdU128(5), vec![]), Ok(OperationOf::LdSimple(Integer::U128(5))));
    let big = U256 { hi: 1, lo: 2 };
    assert_eq!(once(Bytecode::LdU256(big), vec![]), Ok(OperationOf::LdSimple(Integer::U256(big))));
    assert_eq!(once(Bytecode::LdTrue, vec![]), Ok(OperationOf::LdTrue));
    assert_eq!(once(Bytecode::LdFalse, vec![]), Ok(OperationOf::LdFalse));
    assert_eq!(once(Bytecode::LdConst(6), vec![]), Ok(OperationOf::LdConst { const_pool_index: 6 }));
    assert_eq!(once(Bytecode::FreezeRef, vec![]), Ok(OperationOf::FreezeRef));
    assert_eq!(once(Bytecode::Nop, vec![]), Ok(OperationOf::Nop));
}

#[test]
fn casts_record_the_source_integer() {
    let origin = Integer::U16(300);
    let stack = || vec![Value::U16(300)];
    assert_eq!(once(Bytecode::CastU8, stack()), Ok(OperationOf::CastU8 { origin }));
    assert_eq!(once(Bytecode::CastU16, stack()), Ok(OperationOf::CastU16 { origin }));
    assert_eq!(once(Bytecode::CastU32, stack()), Ok(OperationOf::CastU32 { origin }));
    assert_eq!(once(Bytecode::CastU64, stack()), Ok(OperationOf::CastU64 { origin }));
    assert_eq!(once(Bytecode::CastU128, stack()), Ok(OperationOf::CastU128 { origin }));
    assert_eq!(once(Bytecode::CastU256, stack()), Ok(OperationOf::CastU256 { origin }));
    assert_eq!(once(Bytecode::CastU8, vec![Value::Bool(true)]), Err(RecorderError::OperandAccess));
}

#[test]
fn copy_loc_snapshots_the_local() {
    let mut fp = Footprints::new();
    assert_eq!(
        record(&mut fp, vec![None, Some(Value::U32(8))], Bytecode::CopyLoc(1), vec![]),
        Ok(OperationOf::CopyLoc { local_index: 1, local: vec![leaf(&[], SimpleValue::U32(8))] })
    );
}

#[test]
fn local_that_holds_a_reference_is_resolved() {
    let (mut fp, vec_ref) = with_vector();
    let expected = leaf(&[], SimpleValue::Reference(Reference::new(0, 0, path(&[]))));
    assert_eq!(
        record(&mut fp, vec![None, Some(vec_ref)], Bytecode::CopyLoc(1), vec![]),
        Ok(OperationOf::CopyLoc { local_index: 1, local: vec![expected] })
    );
    let element = Value::IndexedRef { address: 500, index: 1, target: Box::new(Value::U64(20)) };
    let expected = leaf(&[], SimpleValue::Reference(Reference::new(0, 0, path(&[2]))));
    assert_eq!(
        record(&mut fp, vec![None, Some(element)], Bytecode::MoveLoc(1), vec![]),
        Ok(OperationOf::MoveLoc { local_index: 1, local: vec![expected] })
    );
    assert_eq!(fp.state().len(), 1);
}

#[test]
fn moving_a_reference_into_its_own_local_misses() {
    let (mut fp, vec_ref) = with_vector();
    assert_eq!(
        record(&mut fp, vec![Some(vec_ref)], Bytecode::MoveLoc(0), vec![]),
        Err(RecorderError::PointerLookupMiss)
    );
    assert_eq!(fp.state().len(), 1);
    assert_eq!(fp.data.len(), 1);
}

#[test]
fn calls_snapshot_the_arguments_in_source_order() {
    let stack = || vec![Value::U8(1), Value::U8(2), Value::U8(3)];
    assert_eq!(
        once(Bytecode::Call(1), stack()),
        Ok(OperationOf::Call {
            fh_idx: 1,
            args: vec![vec![leaf(&[], SimpleValue::U8(2))], vec![leaf(&[], SimpleValue::U8(3))]],
        })
    );
    assert_eq!(once(Bytecode::Call(0), stack()), Ok(OperationOf::Call { fh_idx: 0, args: vec![] }));
    assert_eq!(
        once(Bytecode::CallGeneric(0), stack()),
        Ok(OperationOf::CallGeneric { fh_idx: 0, args: vec![vec![leaf(&[], SimpleValue::U8(3))]] })
    );
    assert_eq!(once(Bytecode::Call(1), vec![Value::U8(1)]), Err(RecorderError::OperandAccess));
    assert_eq!(once(Bytecode::CallGeneric(1), stack()), Err(RecorderError::OperandAccess));
}

#[test]
fn pack_and_unpack_carry_the_field_count() {
    let stack = || vec![Value::U8(1), Value::U8(2), Value::U8(3)];
    let two = vec![vec![leaf(&[], SimpleValue::U8(2))], vec![leaf(&[], SimpleValue::U8(3))]];
    assert_eq!(
        once(Bytecode::Pack(0), stack()),
        Ok(OperationOf::Pack { sd_idx: 0, num: 2, args: two })
    );
    assert_eq!(
        once(Bytecode::PackGeneric(0), stack()),
        Ok(OperationOf::PackGeneric {
            si_idx: 0,
            num: 1,
            args: vec![vec![leaf(&[], SimpleValue::U8(3))]],
        })
    );
    let pair = || Value::Struct { address: 1, fields: vec![Value::U8(4), Value::U8(5)] };
    let items = vec![header(&[], 2, 3), leaf(&[1], SimpleValue::U8(4)), leaf(&[2], SimpleValue::U8(5))];
    assert_eq!(
        once(Bytecode::Unpack(0), vec![pair()]),
        Ok(OperationOf::Unpack { sd_idx: 0, num: 2, arg: items.clone() })
    );
    assert_eq!(
        once(Bytecode::UnpackGeneric(1), vec![pair()]),
        Ok(OperationOf::UnpackGeneric { sd_idx: 1, num: 3, arg: items })
    );
    assert_eq!(once(Bytecode::Pack(1), stack()), Err(RecorderError::OperandAccess));
    assert_eq!(once(Bytecode::Unpack(0), vec![]), Err(RecorderError::OperandAccess));
}

#[test]
fn read_ref_snapshots_what_the_reference_points_at() {
    let (mut fp, vec_ref) = with_vector();
    assert_eq!(
        record(&mut fp, vec![], Bytecode::ReadRef, vec![vec_ref]),
        Ok(OperationOf::ReadRef {
            reference: Reference::new(0, 0, path(&[])),
            value: vec![
                header(&[], 3, 4),
                leaf(&[1], SimpleValue::U64(10)),
                leaf(&[2], SimpleValue::U64(20)),
                leaf(&[3], SimpleValue::U64(30)),
            ],
        })
    );
    let element = Value::IndexedRef { address: 500, index: 2, target: Box::new(Value::U64(30)) };
    assert_eq!(
        record(&mut fp, vec![], Bytecode::ReadRef, vec![element]),
        Ok(OperationOf::ReadRef {
            reference: Reference::new(0, 0, path(&[3])),
            value: vec![leaf(&[], SimpleValue::U64(30))],
        })
    );
    assert_eq!(
        record(&mut fp, vec![], Bytecode::ReadRef, vec![Value::U8(1)]),
        Err(RecorderError::InvalidVisitorState)
    );
}

#[test]
fn write_ref_snapshots_old_and_new() {
    let (mut fp, _) = with_vector();
    let element = Value::IndexedRef { address: 500, index: 0, target: Box::new(Value::U64(10)) };
    assert_eq!(
        record(&mut fp, vec![], Bytecode::WriteRef, vec![Value::U64(99), element]),
        Ok(OperationOf::WriteRef {
            reference: Reference::new(0, 0, path(&[1])),
            old_value: vec![leaf(&[], SimpleValue::U64(10))],
            new_value: vec![leaf(&[], SimpleValue::U64(99))],
        })
    );
    let element = Value::IndexedRef { address: 500, index: 0, target: Box::new(Value::U64(10)) };
    assert_eq!(
        record(&mut fp, vec![], Bytecode::WriteRef, vec![element]),
        Err(RecorderError::OperandAccess)
    );
}

#[test]
fn borrow_loc_records_the_slot() {
    assert_eq!(
        once(Bytecode::MutBorrowLoc(3), vec![]),
        Ok(OperationOf::BorrowLoc { imm: false, local_index: 3 })
    );
    assert_eq!(
        once(Bytecode::ImmBorrowLoc(4), vec![]),
        Ok(OperationOf::BorrowLoc { imm: true, local_index: 4 })
    );
}

#[test]
fn field_borrows_resolve_the_struct() {
    let (mut fp, vec_ref) = with_vector();
    let reference = Reference::new(0, 0, path(&[]));
    let again = || Value::ContainerRef { address: 500, target: Box::new(Value::U8(0)) };
    assert_eq!(
        record(&mut fp, vec![], Bytecode::MutBorrowField(1), vec![vec_ref]),
        Ok(OperationOf::BorrowField { imm: false, fh_idx: 1, reference, field_offset: 1 })
    );
    assert_eq!(
        record(&mut fp, vec![], Bytecode::ImmBorrowField(0), vec![again()]),
        Ok(OperationOf::BorrowField { imm: true, fh_idx: 0, reference, field_offset: 0 })
    );
    assert_eq!(
        record(&mut fp, vec![], Bytecode::MutBorrowFieldGeneric(0), vec![again()]),
        Ok(OperationOf::BorrowFieldGeneric { fi_idx: 0, imm: false, reference, field_offset: 3 })
    );
    assert_eq!(
        record(&mut fp, vec![], Bytecode::ImmBorrowFieldGeneric(0), vec![again()]),
        Ok(OperationOf::BorrowFieldGeneric { fi_idx: 0, imm: true, reference, field_offset: 3 })
    );
    assert_eq!(
        record(&mut fp, vec![], Bytecode::ImmBorrowField(7), vec![again()]),
        Err(RecorderError::OperandAccess)
    );
    let element = Value::IndexedRef { address: 500, index: 0, target: Box::new(Value::U64(10)) };
    assert_eq!(
        record(&mut fp, vec![], Bytecode::ImmBorrowField(0), vec![element]),
        Err(RecorderError::OperandAccess)
    );
}

#[test]
fn binary_operations_record_both_operands() {
    let table = [
        (Bytecode::Add, BinaryIntegerOperationType::Add),
        (Bytecode::Sub, BinaryIntegerOperationType::Sub),
        (Bytecode::Mul, BinaryIntegerOperationType::Mul),
        (Bytecode::Mod, BinaryIntegerOperationType::Mod),
        (Bytecode::Div, BinaryIntegerOperationType::Div),
        (Bytecode::BitOr, BinaryIntegerOperationType::BitOr),
        (Bytecode::BitAnd, BinaryIntegerOperationType::BitAnd),
        (Bytecode::Xor, BinaryIntegerOperationType::Xor),
        (Bytecode::Lt, BinaryIntegerOperationType::Lt),
        (Bytecode::Gt, BinaryIntegerOperationType::Gt),
        (Bytecode::Le, BinaryIntegerOperationType::Le),
        (Bytecode::Ge, BinaryIntegerOperationType::Ge),
    ];
    for (instruction, ty) in table {
        assert_eq!(
            once(instruction, vec![Value::U8(9), Value::U64(7), Value::U64(8)]),
            Ok(OperationOf::BinaryOp { ty, lhs: Integer::U64(7), rhs: Integer::U64(8) })
        );
    }
}

#[test]
fn logic_records_what_the_stack_held() {
    let stack = || vec![Value::Bool(true), Value::Bool(false)];
    assert_eq!(once(Bytecode::Or, stack()), Ok(OperationOf::Or { lhs: true, rhs: false }));
    assert_eq!(once(Bytecode::And, stack()), Ok(OperationOf::And { lhs: true, rhs: false }));
    assert_eq!(once(Bytecode::Not, stack()), Ok(OperationOf::Not { value: false }));
    assert_eq!(once(Bytecode::Or, vec![Value::Bool(true)]), Err(RecorderError::OperandAccess));
}

#[test]
fn shifts_record_amount_and_integer() {
    let stack = || vec![Value::U128(5), Value::U8(3)];
    assert_eq!(once(Bytecode::Shl, stack()), Ok(OperationOf::Shl { rhs: 3, lhs: Integer::U128(5) }));
    assert_eq!(once(Bytecode::Shr, stack()), Ok(OperationOf::Shr { rhs: 3, lhs: Integer::U128(5) }));
    assert_eq!(
        once(Bytecode::Shl, vec![Value::U128(5), Value::U16(3)]),
        Err(RecorderError::OperandAccess)
    );
}

#[test]
fn equality_snapshots_both_operands() {
    let stack = || vec![Value::U8(1), Value::U8(2)];
    let lhs = vec![leaf(&[], SimpleValue::U8(1))];
    let rhs = vec![leaf(&[], SimpleValue::U8(2))];
    assert_eq!(
        once(Bytecode::Eq, stack()),
        Ok(OperationOf::Eq { lhs: lhs.clone(), rhs: rhs.clone() })
    );
    assert_eq!(once(Bytecode::Neq, stack()), Ok(OperationOf::Neq { lhs, rhs }));
}

#[test]
fn abort_records_the_code() {
    assert_eq!(once(Bytecode::Abort, vec![Value::U64(77)]), Ok(OperationOf::Abort { error_code: 77 }));
    assert_eq!(once(Bytecode::Abort, vec![Value::U8(77)]), Err(RecorderError::OperandAccess));
}

#[test]
fn vec_pack_and_unpack() {
    let stack = || vec![Value::U8(1), Value::U8(2), Value::U8(3)];
    assert_eq!(
        once(Bytecode::VecPack(4, 2), stack()),
        Ok(OperationOf::VecPack {
            si: 4,
            num: 2,
            args: vec![vec![leaf(&[], SimpleValue::U8(2))], vec![leaf(&[], SimpleValue::U8(3))]],
        })
    );
    assert_eq!(once(Bytecode::VecPack(4, 4), stack()), Err(RecorderError::OperandAccess));
    assert_eq!(once(Bytecode::VecPack(4, u64::MAX), stack()), Err(RecorderError::OperandAccess));
    assert_eq!(
        once(Bytecode::VecUnpack(4, 2), vec![numbers(1, &[5, 6])]),
        Ok(OperationOf::VecUnpack {
            si: 4,
            num: 2,
            arg: vec![header(&[], 2, 3), leaf(&[1], SimpleValue::U64(5)), leaf(&[2], SimpleValue::U64(6))],
        })
    );
}

#[test]
fn vec_len_and_borrow() {
    let (mut fp, vec_ref) = with_vector();
    let reference = Reference::new(0, 0, path(&[]));
    assert_eq!(
        record(&mut fp, vec![], Bytecode::VecLen(2), vec![vec_ref]),
        Ok(OperationOf::VecLen { si: 2, vec_ref: reference, len: 3 })
    );
    let (mut fp, vec_ref) = with_vector();
    assert_eq!(
        record(&mut fp, vec![], Bytecode::VecImmBorrow(2), vec![vec_ref, Value::U64(1)]),
        Ok(OperationOf::VecBorrow { si: 2, imm: true, idx: 1, vec_ref: reference })
    );
    let not_a_vector = Value::ContainerRef { address: 500, target: Box::new(Value::U8(1)) };
    assert_eq!(
        record(&mut fp, vec![], Bytecode::VecLen(2), vec![not_a_vector]),
        Err(RecorderError::OperandAccess)
    );
}

#[test]
fn vec_pop_back_reads_the_last_element() {
    let (mut fp, vec_ref) = with_vector();
    assert_eq!(
        record(&mut fp, vec![], Bytecode::VecPopBack(2), vec![vec_ref]),
        Ok(OperationOf::VecPopBack {
            si: 2,
            vec_len: 3,
            vec_ref: Reference::new(0, 0, path(&[])),
            elem: vec![leaf(&[], SimpleValue::U64(30))],
        })
    );
    let empty = Value::ContainerRef { address: 500, target: Box::new(numbers(500, &[])) };
    assert_eq!(
        record(&mut fp, vec![], Bytecode::VecPopBack(2), vec![empty]),
        Err(RecorderError::OperandAccess)
    );
}

#[test]
fn vec_swap_reads_both_elements() {
    let (mut fp, vec_ref) = with_vector();
    assert_eq!(
        record(&mut fp, vec![], Bytecode::VecSwap(2), vec![vec_ref, Value::U64(0), Value::U64(2)]),
        Ok(OperationOf::VecSwap {
            si: 2,
            vec_ref: Reference::new(0, 0, path(&[])),
            vec_len: 3,
            idx1: 0,
            idx2: 2,
            idx1_elem: vec![leaf(&[], SimpleValue::U64(10))],
            idx2_elem: vec![leaf(&[], SimpleValue::U64(30))],
        })
    );
    let (mut fp, vec_ref) = with_vector();
    assert_eq!(
        record(&mut fp, vec![], Bytecode::VecSwap(2), vec![vec_ref, Value::U64(0), Value::U64(3)]),
        Err(RecorderError::OperandAccess)
    );
}

#[test]
fn a_refused_instruction_changes_nothing() {
    let (mut fp, _) = with_vector();
    let before = fp.data.clone();
    let stale = Value::ContainerRef { address: 9, target: Box::new(Value::U8(0)) };
    assert_eq!(
        record(&mut fp, vec![Some(stale)], Bytecode::StLoc(0), vec![numbers(600, &[1])]),
        Err(RecorderError::PointerLookupMiss)
    );
    assert_eq!(fp.data, before);
    assert_eq!(fp.state().len(), 1);
    assert_eq!(fp.state().lookup(500), Some(Reference::new(0, 0, path(&[]))));
    assert_eq!(fp.state().lookup(600), None);
}

#[test]
fn module_id_is_copied() {
    assert_eq!(copy_module_id(&None), None);
}
