use witnessing::bytecode::Bytecode;
use witnessing::error::RecorderError;
use witnessing::interpreter::{Frame, Function, Interpreter, Locals, Resolver, Stack};
use witnessing::operation::{CallerInfo, EntryCallOf, ModuleId, OperationOf};
use witnessing::recorder::{footprint_args_processing, footprinting, Footprints};
use witnessing::sub_index::SubIndex;
use witnessing::traced_value::{AccountAddress, Reference, SimpleValue, ValueItem, U256};
use witnessing::values::Value;

fn path(p: &[usize]) -> SubIndex {
    SubIndex::from_path(&p.to_vec()).unwrap()
}

fn leaf(p: &[usize], value: SimpleValue) -> ValueItem {
    ValueItem { sub_index: path(p), header: false, value }
}

fn header(p: &[usize], len: u128, count: u128) -> ValueItem {
    ValueItem { sub_index: path(p), header: true, value: SimpleValue::U256(U256 { hi: len, lo: count }) }
}

fn module(name: &str) -> ModuleId {
    ModuleId { address: AccountAddress { bytes: [1u8; 20] }, name: name.to_string() }
}

fn frame(index: usize, pc: u16, locals: Vec<Option<Value>>) -> Frame {
    Frame {
        function: Function { module_id: Some(module("m")), index },
        pc,
        locals: Locals { values: locals },
    }
}

fn interp(stack: Vec<Value>, callers: usize) -> Interpreter {
    let mut call_stack = Vec::new();
    for i in 0..callers {
        call_stack.push(frame(10 + i, 100 + i as u16, vec![]));
    }
    Interpreter { operand_stack: Stack { value: stack }, call_stack }
}

fn resolver() -> Resolver {
    Resolver {
        function_param_counts: vec![0, 2],
        instantiation_param_counts: vec![1],
        field_counts: vec![2],
        field_instantiation_counts: vec![1],
        field_offsets: vec![0, 1],
        field_instantiation_offsets: vec![3],
    }
}

fn pair(address: usize) -> Value {
    Value::Struct { address, fields: vec![Value::U64(7), Value::U64(9)] }
}

fn pair_items() -> Vec<ValueItem> {
    vec![
        header(&[], 2, 3),
        leaf(&[1], SimpleValue::U64(7)),
        leaf(&[2], SimpleValue::U64(9)),
    ]
}

#[test]
fn leaf_store() {
    let mut fp = Footprints::new();
    let f = frame(4, 7, vec![None]);
    let i = interp(vec![Value::U64(42)], 0);
    footprinting(&f, &Bytecode::StLoc(0), &resolver(), &i, &mut fp).unwrap();
    assert_eq!(fp.data.len(), 1);
    let record = &fp.data[0];
    assert_eq!(
        record.data,
        OperationOf::StLoc {
            local_index: 0,
            old_local: None,
            new_value: vec![leaf(&[0], SimpleValue::U64(42))],
        }
    );
    assert_eq!(record.op, 0x0C);
    assert_eq!(record.aux0, Some(0));
    assert_eq!(record.aux1, None);
    assert_eq!(record.pc, 7);
    assert_eq!(record.function_id, 4);
    assert_eq!(record.frame_index, 0);
    assert_eq!(record.stack_pointer, 1);
    assert_eq!(record.module_id, Some(module("m")));
    assert_eq!(fp.state().len(), 0);
}

#[test]
fn struct_store_and_field_borrow() {
    let a = 0xA000;
    let mut fp = Footprints::new();
    let f = frame(0, 0, vec![None]);
    footprinting(&f, &Bytecode::StLoc(0), &resolver(), &interp(vec![pair(a)], 0), &mut fp).unwrap();
    assert_eq!(
        fp.data[0].data,
        OperationOf::StLoc { local_index: 0, old_local: None, new_value: pair_items() }
    );
    assert_eq!(fp.state().len(), 1);
    assert_eq!(fp.state().lookup(a), Some(Reference::new(0, 0, path(&[]))));
    assert_eq!(fp.state().addressing(0, 0, a), Some(path(&[])));

    let f = frame(0, 1, vec![Some(pair(a))]);
    let reference = Value::ContainerRef { address: a, target: Box::new(pair(a)) };
    footprinting(&f, &Bytecode::ImmBorrowField(1), &resolver(), &interp(vec![reference], 0), &mut fp)
        .unwrap();
    assert_eq!(
        fp.data[1].data,
        OperationOf::BorrowField {
            imm: true,
            fh_idx: 1,
            reference: Reference::new(0, 0, path(&[])),
            field_offset: 1,
        }
    );
    assert_eq!(fp.data[1].op, 0x10);
    assert_eq!(fp.data[1].aux0, Some(1));
}

#[test]
fn move_local() {
    let a = 0xA000;
    let mut fp = Footprints::new();
    footprinting(
        &frame(0, 0, vec![None]),
        &Bytecode::StLoc(0),
        &resolver(),
        &interp(vec![pair(a)], 0),
        &mut fp,
    )
    .unwrap();
    footprinting(
        &frame(0, 1, vec![Some(pair(a))]),
        &Bytecode::MoveLoc(0),
        &resolver(),
        &interp(vec![], 0),
        &mut fp,
    )
    .unwrap();
    assert_eq!(fp.data[1].data, OperationOf::MoveLoc { local_index: 0, local: pair_items() });
    assert_eq!(fp.state().len(), 0);
    assert_eq!(fp.state().lookup(a), None);
    assert_eq!(fp.state().addressing(0, 0, a), None);
}

#[test]
fn vector_push() {
    let v = 0xB000;
    let empty = || Value::Vector { address: v, elements: vec![] };
    let mut fp = Footprints::new();
    footprinting(
        &frame(0, 0, vec![None]),
        &Bytecode::StLoc(0),
        &resolver(),
        &interp(vec![empty()], 0),
        &mut fp,
    )
    .unwrap();
    assert_eq!(
        fp.data[0].data,
        OperationOf::StLoc { local_index: 0, old_local: None, new_value: vec![header(&[], 0, 1)] }
    );
    let vec_ref = Value::ContainerRef { address: v, target: Box::new(empty()) };
    footprinting(
        &frame(0, 1, vec![Some(empty())]),
        &Bytecode::VecPushBack(5),
        &resolver(),
        &interp(vec![vec_ref, Value::U8(5)], 0),
        &mut fp,
    )
    .unwrap();
    assert_eq!(
        fp.data[1].data,
        OperationOf::VecPushBack {
            si: 5,
            vec_len: 0,
            vec_ref: Reference::new(0, 0, path(&[])),
            elem: vec![leaf(&[0], SimpleValue::U8(5))],
        }
    );
    assert_eq!(fp.data[1].op, 0x44);
    assert_eq!(fp.data[1].aux0, Some(5));
    assert_eq!(fp.data[1].stack_pointer, 2);
}

#[test]
fn reference_through_vector_element() {
    let v = 0xB000;
    let s0 = 0xB100;
    let s1 = 0xB200;
    let element = |address: usize, x: u64| Value::Struct { address, fields: vec![Value::U64(x)] };
    let vector = || Value::Vector { address: v, elements: vec![element(s0, 1), element(s1, 2)] };
    let mut fp = Footprints::new();
    footprinting(
        &frame(0, 0, vec![None]),
        &Bytecode::StLoc(0),
        &resolver(),
        &interp(vec![vector()], 0),
        &mut fp,
    )
    .unwrap();
    assert_eq!(
        fp.data[0].data,
        OperationOf::StLoc {
            local_index: 0,
            old_local: None,
            new_value: vec![
                header(&[], 2, 5),
                header(&[1], 1, 1),
                leaf(&[1, 1], SimpleValue::U64(1)),
                header(&[2], 1, 1),
                leaf(&[2, 1], SimpleValue::U64(2)),
            ],
        }
    );
    assert_eq!(fp.state().lookup(s0), Some(Reference::new(0, 0, path(&[1]))));

    let vec_ref = Value::ContainerRef { address: v, target: Box::new(vector()) };
    footprinting(
        &frame(0, 1, vec![Some(vector())]),
        &Bytecode::VecMutBorrow(3),
        &resolver(),
        &interp(vec![vec_ref, Value::U64(1)], 0),
        &mut fp,
    )
    .unwrap();
    assert_eq!(
        fp.data[1].data,
        OperationOf::VecBorrow { si: 3, imm: false, idx: 1, vec_ref: Reference::new(0, 0, path(&[])) }
    );

    let element_ref = Value::ContainerRef { address: s1, target: Box::new(element(s1, 2)) };
    footprinting(
        &frame(0, 2, vec![Some(vector())]),
        &Bytecode::ImmBorrowField(0),
        &resolver(),
        &interp(vec![element_ref], 0),
        &mut fp,
    )
    .unwrap();
    let expected = Reference::new(0, 0, path(&[2]));
    assert_eq!(
        fp.data[2].data,
        OperationOf::BorrowField { imm: true, fh_idx: 0, reference: expected, field_offset: 0 }
    );
    assert_eq!(Reference::new(0, 0, path(&[])).ref_child(1 + 1), expected);
}

#[test]
fn return_clears_frame() {
    let a = 0xA000;
    let b = 0xC000;
    let mut fp = Footprints::new();
    footprint_args_processing(&Function { module_id: None, index: 0 }, &vec![pair(b)], &mut fp)
        .unwrap();
    footprinting(
        &frame(5, 0, vec![None]),
        &Bytecode::StLoc(0),
        &resolver(),
        &interp(vec![pair(a)], 3),
        &mut fp,
    )
    .unwrap();
    assert_eq!(fp.state().lookup(a), Some(Reference::new(3, 0, path(&[]))));
    assert_eq!(fp.state().len(), 2);
    footprinting(
        &frame(5, 9, vec![Some(pair(a))]),
        &Bytecode::Ret,
        &resolver(),
        &interp(vec![], 3),
        &mut fp,
    )
    .unwrap();
    assert_eq!(
        fp.data[2].data,
        OperationOf::Ret {
            caller: Some(CallerInfo {
                frame_index: 2,
                module_id: Some(module("m")),
                function_id: 12,
                pc: 102,
            }),
        }
    );
    assert_eq!(fp.data[2].frame_index, 3);
    assert_eq!(fp.data[2].op, 0x02);
    assert_eq!(fp.state().lookup(a), None);
    assert_eq!(fp.state().addressing(3, 0, a), None);
    assert_eq!(fp.state().lookup(b), Some(Reference::new(0, 0, path(&[]))));
    assert_eq!(fp.state().len(), 1);
}

#[test]
fn return_from_the_entry_frame_has_no_caller() {
    let mut fp = Footprints::new();
    footprinting(&frame(0, 0, vec![]), &Bytecode::Ret, &resolver(), &interp(vec![], 0), &mut fp)
        .unwrap();
    assert_eq!(fp.data[0].data, OperationOf::Ret { caller: None });
}

#[test]
fn entry_call_is_recorded_with_a_zero_header() {
    let a = 0xA000;
    let mut fp = Footprints::new();
    let function = Function { module_id: Some(module("entry")), index: 6 };
    footprint_args_processing(&function, &vec![Value::Bool(true), pair(a)], &mut fp).unwrap();
    assert_eq!(fp.data.len(), 1);
    let record = &fp.data[0];
    assert_eq!(record.op, 0);
    assert_eq!(record.module_id, None);
    assert_eq!(record.function_id, 0);
    assert_eq!(record.pc, 0);
    assert_eq!(record.frame_index, 0);
    assert_eq!(record.stack_pointer, 0);
    assert_eq!(record.aux0, None);
    assert_eq!(record.aux1, None);
    assert_eq!(
        record.data,
        OperationOf::Start {
            entry_call: EntryCallOf {
                module_id: Some(module("entry")),
                function_index: 6,
                args: vec![vec![leaf(&[], SimpleValue::Bool(true))], pair_items()],
            },
        }
    );
    assert_eq!(fp.state().lookup(a), Some(Reference::new(0, 1, path(&[]))));
    assert_eq!(fp.state().len(), 1);
}

#[test]
fn store_replaces_what_the_local_owned() {
    let a = 0xA000;
    let b = 0xB000;
    let mut fp = Footprints::new();
    footprinting(
        &frame(0, 0, vec![None]),
        &Bytecode::StLoc(0),
        &resolver(),
        &interp(vec![pair(a)], 0),
        &mut fp,
    )
    .unwrap();
    footprinting(
        &frame(0, 1, vec![Some(pair(a))]),
        &Bytecode::StLoc(0),
        &resolver(),
        &interp(vec![pair(b)], 0),
        &mut fp,
    )
    .unwrap();
    assert_eq!(
        fp.data[1].data,
        OperationOf::StLoc { local_index: 0, old_local: Some(pair_items()), new_value: pair_items() }
    );
    assert_eq!(fp.state().lookup(a), None);
    assert_eq!(fp.state().lookup(b), Some(Reference::new(0, 0, path(&[]))));
    assert_eq!(fp.state().len(), 1);
}

#[test]
fn global_storage_is_unsupported() {
    let globals = [
        Bytecode::MutBorrowGlobal(0),
        Bytecode::MutBorrowGlobalGeneric(0),
        Bytecode::ImmBorrowGlobal(0),
        Bytecode::ImmBorrowGlobalGeneric(0),
        Bytecode::Exists(0),
        Bytecode::ExistsGeneric(0),
        Bytecode::MoveFrom(0),
        Bytecode::MoveFromGeneric(0),
        Bytecode::MoveTo(0),
        Bytecode::MoveToGeneric(0),
    ];
    for instruction in globals.iter() {
        let mut fp = Footprints::new();
        let r = footprinting(&frame(0, 0, vec![]), instruction, &resolver(), &interp(vec![], 0), &mut fp);
        assert_eq!(r, Err(RecorderError::UnsupportedInstruction));
        assert_eq!(fp.data.len(), 0);
    }
}

#[test]
fn unknown_pointer_is_a_lookup_miss() {
    let mut fp = Footprints::new();
    let reference = Value::ContainerRef { address: 77, target: Box::new(pair(77)) };
    let r = footprinting(
        &frame(0, 0, vec![]),
        &Bytecode::ReadRef,
        &resolver(),
        &interp(vec![reference], 0),
        &mut fp,
    );
    assert_eq!(r, Err(RecorderError::PointerLookupMiss));
    assert_eq!(fp.data.len(), 0);
    let reference = Value::ContainerRef { address: 77, target: Box::new(pair(77)) };
    let r = footprinting(
        &frame(0, 0, vec![]),
        &Bytecode::MutBorrowField(0),
        &resolver(),
        &interp(vec![reference], 0),
        &mut fp,
    );
    assert_eq!(r, Err(RecorderError::PointerLookupMiss));
}

#[test]
fn reference_inside_a_container_is_refused() {
    let inner = Value::ContainerRef { address: 1, target: Box::new(Value::U8(0)) };
    let value = Value::Struct { address: 2, fields: vec![Value::U8(1), inner] };
    let mut fp = Footprints::new();
    let r = footprinting(&frame(0, 0, vec![]), &Bytecode::Pop, &resolver(), &interp(vec![value], 0), &mut fp);
    assert_eq!(r, Err(RecorderError::InvalidVisitorState));
    assert_eq!(fp.data.len(), 0);
}

#[test]
fn reference_where_a_plain_value_is_due_is_refused() {
    let reference = Value::ContainerRef { address: 1, target: Box::new(pair(1)) };
    let mut fp = Footprints::new();
    let r =
        footprinting(&frame(0, 0, vec![]), &Bytecode::Pop, &resolver(), &interp(vec![reference], 0), &mut fp);
    assert_eq!(r, Err(RecorderError::InvalidVisitorState));
}

#[test]
fn short_stack_and_wrong_type_are_access_errors() {
    let mut fp = Footprints::new();
    let f = frame(0, 0, vec![None]);
    let r = resolver();
    assert_eq!(
        footprinting(&f, &Bytecode::Pop, &r, &interp(vec![], 0), &mut fp),
        Err(RecorderError::OperandAccess)
    );
    assert_eq!(
        footprinting(&f, &Bytecode::Add, &r, &interp(vec![Value::U8(1)], 0), &mut fp),
        Err(RecorderError::OperandAccess)
    );
    assert_eq!(
        footprinting(&f, &Bytecode::BrTrue(3), &r, &interp(vec![Value::U8(1)], 0), &mut fp),
        Err(RecorderError::OperandAccess)
    );
    assert_eq!(
        footprinting(&f, &Bytecode::CopyLoc(0), &r, &interp(vec![], 0), &mut fp),
        Err(RecorderError::OperandAccess)
    );
    assert_eq!(
        footprinting(&f, &Bytecode::CopyLoc(4), &r, &interp(vec![], 0), &mut fp),
        Err(RecorderError::OperandAccess)
    );
    assert_eq!(
        footprinting(&f, &Bytecode::Call(9), &r, &interp(vec![], 0), &mut fp),
        Err(RecorderError::OperandAccess)
    );
    assert_eq!(
        footprinting(&f, &Bytecode::StLoc(3), &r, &interp(vec![Value::U8(1)], 0), &mut fp),
        Err(RecorderError::OperandAccess)
    );
    assert_eq!(fp.data.len(), 0);
    assert_eq!(fp.state().len(), 0);
}
