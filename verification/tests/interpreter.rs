use std::collections::BTreeMap;
use witnessing::error::RecorderError;
use witnessing::interpreter::{Frame, Function, Interpreter, Locals, Resolver, Stack};
use witnessing::operation::CallerInfo;
use witnessing::payload::read_integer;
use witnessing::recorder::Footprints;
use witnessing::snapshot::{snapshot, snapshot_all, snapshot_all_plain, snapshot_plain};
use witnessing::sub_index::SubIndex;
use witnessing::traced_value::{
    AccountAddress, Integer, IntegerValue, Reference, SimpleValue, ValueItem, U256,
};
use witnessing::values::Value;
use witnessing::vector_payload::borrow_elem;

fn root_leaf(value: SimpleValue) -> ValueItem {
    ValueItem { sub_index: SubIndex::root(), header: false, value }
}

#[test]
fn stack_reads_from_the_top_without_popping() {
    let stack = Stack { value: vec![Value::U8(1), Value::U8(2), Value::U8(3)] };
    assert_eq!(stack.last_n(0).unwrap(), &[] as &[Value]);
    assert_eq!(stack.last_n(2).unwrap(), &[Value::U8(2), Value::U8(3)]);
    assert_eq!(stack.last_n(3).unwrap().len(), 3);
    assert_eq!(stack.last_n(4), Err(RecorderError::OperandAccess));
    assert_eq!(stack.peek(1, 0), Ok(&Value::U8(3)));
    assert_eq!(stack.peek(3, 2), Ok(&Value::U8(1)));
    assert_eq!(stack.peek(4, 0), Err(RecorderError::OperandAccess));
    assert_eq!(stack.value.len(), 3);
}

#[test]
fn locals_tell_set_from_unset() {
    let locals = Locals { values: vec![None, Some(Value::Bool(true))] };
    assert_eq!(locals.is_invalid(0), Ok(true));
    assert_eq!(locals.is_invalid(1), Ok(false));
    assert_eq!(locals.is_invalid(2), Err(RecorderError::OperandAccess));
    assert_eq!(locals.copy_loc(1), Ok(&Value::Bool(true)));
    assert_eq!(locals.copy_loc(0), Err(RecorderError::OperandAccess));
    assert_eq!(locals.copy_loc(2), Err(RecorderError::OperandAccess));
}

#[test]
fn caller_is_the_last_frame_of_the_call_stack() {
    let frame = |index: usize, pc: u16| Frame {
        function: Function { module_id: None, index },
        pc,
        locals: Locals { values: vec![] },
    };
    let mut interp = Interpreter { operand_stack: Stack { value: vec![] }, call_stack: vec![] };
    assert_eq!(interp.caller(), None);
    interp.call_stack.push(frame(4, 40));
    interp.call_stack.push(frame(5, 50));
    assert_eq!(
        interp.caller(),
        Some(CallerInfo { frame_index: 1, module_id: None, function_id: 5, pc: 50 })
    );
}

#[test]
fn resolver_answers_from_its_tables() {
    let resolver = Resolver {
        function_param_counts: vec![3],
        instantiation_param_counts: vec![4, 5],
        field_counts: vec![6],
        field_instantiation_counts: vec![7],
        field_offsets: vec![8],
        field_instantiation_offsets: vec![9],
    };
    assert_eq!(resolver.function_from_handle(0), Ok(3));
    assert_eq!(resolver.function_from_handle(1), Err(RecorderError::OperandAccess));
    assert_eq!(resolver.function_from_instantiation(1), Ok(5));
    assert_eq!(resolver.function_from_instantiation(2), Err(RecorderError::OperandAccess));
    assert_eq!(resolver.field_count(0), Ok(6));
    assert_eq!(resolver.field_count(65535), Err(RecorderError::OperandAccess));
    assert_eq!(resolver.field_instantiation_count(0), Ok(7));
    assert_eq!(resolver.field_instantiation_count(1), Err(RecorderError::OperandAccess));
    assert_eq!(resolver.field_offset(0), Ok(8));
    assert_eq!(resolver.field_offset(1), Err(RecorderError::OperandAccess));
    assert_eq!(resolver.field_instantiation_offset(0), Ok(9));
    assert_eq!(resolver.field_instantiation_offset(1), Err(RecorderError::OperandAccess));
}

#[test]
fn values_are_read_by_their_type() {
    let address = AccountAddress { bytes: [4; 20] };
    assert_eq!(Value::Bool(true).value_as_bool(), Some(true));
    assert_eq!(Value::U8(1).value_as_bool(), None);
    assert_eq!(Value::U8(7).value_as_u8(), Some(7));
    assert_eq!(Value::U16(7).value_as_u8(), None);
    assert_eq!(Value::U64(7).value_as_u64(), Some(7));
    assert_eq!(Value::U32(7).value_as_u64(), None);
    assert_eq!(Value::U16(7).value_as_integer(), Some(IntegerValue::U16(7)));
    assert_eq!(
        Value::U256(U256 { hi: 1, lo: 2 }).value_as_integer(),
        Some(IntegerValue::U256(U256 { hi: 1, lo: 2 }))
    );
    assert_eq!(Value::Address(address).value_as_integer(), None);
    assert_eq!(Value::Address(address).to_leaf(), Some(SimpleValue::Address(address)));
    assert_eq!(Value::U128(9).to_leaf(), Some(SimpleValue::U128(9)));
    assert_eq!(Value::Vector { address: 1, elements: vec![] }.to_leaf(), None);
    assert_eq!(read_integer(&Value::U32(5)), Ok(Integer::U32(5)));
    assert_eq!(read_integer(&Value::Bool(true)), Err(RecorderError::OperandAccess));
}

#[test]
fn references_are_read_through() {
    let vector = || Value::Vector { address: 3, elements: vec![Value::U8(1), Value::U8(2)] };
    let whole = Value::ContainerRef { address: 3, target: Box::new(vector()) };
    let element = Value::IndexedRef { address: 3, index: 1, target: Box::new(Value::U8(2)) };
    assert!(whole.is_ref_value());
    assert!(element.is_ref_value());
    assert!(!vector().is_ref_value());
    assert_eq!(whole.read_ref(), Some(&vector()));
    assert_eq!(element.read_ref(), Some(&Value::U8(2)));
    assert_eq!(vector().read_ref(), None);
    assert_eq!(whole.vector_elements(), Some(&vec![Value::U8(1), Value::U8(2)]));
    assert_eq!(element.vector_elements(), None);
    assert_eq!(vector().vector_elements(), None);
    let elements = vec![Value::U8(1), Value::U8(2)];
    assert_eq!(borrow_elem(&elements, 1), Ok(&Value::U8(2)));
    assert_eq!(borrow_elem(&elements, 2), Err(RecorderError::OperandAccess));
    assert_eq!(borrow_elem(&elements, u64::MAX), Err(RecorderError::OperandAccess));
}

#[test]
fn snapshots_keep_the_items() {
    let mut reverse = BTreeMap::new();
    reverse.insert(3, Reference::new(1, 2, SubIndex::root()));
    let reference = Value::ContainerRef { address: 3, target: Box::new(Value::U8(0)) };
    let coordinate = root_leaf(SimpleValue::Reference(Reference::new(1, 2, SubIndex::root())));
    assert_eq!(snapshot(&Value::U8(5), &reverse), Ok(vec![root_leaf(SimpleValue::U8(5))]));
    assert_eq!(snapshot(&reference, &reverse), Ok(vec![coordinate]));
    assert_eq!(snapshot_plain(&Value::U8(5)), Ok(vec![root_leaf(SimpleValue::U8(5))]));
    assert_eq!(snapshot_plain(&reference), Err(RecorderError::InvalidVisitorState));
    let values = [Value::U8(5), Value::ContainerRef { address: 3, target: Box::new(Value::U8(0)) }];
    assert_eq!(
        snapshot_all(&values, &reverse),
        Ok(vec![vec![root_leaf(SimpleValue::U8(5))], vec![coordinate]])
    );
    assert_eq!(snapshot_all_plain(&values), Err(RecorderError::InvalidVisitorState));
    assert_eq!(
        snapshot_all_plain(&values[..1]),
        Ok(vec![vec![root_leaf(SimpleValue::U8(5))]])
    );
    assert_eq!(snapshot_all(&[], &reverse), Ok(vec![]));
    let unknown = [Value::ContainerRef { address: 4, target: Box::new(Value::U8(0)) }];
    assert_eq!(snapshot_all(&unknown, &reverse), Err(RecorderError::PointerLookupMiss));
}

#[test]
fn new_recorder_is_empty() {
    let fp = Footprints::new();
    assert!(fp.data.is_empty());
    assert_eq!(fp.state().len(), 0);
}
