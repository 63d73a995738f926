use witnessing::sub_index::SubIndex;
use witnessing::traced_value::{
    AccountAddress, ConversionError, Integer, IntegerValue, Reference, SimpleValue, U256,
};

fn path(p: &[usize]) -> SubIndex {
    SubIndex::from_path(&p.to_vec()).unwrap()
}

fn six() -> Vec<(Integer, IntegerValue, SimpleValue, (u128, u128))> {
    let big = U256 { hi: 7, lo: 9 };
    vec![
        (Integer::U8(200), IntegerValue::U8(200), SimpleValue::U8(200), (200, 0)),
        (Integer::U16(60000), IntegerValue::U16(60000), SimpleValue::U16(60000), (60000, 0)),
        (Integer::U32(1 << 31), IntegerValue::U32(1 << 31), SimpleValue::U32(1 << 31), (1 << 31, 0)),
        (Integer::U64(u64::MAX), IntegerValue::U64(u64::MAX), SimpleValue::U64(u64::MAX), (u64::MAX as u128, 0)),
        (Integer::U128(u128::MAX), IntegerValue::U128(u128::MAX), SimpleValue::U128(u128::MAX), (u128::MAX, 0)),
        (Integer::U256(big), IntegerValue::U256(big), SimpleValue::U256(big), (9, 7)),
    ]
}

#[test]
fn integer_round_trips_on_all_six_widths() {
    for (integer, value, _, _) in six() {
        assert_eq!(IntegerValue::from(integer), value);
        assert_eq!(Integer::from(value), integer);
        assert_eq!(Integer::from(IntegerValue::from(integer)), integer);
    }
}

#[test]
fn integer_becomes_a_leaf_and_back() {
    for (integer, _, leaf, _) in six() {
        assert_eq!(SimpleValue::from(integer), leaf);
        assert_eq!(Integer::try_from(leaf), Ok(integer));
    }
}

#[test]
fn other_leaves_are_no_integers() {
    let reference = Reference::new(1, 2, SubIndex::root());
    for leaf in [
        SimpleValue::Bool(true),
        SimpleValue::Address(AccountAddress { bytes: [3; 20] }),
        SimpleValue::Reference(reference),
    ] {
        assert_eq!(Integer::try_from(leaf), Err(ConversionError::NotAnInteger));
    }
}

#[test]
fn integer_splits_into_lower_and_upper_half() {
    for (integer, _, _, halves) in six() {
        let got: (u128, u128) = integer.into();
        assert_eq!(got, halves);
    }
}

#[test]
fn u256_halves_and_bytes() {
    let x = U256::from_halves(2, 3);
    assert_eq!(x, U256 { hi: 2, lo: 3 });
    assert_eq!(x.low128(), 3);
    assert_eq!(x.high128(), 2);
    let mut bytes = [0u8; 32];
    bytes[0] = 3;
    bytes[16] = 2;
    assert_eq!(U256::from_le_bytes(&bytes), x);
    assert_eq!(x.to_le_bytes(), bytes.to_vec());
    let mut bytes = [0u8; 32];
    for i in 0..32 {
        bytes[i] = i as u8 + 1;
    }
    let y = U256::from_le_bytes(&bytes);
    assert_eq!(y.lo, 0x100f0e0d0c0b0a090807060504030201);
    assert_eq!(y.hi, 0x201f1e1d1c1b1a191817161514131211);
    assert_eq!(y.to_le_bytes(), bytes.to_vec());
}

#[test]
fn ref_child_appends_after_trimming() {
    let parent = Reference::new(3, 4, path(&[1, 0]));
    let child = parent.ref_child(2);
    assert_eq!(child, Reference { frame_index: 3, local_index: 4, sub_index: path(&[1, 2]) });
    assert_eq!(parent.ref_child(0), Reference::new(3, 4, path(&[1])));
    assert_eq!(Reference::new(0, 0, SubIndex::root()).ref_child(65535).sub_index, path(&[65535]));
}

#[test]
fn checked_ref_child_refuses_what_does_not_fit() {
    let parent = Reference::new(3, 4, path(&[1]));
    assert_eq!(parent.checked_ref_child(2), Some(Reference::new(3, 4, path(&[1, 2]))));
    assert_eq!(parent.checked_ref_child(65536), None);
    let deep = Reference::new(0, 0, path(&[1, 1, 1, 1, 1, 1, 1, 1]));
    assert_eq!(deep.checked_ref_child(1), None);
    assert_eq!(deep.checked_ref_child(0), Some(deep));
}
