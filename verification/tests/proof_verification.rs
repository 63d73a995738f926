use witnessing::natives::NativeFunction;
use witnessing::proof_verification::{charged_bytes, k_option, MINIMUM_CHARGED_BYTES};
use witnessing::traced_value::U256;
use witnessing::zkhash::{hash_value, DOMAIN_SPEC};

#[test]
fn small_inputs_are_charged_one_kilobyte() {
    assert_eq!(MINIMUM_CHARGED_BYTES, 1024);
    assert_eq!(charged_bytes(0, 0, 0, 0, 0), Some(1024));
    assert_eq!(charged_bytes(100, 200, 300, 400, 23), Some(1024));
    assert_eq!(charged_bytes(100, 200, 300, 400, 24), Some(1024));
}

#[test]
fn larger_inputs_are_charged_their_sum() {
    assert_eq!(charged_bytes(100, 200, 300, 400, 25), Some(1025));
    assert_eq!(charged_bytes(1000, 2000, 3000, 4000, 5000), Some(15000));
    assert_eq!(charged_bytes(usize::MAX, 0, 0, 0, 0), Some(usize::MAX as u64));
}

#[test]
fn a_sum_beyond_64_bits_is_not_charged() {
    if usize::MAX as u128 == u64::MAX as u128 {
        assert_eq!(charged_bytes(usize::MAX, 1, 0, 0, 0), None);
        assert_eq!(charged_bytes(usize::MAX, usize::MAX, usize::MAX, usize::MAX, usize::MAX), None);
    }
}

#[test]
fn k_is_handed_on_where_present() {
    assert_eq!(k_option(12, true), Some(12));
    assert_eq!(k_option(12, false), None);
}

#[test]
fn natives_are_registered_by_name() {
    assert_eq!(
        witnessing::proof_verification::make_all(),
        vec![("verify_halo2_proof".to_string(), NativeFunction::VerifyHalo2Proof)]
    );
    assert_eq!(
        witnessing::zkhash::make_all(),
        vec![("poseidon_hash".to_string(), NativeFunction::PoseidonHash)]
    );
}

#[test]
fn digest_becomes_a_number() {
    assert_eq!(DOMAIN_SPEC, 1);
    let mut repr = [0u8; 32];
    repr[0] = 1;
    repr[15] = 2;
    repr[16] = 3;
    repr[31] = 4;
    assert_eq!(hash_value(&repr), U256 { hi: 3 | (4 << 120), lo: 1 | (2 << 120) });
    assert_eq!(hash_value(&[0xff; 32]), U256 { hi: u128::MAX, lo: u128::MAX });
}
