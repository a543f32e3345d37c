use ceremony::params::{next_power_of_two, AptosParams, BatchSizeNotPowerOfTwo, FPTXParams, HidingKZGParams, PowersOfTauParams};

#[test]
fn fptx_params_accept_powers_of_two() {
    for b in [1usize, 2, 4, 8, 128, 1 << 20] {
        let p = FPTXParams::new(b, 3).unwrap();
        assert_eq!(p.batch_size, b);
        assert_eq!(p.num_rounds, 3);
    }
}

#[test]
fn fptx_params_refuse_zero_batch() {
    assert_eq!(FPTXParams::new(0, 7), Err(BatchSizeNotPowerOfTwo));
}

#[test]
fn fptx_params_refuse_other_sizes() {
    for b in [3usize, 6, 12, 100, 129] {
        assert_eq!(FPTXParams::new(b, 1), Err(BatchSizeNotPowerOfTwo));
    }
}

#[test]
fn powers_of_tau_params_keep_max_power() {
    let p = PowersOfTauParams::new(8);
    assert_eq!(p.max_power, 8);
    let h: HidingKZGParams = HidingKZGParams::new(15);
    assert_eq!(h.max_power, 15);
}

#[test]
fn next_power_of_two_values() {
    assert_eq!(next_power_of_two(0), 1);
    assert_eq!(next_power_of_two(1), 1);
    assert_eq!(next_power_of_two(2), 2);
    assert_eq!(next_power_of_two(3), 4);
    assert_eq!(next_power_of_two(17), 32);
    assert_eq!(next_power_of_two(64), 64);
    for x in 0usize..300 {
        assert_eq!(next_power_of_two(x), x.next_power_of_two());
    }
}

#[test]
fn aptos_params_pad_the_chunk_count() {
    // 10 * 16 + 1 = 161 rounds up to 256; the setup holds 255 powers.
    let p = AptosParams::new(128, 40, 10, 16).unwrap();
    assert_eq!(p.fptx.batch_size, 128);
    assert_eq!(p.fptx.num_rounds, 40);
    assert_eq!(p.hiding_kzg.max_power, 255);
    // 0 chunks: 0 + 1 = 1 is already a power of two.
    let q = AptosParams::new(1, 1, 0, 16).unwrap();
    assert_eq!(q.hiding_kzg.max_power, 0);
}

#[test]
fn aptos_params_refuse_bad_batch_size() {
    assert_eq!(AptosParams::new(100, 40, 10, 16), Err(BatchSizeNotPowerOfTwo));
    assert_eq!(AptosParams::new(0, 40, 10, 16), Err(BatchSizeNotPowerOfTwo));
}
