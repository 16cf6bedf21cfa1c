use cryptix_miner::matrix::Matrix;

#[test]
fn chaotic_random_values() {
    assert_eq!(Matrix::chaotic_random(0), 0xA5A5A5A5);
    assert_eq!(Matrix::chaotic_random(1), 2778738120);
    assert_eq!(Matrix::chaotic_random(255), 2686927158);
}

#[test]
fn memory_intensive_mix_values() {
    assert_eq!(Matrix::memory_intensive_mix(0), 138071936);
    assert_eq!(Matrix::memory_intensive_mix(1), 2005958529);
    assert_eq!(Matrix::memory_intensive_mix(0xdeadbeef), 2014310511);
}

#[test]
fn recursive_fibonacci_values() {
    assert_eq!(Matrix::recursive_fibonacci_modulated(0, 0), 0);
    assert_eq!(Matrix::recursive_fibonacci_modulated(77, 0), 77);
    assert_eq!(Matrix::recursive_fibonacci_modulated(5, 3), 2065178886);
    assert_eq!(Matrix::recursive_fibonacci_modulated(0x12345678, 20), 3324983936);
    assert_eq!(
        Matrix::recursive_fibonacci_modulated(0x12345678, 8),
        Matrix::recursive_fibonacci_modulated(0x12345678, 200)
    );
}

#[test]
fn anti_fpga_hash_values() {
    assert_eq!(Matrix::anti_fpga_hash(0), 2597690747);
    assert_eq!(Matrix::anti_fpga_hash(1), 3309806358);
    assert_eq!(Matrix::anti_fpga_hash(0xA5A5A5A5), 4115986549);
}

#[test]
fn after_comp_product_values() {
    let mut pre = [0u8; 32];
    for (i, b) in pre.iter_mut().enumerate() {
        *b = i as u8;
    }
    let out = Matrix::compute_after_comp_product(pre);
    assert_eq!(
        out,
        [
            117, 124, 235, 135, 36, 231, 61, 7, 72, 50, 178, 238, 239, 151, 194, 43, 233, 75, 226,
            175, 47, 243, 25, 231, 131, 148, 185, 75, 9, 120, 149, 105
        ]
    );
}

#[test]
fn after_comp_product_is_bytewise() {
    let out = Matrix::compute_after_comp_product([7u8; 32]);
    for b in out.iter() {
        assert_eq!(*b, out[0]);
    }
}

#[test]
fn memory_intensive_mix_separates_seeds() {
    let mut seen = std::collections::HashSet::new();
    for seed in 0u32..5000 {
        assert!(seen.insert(Matrix::memory_intensive_mix(seed)));
    }
}
