use cryptix_miner::matrix::Matrix;
use cryptix_miner::xoshiro::XoShiRo256PlusPlus;

fn draws(hash: cryptix_miner::hash::Hash, n: usize) -> Vec<Matrix> {
    let mut gen = XoShiRo256PlusPlus::new(hash);
    (0..n).map(|_| Matrix::rand_matrix_no_rank_check(&mut gen)).collect()
}

#[test]
fn generate_takes_first_accepted_draw() {
    let h = cryptix_miner::hash::Hash::from_le_bytes([7; 32]);
    let first = draws(h, 3);
    let m = Matrix::generate(h, |m: &Matrix| if *m == first[0] { 63 } else { 64 });
    assert_eq!(m, first[1]);
    let m = Matrix::generate(h, |m: &Matrix| if *m == first[0] || *m == first[1] { 0 } else { 64 });
    assert_eq!(m, first[2]);
    let m = Matrix::generate(h, |_: &Matrix| 64);
    assert_eq!(m, first[0]);
}

#[test]
fn generate_depends_on_the_hash_alone() {
    let a = Matrix::generate(cryptix_miner::hash::Hash::from_le_bytes([7; 32]), |m: &Matrix| if m.0[0][0] == 0 { 0 } else { 64 });
    let b = Matrix::generate(cryptix_miner::hash::Hash::from_le_bytes([7; 32]), |m: &Matrix| if m.0[0][0] == 0 { 0 } else { 64 });
    assert_eq!(a, b);
    assert_ne!(a.0[0][0], 0);
}

#[test]
fn drawn_entries_are_nibbles() {
    for m in draws(cryptix_miner::hash::Hash::from_le_bytes([9; 32]), 4) {
        for row in m.0.iter() {
            for v in row.iter() {
                assert!(*v < 16);
            }
        }
    }
}
