use cryptix_miner::heavy_hash::MixState;
use cryptix_miner::matrix::Matrix;
use cryptix_miner::xoshiro::XoShiRo256PlusPlus;

fn sample_matrix() -> Matrix {
    let mut gen = XoShiRo256PlusPlus::new(cryptix_miner::hash::Hash::from_le_bytes([42; 32]));
    Matrix::rand_matrix_no_rank_check(&mut gen)
}

fn sample_hash() -> cryptix_miner::hash::Hash {
    let mut bytes = [0u8; 32];
    for (i, b) in bytes.iter_mut().enumerate() {
        *b = i as u8;
    }
    cryptix_miner::hash::Hash::from_le_bytes(bytes)
}

fn sample_state() -> MixState {
    sample_matrix().prepare_mix(sample_hash())
}

#[test]
fn matrix_products_of_sample() {
    let st = sample_state();
    assert_eq!(
        st.product_before_oct,
        [
            43, 46, 146, 241, 98, 247, 70, 158, 169, 74, 82, 173, 209, 203, 31, 46, 192, 175, 28,
            158, 202, 205, 106, 79, 113, 85, 128, 134, 183, 100, 1, 198
        ]
    );
    assert_eq!(
        st.nibble_product,
        [
            107, 90, 16, 22, 226, 164, 87, 26, 240, 167, 98, 120, 37, 246, 219, 127, 66, 146, 7, 49,
            29, 37, 64, 20, 130, 173, 154, 78, 80, 240, 159, 4
        ]
    );
    let mut hb = [0u8; 32];
    for (i, b) in hb.iter_mut().enumerate() {
        *b = i as u8;
    }
    assert_eq!(st.hash_bytes, hb);
}

#[test]
fn octonion_stage_of_sample() {
    let st = sample_state();
    assert_eq!(
        st.product,
        [
            91, 60, 117, 243, 46, 243, 119, 182, 153, 114, 39, 178, 113, 50, 18, 17, 112, 54, 97, 9,
            147, 217, 105, 200, 161, 5, 207, 71, 214, 104, 29, 214
        ]
    );
    assert_eq!(Matrix::apply_octonion(&st.product_before_oct), st.product);
}

#[test]
fn sbox_of_sample() {
    let st = sample_state();
    let initial = Matrix::build_sbox(&st.product, &st.hash_bytes, &st.nibble_product, &st.product_before_oct);
    assert_eq!(initial[..8], [200, 205, 123, 197, 32, 92, 70, 126]);
    let once = Matrix::update_sbox(&initial, &st.product, &st.hash_bytes);
    assert_eq!(once[..8], [221, 199, 174, 113, 185, 189, 211, 209]);
    let twice = Matrix::update_sbox(&once, &st.product, &st.hash_bytes);
    assert_eq!(twice, st.sbox);
    assert_eq!(st.sbox[..8], [137, 221, 127, 189, 78, 83, 78, 139]);
    assert_eq!(st.sbox[100], 3);
    assert_eq!(st.sbox[255], 14);
}

#[test]
fn after_comp_of_sample() {
    let st = sample_state();
    assert_eq!(
        st.after_comp,
        [
            91, 81, 167, 92, 141, 92, 27, 118, 118, 5, 206, 142, 81, 106, 226, 75, 188, 66, 216, 50,
            218, 169, 154, 66, 165, 231, 48, 23, 62, 20, 120, 62
        ]
    );
}

#[test]
fn finish_of_sample() {
    let st = sample_state();
    assert_eq!(Matrix::blake_rounds(&st), 1);
    assert_eq!(
        Matrix::finish_mix([0u8; 32], &st),
        [
            76, 51, 79, 225, 41, 175, 175, 158, 19, 210, 177, 53, 205, 218, 6, 35, 9, 44, 182, 130,
            126, 47, 250, 213, 47, 131, 103, 243, 13, 0, 140, 47
        ]
    );
}

#[test]
fn heavy_mix_chains_blake3() {
    let m = sample_matrix();
    let st = m.prepare_mix(sample_hash());
    let mixed = m.heavy_mix(sample_hash()).to_le_bytes();
    let chained = *blake3::hash(&st.product).as_bytes();
    assert_eq!(mixed, Matrix::finish_mix(chained, &st));
    assert_ne!(mixed, Matrix::finish_mix(st.product, &st));
}
