use cryptix_miner::matrix::Matrix;

#[test]
fn octonion_multiply_values() {
    let a = [1i64, 2, 3, 4, 5, 6, 7, 8];
    let b = [8i64, 7, 6, 5, 4, 3, 2, 1];
    assert_eq!(Matrix::octonion_multiply(&a, &b), [-104, 14, 56, 56, 152, 112, 116, 146]);
}

#[test]
fn octonion_multiply_wraps() {
    let a = [1i64 << 62, 0, 0, 0, 0, 0, 0, 0];
    let b = [4i64, 0, 0, 0, 0, 0, 0, 0];
    assert_eq!(Matrix::octonion_multiply(&a, &b), [0; 8]);
    let c = [i64::MAX, 0, 0, 0, 0, 0, 0, 0];
    let d = [2i64, 0, 0, 0, 0, 0, 0, 0];
    assert_eq!(Matrix::octonion_multiply(&c, &d)[0], -2);
}

#[test]
fn octonion_unit_is_identity() {
    let one = [1i64, 0, 0, 0, 0, 0, 0, 0];
    let x = [3i64, -1, 4, -1, 5, -9, 2, -6];
    assert_eq!(Matrix::octonion_multiply(&one, &x), x);
    assert_eq!(Matrix::octonion_multiply(&x, &one), x);
}

#[test]
fn octonion_units_square_to_minus_one() {
    for k in 1..8 {
        let mut e = [0i64; 8];
        e[k] = 1;
        assert_eq!(Matrix::octonion_multiply(&e, &e), [-1, 0, 0, 0, 0, 0, 0, 0]);
    }
}

#[test]
fn octonion_hash_values() {
    let mut input = [0u8; 32];
    for (i, b) in input.iter_mut().enumerate() {
        *b = i as u8;
    }
    assert_eq!(
        Matrix::octonion_hash(&input),
        [
            -1119174507257872384,
            4777787125013807104,
            -906658310429605888,
            -5953959610548797440,
            -8472186204060303360,
            245360465498161152,
            -8839471710313496576,
            -7911896741616066560
        ]
    );
}

fn wrapping_sum(x: &[i64; 8], y: &[i64; 8]) -> [i64; 8] {
    let mut s = [0i64; 8];
    for k in 0..8 {
        s[k] = x[k].wrapping_add(y[k]);
    }
    s
}

fn wrapping_scale(c: i64, x: &[i64; 8]) -> [i64; 8] {
    let mut s = [0i64; 8];
    for k in 0..8 {
        s[k] = c.wrapping_mul(x[k]);
    }
    s
}

#[test]
fn octonion_multiply_is_bilinear() {
    let a = [i64::MAX, -3, 17, 1 << 40, -(1 << 50), 9, -2, 123456789];
    let a2 = [5i64, i64::MIN, -17, 1 << 62, 7, -9, 2, -1];
    let b = [8i64, 7, -6, 5, 4, -3, 2, i64::MAX];
    let b2 = [-1i64, 1 << 33, 6, -5, 400, 3, -2, 1];
    let c = -987654321i64;
    let m = Matrix::octonion_multiply;
    assert_eq!(m(&wrapping_sum(&a, &a2), &b), wrapping_sum(&m(&a, &b), &m(&a2, &b)));
    assert_eq!(m(&a, &wrapping_sum(&b, &b2)), wrapping_sum(&m(&a, &b), &m(&a, &b2)));
    assert_eq!(m(&wrapping_scale(c, &a), &b), wrapping_scale(c, &m(&a, &b)));
    assert_eq!(m(&a, &wrapping_scale(c, &b)), wrapping_scale(c, &m(&a, &b)));
}
