use ristretto_sig::scalar::{
    add_scalar, is_canonical_scalar, mul_scalar, reduce_to_scalar, reduce_to_scalar_wide,
};

const ORDER: [u8; 32] = [
    237, 211, 245, 92, 26, 99, 18, 88, 214, 156, 247, 162, 222, 249, 222, 20, 0, 0, 0, 0, 0, 0, 0,
    0, 0, 0, 0, 0, 0, 0, 0, 16,
];

fn small(n: u8) -> [u8; 32] {
    let mut b = [0u8; 32];
    b[0] = n;
    b
}

fn order_minus(n: u8) -> [u8; 32] {
    let mut b = ORDER;
    b[0] -= n;
    b
}

fn reduce(b: &[u8; 32]) -> [u8; 32] {
    let mut res = [0u8; 32];
    reduce_to_scalar(b, &mut res);
    res
}

fn add(x: &[u8; 32], y: &[u8; 32]) -> [u8; 32] {
    let mut res = [0u8; 32];
    add_scalar(x, y, &mut res);
    res
}

fn mul(x: &[u8; 32], y: &[u8; 32]) -> [u8; 32] {
    let mut res = [0u8; 32];
    mul_scalar(x, y, &mut res);
    res
}

#[test]
fn reduce_group_order_is_zero() {
    assert_eq!(reduce(&ORDER), [0u8; 32]);
}

#[test]
fn reduce_order_plus_one_is_one() {
    let mut b = ORDER;
    b[0] += 1;
    assert_eq!(reduce(&b), small(1));
}

#[test]
fn reduce_all_ones() {
    let expected: [u8; 32] = [
        28, 149, 152, 141, 116, 49, 236, 214, 112, 207, 125, 115, 244, 91, 239, 198, 254, 255,
        255, 255, 255, 255, 255, 255, 255, 255, 255, 255, 255, 255, 255, 15,
    ];
    assert_eq!(reduce(&[0xffu8; 32]), expected);
}

#[test]
fn reduce_keeps_canonical_values() {
    assert_eq!(reduce(&small(7)), small(7));
    assert_eq!(reduce(&order_minus(1)), order_minus(1));
}

#[test]
fn reduce_is_idempotent() {
    for seed in 0u8..=255 {
        let b = [seed; 32];
        let once = reduce(&b);
        assert_eq!(reduce(&once), once);
        assert!(once[31] < 16 || (once[31] == 16 && once < ORDER));
    }
}

#[test]
fn reduce_wide_all_ones() {
    let expected: [u8; 32] = [
        0, 15, 156, 68, 227, 17, 6, 164, 71, 147, 133, 104, 167, 27, 14, 208, 101, 190, 245, 23,
        210, 115, 236, 206, 61, 154, 48, 124, 27, 65, 153, 3,
    ];
    let mut res = [0u8; 32];
    reduce_to_scalar_wide(&[0xffu8; 64], &mut res);
    assert_eq!(res, expected);
}

#[test]
fn reduce_wide_matches_narrow_reduction() {
    let mut wide = [0u8; 64];
    wide[..32].copy_from_slice(&[0xffu8; 32]);
    let mut res = [0u8; 32];
    reduce_to_scalar_wide(&wide, &mut res);
    assert_eq!(res, reduce(&[0xffu8; 32]));
}

#[test]
fn add_scalar_small_values() {
    assert_eq!(add(&small(2), &small(3)), small(5));
}

#[test]
fn add_scalar_wraps_around_the_order() {
    assert_eq!(add(&order_minus(1), &order_minus(1)), order_minus(2));
    assert_eq!(add(&order_minus(1), &small(1)), [0u8; 32]);
}

#[test]
fn mul_scalar_small_values() {
    assert_eq!(mul(&small(6), &small(7)), small(42));
}

#[test]
fn mul_scalar_minus_one_squared_is_one() {
    assert_eq!(mul(&order_minus(1), &order_minus(1)), small(1));
}

#[test]
fn scalar_laws_on_sample_values() {
    let values = [small(0), small(1), small(200), order_minus(1), order_minus(5), reduce(&[0xab; 32])];
    for a in values.iter() {
        for b in values.iter() {
            assert_eq!(add(a, b), add(b, a));
            assert_eq!(mul(a, b), mul(b, a));
            for c in values.iter() {
                assert_eq!(add(&add(a, b), c), add(a, &add(b, c)));
                assert_eq!(mul(a, &add(b, c)), add(&mul(a, b), &mul(a, c)));
            }
        }
    }
}

#[test]
fn canonical_scalar_check() {
    assert!(is_canonical_scalar(&small(0)));
    assert!(is_canonical_scalar(&order_minus(1)));
    assert!(!is_canonical_scalar(&ORDER));
    assert!(!is_canonical_scalar(&[0xffu8; 32]));
}
