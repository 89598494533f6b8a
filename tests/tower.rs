use fp6_tower::fp::Fp;
use fp6_tower::fp2::Fp2;
use fp6_tower::fp6::{Fp6, Fp6Config, Fp6ConfigWrapper};
use fp6_tower::small::{F13Fp2, F13Fp6, F13};

type E2 = Fp2<F13Fp2>;
type E6 = Fp6<F13Fp6>;

fn f2(a: u64, b: u64) -> E2 {
    Fp2::new(Fp::new(a), Fp::new(b))
}

fn f6(c: [u64; 6]) -> E6 {
    Fp6::new(f2(c[0], c[1]), f2(c[2], c[3]), f2(c[4], c[5]))
}

fn c2(x: &E2) -> [u64; 2] {
    [x.c0.value(), x.c1.value()]
}

fn c6(x: &E6) -> [u64; 6] {
    [
        x.c0.c0.value(),
        x.c0.c1.value(),
        x.c1.c0.value(),
        x.c1.c1.value(),
        x.c2.c0.value(),
        x.c2.c1.value(),
    ]
}

fn samples() -> Vec<E6> {
    vec![
        f6([0, 0, 0, 0, 0, 0]),
        f6([1, 0, 0, 0, 0, 0]),
        f6([3, 4, 5, 6, 7, 8]),
        f6([12, 12, 12, 12, 12, 12]),
        f6([9, 0, 2, 11, 0, 5]),
        f6([1, 2, 3, 4, 5, 6]),
    ]
}

fn samples2() -> Vec<E2> {
    vec![f2(0, 0), f2(1, 0), f2(0, 1), f2(5, 7), f2(12, 3), f2(8, 8)]
}

#[test]
fn prime_field_arithmetic() {
    let a: Fp<F13> = Fp::new(20);
    assert_eq!(a.value(), 7);
    let b: Fp<F13> = Fp::new(9);
    assert_eq!(a.add(&b).value(), 3);
    assert_eq!(a.sub(&b).value(), 11);
    assert_eq!(b.sub(&a).value(), 2);
    assert_eq!(a.mul(&b).value(), 11);
}

#[test]
fn quadratic_product_value() {
    // (3 + 4u)(5 + 6u) = 15 + 2 * 24 + (18 + 20) u = 63 + 38 u
    let r = f2(3, 4).mul(&f2(5, 6));
    assert_eq!(c2(&r), [11, 12]);
    assert_eq!(c2(&f2(3, 4).mul_by_fp(&Fp::new(5))), [2, 7]);
    assert_eq!(c2(&f2(3, 4).frobenius_map(1)), [3, 9]);
    assert_eq!(c2(&f2(3, 4).frobenius_map(2)), [3, 4]);
}

#[test]
fn sparse_01_matches_generic_product() {
    for a in samples() {
        for d0 in samples2() {
            for d1 in samples2() {
                let mut x = a;
                x.mul_by_01(&d0, &d1);
                let b = Fp6::new(d0, d1, Fp2::zero());
                assert_eq!(c6(&x), c6(&a.mul(&b)));
            }
        }
    }
}

#[test]
fn sparse_1_matches_generic_product() {
    for a in samples() {
        for d1 in samples2() {
            let mut x = a;
            x.mul_by_1(&d1);
            let b = Fp6::new(Fp2::zero(), d1, Fp2::zero());
            assert_eq!(c6(&x), c6(&a.mul(&b)));
        }
    }
}

#[test]
fn sparse_values() {
    // a = (1 + 2u) + (3 + 4u) v + (5 + 6u) v^2, d1 = 1 + u
    let mut x = f6([1, 2, 3, 4, 5, 6]);
    x.mul_by_1(&f2(1, 1));
    // c2 = a1 d1 = 3 + 8 + 7u = 11 + 7u; c1 = a0 d1 = 1 + 4 + 3u = 5 + 3u
    // c0 = (a2 d1) u = (5 + 12 + 11u) u = (4 + 11u) u = 22 + 4u = 9 + 4u
    assert_eq!(c6(&x), [9, 4, 5, 3, 11, 7]);
    let mut y = f6([1, 2, 3, 4, 5, 6]);
    y.mul_by_01(&f2(2, 0), &f2(1, 1));
    // adds a0 * 2, a1 * 2 and a2 * 2 to c0, c1 and c2
    assert_eq!(c6(&y), [11, 8, 11, 11, 8, 6]);
}

#[test]
fn sparse_01_with_zero_c1_is_scaling() {
    for a in samples() {
        for d0 in samples2() {
            let mut x = a;
            x.mul_by_01(&d0, &Fp2::zero());
            let mut y = a;
            y.mul_by_fp2(&d0);
            assert_eq!(c6(&x), c6(&y));
            let b = Fp6::new(d0, Fp2::zero(), Fp2::zero());
            assert_eq!(c6(&x), c6(&a.mul(&b)));
        }
    }
}

#[test]
fn scaling_by_fp2_is_coordinatewise() {
    let mut x = f6([1, 2, 3, 4, 5, 6]);
    x.mul_by_fp2(&f2(0, 1));
    assert_eq!(c6(&x), [4, 1, 8, 3, 12, 5]);
    let mut y = f6([1, 2, 3, 4, 5, 6]);
    y.mul_assign_by_fp2(f2(0, 1));
    assert_eq!(c6(&y), [4, 1, 8, 3, 12, 5]);
}

#[test]
fn scaling_by_fp_is_coordinatewise() {
    let mut x = f6([1, 2, 3, 4, 5, 6]);
    x.mul_by_fp(&Fp::new(3));
    assert_eq!(c6(&x), [3, 6, 9, 12, 2, 5]);
    let mut y = f6([1, 2, 3, 4, 5, 6]);
    y.mul_by_fp2(&f2(3, 0));
    assert_eq!(c6(&x), c6(&y));
}

#[test]
fn frobenius_six_times_is_identity() {
    for a in samples() {
        let mut x = a;
        for _ in 0..6 {
            x.frobenius_map_in_place(1);
        }
        assert_eq!(c6(&x), c6(&a));
        let mut y = a;
        y.frobenius_map_in_place(6);
        assert_eq!(c6(&y), c6(&a));
        let mut s = a;
        s.frobenius_map_in_place(2);
        let mut t = a;
        t.frobenius_map_in_place(8);
        assert_eq!(c6(&s), c6(&t));
    }
}

#[test]
fn frobenius_is_power_of_prime() {
    for a in samples() {
        let mut r = f6([1, 0, 0, 0, 0, 0]);
        for _ in 0..13 {
            r = r.mul(&a);
        }
        let mut x = a;
        x.frobenius_map_in_place(1);
        assert_eq!(c6(&x), c6(&r));
    }
}

#[test]
fn frobenius_coefficients_repeat() {
    let mut a1 = f2(3, 4);
    let mut a2 = f2(5, 6);
    Fp6ConfigWrapper::<F13Fp6>::mul_base_field_by_frob_coeff(&mut a1, &mut a2, 1);
    assert_eq!(c2(&a1), [12, 3]);
    assert_eq!(c2(&a2), [2, 5]);
    let mut b1 = f2(3, 4);
    let mut b2 = f2(5, 6);
    Fp6ConfigWrapper::<F13Fp6>::mul_base_field_by_frob_coeff(&mut b1, &mut b2, 7);
    assert_eq!(c2(&a1), c2(&b1));
    assert_eq!(c2(&a2), c2(&b2));
}

#[test]
fn nonresidue_product_is_plain_product() {
    let xi = F13Fp6::nonresidue();
    for x0 in 0..13 {
        for x1 in 0..13 {
            let x = f2(x0, x1);
            let plain = x.mul(&xi);
            assert_eq!(c2(&F13Fp6::mul_fp2_by_nonresidue(x)), c2(&plain));
            let mut y = x;
            F13Fp6::mul_fp2_by_nonresidue_in_place(&mut y);
            assert_eq!(c2(&y), c2(&plain));
            let mut z = x;
            Fp6ConfigWrapper::<F13Fp6>::mul_base_field_by_nonresidue_in_place(&mut z);
            assert_eq!(c2(&z), c2(&plain));
        }
    }
}

#[test]
fn identity_times_sparse_is_the_operand() {
    let mut a = f6([1, 0, 0, 0, 0, 0]);
    a.mul_by_1(&Fp2::one());
    assert_eq!(c6(&a), [0, 0, 1, 0, 0, 0]);
    let mut b = f6([1, 0, 0, 0, 0, 0]);
    b.mul_by_01(&f2(4, 5), &f2(6, 7));
    assert_eq!(c6(&b), [4, 5, 6, 7, 0, 0]);
}

#[test]
fn zero_absorbs() {
    for a in samples() {
        assert_eq!(c6(&a.mul(&Fp6::zero())), [0; 6]);
        let mut x = a;
        x.mul_by_01(&Fp2::zero(), &Fp2::zero());
        assert_eq!(c6(&x), [0; 6]);
        let mut y = a;
        y.mul_by_1(&Fp2::zero());
        assert_eq!(c6(&y), [0; 6]);
    }
}
