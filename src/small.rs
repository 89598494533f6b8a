//! A small tower over the prime 13: `u^2 = 2` and `v^3 = u`. Its field has
//! 13^6 elements, few enough to check results by hand.

use core::marker::PhantomData;
use crate::fp::{Fp, FpConfig};
use crate::fp2::{f2_one, Fp2, Fp2Config, Fp2Model};
use crate::fp6::Fp6Config;
use vstd::prelude::*;

verus! {

/// The prime field of 13 elements.
#[derive(Clone, Copy)]
pub struct F13;

/// Its quadratic extension, `u^2 = 2`.
#[derive(Clone, Copy)]
pub struct F13Fp2;

/// The sextic tower over it, `v^3 = u`.
#[derive(Clone, Copy)]
pub struct F13Fp6;

impl FpConfig for F13 {
    open spec fn spec_modulus() -> int {
        13
    }

    proof fn lemma_modulus_bounds() {
    }

    fn modulus() -> (r: u64) {
        13
    }
}

impl Fp2Config for F13Fp2 {
    type Fp = F13;

    open spec fn spec_nonresidue() -> int {
        2
    }

    proof fn lemma_nonresidue_bounds() {
    }

    fn nonresidue() -> (r: Fp<F13>) {
        Fp { value: 2, marker: PhantomData }
    }
}

/// The element of the quadratic extension with coordinates `x0` and `x1`.
fn fp2_const(x0: u64, x1: u64) -> (r: Fp2<F13Fp2>)
    requires
        x0 < 13,
        x1 < 13,
    ensures
        r.wf(),
        r@ == (x0 as int, x1 as int),
{
    Fp2 { c0: Fp { value: x0, marker: PhantomData }, c1: Fp { value: x1, marker: PhantomData } }
}

/// The Frobenius entries for `c1`: `u^((13^i - 1) / 3)`.
pub open spec fn small_coeff_c1(i: int) -> int {
    if i == 0 {
        1
    } else if i == 1 {
        4
    } else if i == 2 {
        3
    } else if i == 3 {
        12
    } else if i == 4 {
        9
    } else {
        10
    }
}

/// The Frobenius entries for `c2`: `u^(2 (13^i - 1) / 3)`.
pub open spec fn small_coeff_c2(i: int) -> int {
    if i % 3 == 0 {
        1
    } else if i % 3 == 1 {
        3
    } else {
        9
    }
}

/// The tables are multiplicative: entries for `i` and `j` multiply to the
/// entry for `i + j`.
proof fn lemma_small_tables(i: int, j: int)
    requires
        0 <= i < 6,
        0 <= j < 6,
    ensures
        small_coeff_c1((i + j) % 6) == (small_coeff_c1(i) * small_coeff_c1(j)) % 13,
        small_coeff_c2((i + j) % 6) == (small_coeff_c2(i) * small_coeff_c2(j)) % 13,
{
    if i == 0 {
    } else if i == 1 {
    } else if i == 2 {
    } else if i == 3 {
    } else if i == 4 {
    } else {
    }
}

impl Fp6Config for F13Fp6 {
    type Fp2Config = F13Fp2;

    open spec fn spec_nonresidue() -> Fp2Model {
        (0, 1)
    }

    open spec fn spec_frobenius_coeff_c1(i: int) -> Fp2Model {
        (small_coeff_c1(i), 0)
    }

    open spec fn spec_frobenius_coeff_c2(i: int) -> Fp2Model {
        (small_coeff_c2(i), 0)
    }

    proof fn lemma_constants() {
        assert(Self::spec_frobenius_coeff_c1(0) == f2_one());
        assert(Self::spec_frobenius_coeff_c2(0) == f2_one());
    }

    proof fn lemma_frobenius_coeffs(i: int, j: int) {
        let (k1, l1) = (small_coeff_c1(i), small_coeff_c1(j));
        let (k2, l2) = (small_coeff_c2(i), small_coeff_c2(j));
        crate::fp::lemma_red_idem::<F13>(0);
        crate::fp::lemma_red_idem::<F13>(k1);
        crate::fp::lemma_red_idem::<F13>(k2);
        assert(k1 * l1 + 2 * (0 * 0) == k1 * l1 && k1 * 0 + 0 * l1 == 0);
        assert(k2 * l2 + 2 * (0 * 0) == k2 * l2 && k2 * 0 + 0 * l2 == 0);
        lemma_small_tables(i, j);
    }

    fn nonresidue() -> (r: Fp2<F13Fp2>) {
        fp2_const(0, 1)
    }

    fn frobenius_coeff_fp6_c1(i: usize) -> (r: Fp2<F13Fp2>) {
        let k: u64 = if i == 0 {
            1
        } else if i == 1 {
            4
        } else if i == 2 {
            3
        } else if i == 3 {
            12
        } else if i == 4 {
            9
        } else {
            10
        };
        fp2_const(k, 0)
    }

    fn frobenius_coeff_fp6_c2(i: usize) -> (r: Fp2<F13Fp2>) {
        let k: u64 = if i % 3 == 0 {
            1
        } else if i % 3 == 1 {
            3
        } else {
            9
        };
        fp2_const(k, 0)
    }

    /// With `xi = u`: `(x0 + x1 u) u = 2 x1 + x0 u`, with no product.
    fn mul_fp2_by_nonresidue_in_place(fe: &mut Fp2<F13Fp2>) {
        let x0 = fe.c0;
        let x1 = fe.c1;
        fe.c0 = x1.add(&x1);
        fe.c1 = x0;
        proof {
            crate::fp::lemma_red_idem::<F13>(x0@);
            assert(x0@ * 0 + 2 * (x1@ * 1) == x1@ + x1@);
            assert(x0@ * 1 + x1@ * 0 == x0@);
            assert(fe@ == crate::fp2::f2_mul::<F13Fp2>((x0@, x1@), (0, 1)));
        }
    }
}

} // verus!
