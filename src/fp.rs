//! Prime field elements: residues modulo a prime fixed by a configuration type.

use core::marker::PhantomData;
use vstd::arithmetic::div_mod::*;
use vstd::prelude::*;

verus! {

/// The parameters of a prime field: its modulus, small enough that the
/// product of two residues fits in a `u64`.
pub trait FpConfig {
    /// The modulus, as a mathematical integer.
    spec fn spec_modulus() -> int;

    /// The modulus is greater than one and below 2^32.
    proof fn lemma_modulus_bounds()
        ensures
            1 < Self::spec_modulus() < 0x1_0000_0000,
    ;

    /// The modulus, as a machine integer.
    fn modulus() -> (r: u64)
        ensures
            r as int == Self::spec_modulus(),
    ;
}

/// Reduction of an integer modulo the field's modulus.
pub open spec fn red<P: FpConfig>(x: int) -> int {
    x % P::spec_modulus()
}

/// A reduced value is its own residue, and reducing twice is reducing once.
pub proof fn lemma_red_idem<P: FpConfig>(x: int)
    ensures
        0 <= red::<P>(x) < P::spec_modulus(),
        red::<P>(red::<P>(x)) == red::<P>(x),
        0 <= x < P::spec_modulus() ==> red::<P>(x) == x,
{
    P::lemma_modulus_bounds();
    let m = P::spec_modulus();
    lemma_mod_bound(x, m);
    lemma_small_mod(red::<P>(x) as nat, m as nat);
    if 0 <= x < m {
        lemma_small_mod(x as nat, m as nat);
    }
}

/// Reducing an operand of a sum first does not change the reduced sum.
pub proof fn lemma_red_add<P: FpConfig>(x: int, y: int)
    ensures
        red::<P>(red::<P>(x) + y) == red::<P>(x + y),
        red::<P>(x + red::<P>(y)) == red::<P>(x + y),
{
    P::lemma_modulus_bounds();
    let m = P::spec_modulus();
    lemma_add_mod_noop_right(x, y, m);
    lemma_add_mod_noop_right(y, x, m);
}

/// Reducing an operand of a difference first does not change the reduced
/// difference.
pub proof fn lemma_red_sub<P: FpConfig>(x: int, y: int)
    ensures
        red::<P>(red::<P>(x) - y) == red::<P>(x - y),
        red::<P>(x - red::<P>(y)) == red::<P>(x - y),
{
    P::lemma_modulus_bounds();
    let m = P::spec_modulus();
    lemma_sub_mod_noop(x, y, m);
    lemma_sub_mod_noop_right(x % m, y, m);
    lemma_sub_mod_noop_right(x, y, m);
}

/// Reducing a factor of a product first does not change the reduced product.
pub proof fn lemma_red_mul<P: FpConfig>(x: int, y: int)
    ensures
        red::<P>(red::<P>(x) * y) == red::<P>(x * y),
        red::<P>(x * red::<P>(y)) == red::<P>(x * y),
{
    P::lemma_modulus_bounds();
    let m = P::spec_modulus();
    lemma_mul_mod_noop_left(x, y, m);
    lemma_mul_mod_noop_right(x, y, m);
}

/// An element of the prime field, stored as its least nonnegative residue.
pub struct Fp<P: FpConfig> {
    pub value: u64,
    pub marker: PhantomData<P>,
}

impl<P: FpConfig> Clone for Fp<P> {
    fn clone(&self) -> (r: Self)
        ensures
            r == *self,
    {
        Fp { value: self.value, marker: PhantomData }
    }
}

impl<P: FpConfig> Copy for Fp<P> {
}

impl<P: FpConfig> Fp<P> {
    /// The residue that this element stands for.
    pub open spec fn view(&self) -> int {
        self.value as int
    }

    /// The stored value is reduced.
    pub open spec fn wf(&self) -> bool {
        self.value < P::spec_modulus()
    }

    /// The element congruent to `v`.
    pub fn new(v: u64) -> (r: Self)
        ensures
            r.wf(),
            r@ == red::<P>(v as int),
    {
        proof {
            P::lemma_modulus_bounds();
        }
        let m = P::modulus();
        Fp { value: v % m, marker: PhantomData }
    }

    pub fn zero() -> (r: Self)
        ensures
            r.wf(),
            r@ == 0,
    {
        proof {
            P::lemma_modulus_bounds();
        }
        Fp { value: 0, marker: PhantomData }
    }

    pub fn one() -> (r: Self)
        ensures
            r.wf(),
            r@ == 1,
    {
        proof {
            P::lemma_modulus_bounds();
        }
        Fp { value: 1, marker: PhantomData }
    }

    /// The residue as a machine integer.
    pub fn value(&self) -> (r: u64)
        ensures
            r as int == self@,
    {
        self.value
    }

    /// Sum modulo the modulus.
    pub fn add(&self, other: &Self) -> (r: Self)
        requires
            self.wf(),
            other.wf(),
        ensures
            r.wf(),
            r@ == red::<P>(self@ + other@),
    {
        proof {
            P::lemma_modulus_bounds();
        }
        let m = P::modulus();
        let s: u64 = self.value + other.value;
        Fp { value: s % m, marker: PhantomData }
    }

    /// Difference modulo the modulus.
    pub fn sub(&self, other: &Self) -> (r: Self)
        requires
            self.wf(),
            other.wf(),
        ensures
            r.wf(),
            r@ == red::<P>(self@ - other@),
    {
        proof {
            P::lemma_modulus_bounds();
        }
        let m = P::modulus();
        if self.value >= other.value {
            let d: u64 = self.value - other.value;
            proof {
                lemma_small_mod(d as nat, m as nat);
            }
            Fp { value: d, marker: PhantomData }
        } else {
            let d: u64 = self.value + (m - other.value);
            proof {
                lemma_small_mod(d as nat, m as nat);
                lemma_mod_add_multiples_vanish(self@ - other@, m as int);
            }
            Fp { value: d, marker: PhantomData }
        }
    }

    /// Product modulo the modulus.
    pub fn mul(&self, other: &Self) -> (r: Self)
        requires
            self.wf(),
            other.wf(),
        ensures
            r.wf(),
            r@ == red::<P>(self@ * other@),
    {
        proof {
            P::lemma_modulus_bounds();
            let m = P::spec_modulus();
            assert(self@ * other@ < m * m) by (nonlinear_arith)
                requires
                    0 <= self@ < m,
                    0 <= other@ < m,
            ;
            assert(m * m < 0x1_0000_0000 * 0x1_0000_0000) by (nonlinear_arith)
                requires
                    1 < m < 0x1_0000_0000,
            ;
        }
        let m = P::modulus();
        let p: u64 = self.value * other.value;
        Fp { value: p % m, marker: PhantomData }
    }
}

} // verus!
