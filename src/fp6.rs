//! The sextic tower `Fp2[v] / (v^3 - xi)` for a cubic non-residue `xi` of the
//! quadratic extension, with its sparse multiplications.

use core::marker::PhantomData;
use crate::fp::Fp;
use crate::fp2::{
    f2_add, f2_frobenius, f2_mul, f2_one, f2_scale, f2_sub, f2_zero, lemma_f2_commute,
    lemma_f2_cross, lemma_f2_frobenius_compose, lemma_f2_frobenius_mul, lemma_f2_mul_assoc, lemma_f2_mul_one, lemma_f2_recover, lemma_f2_zero, lemma_red2_idem, reduced2, Fp2,
    Fp2Config, Fp2Model,
};
use vstd::prelude::*;

verus! {

/// A triple `(c0, c1, c2)` of quadratic extension elements standing for
/// `c0 + c1 * v + c2 * v^2`.
pub type Fp6Model = (Fp2Model, Fp2Model, Fp2Model);

/// The degree of the tower over the prime field; the Frobenius coefficients
/// repeat with this period.
pub const DEGREE_OVER_BASE_PRIME_FIELD: usize = 6;

/// The parameters of the tower: the cubic non-residue `xi` with `v^3 = xi`,
/// and the Frobenius coefficient tables, one entry for each power below the
/// degree.
pub trait Fp6Config {
    type Fp2Config: Fp2Config;

    /// The cubic non-residue `xi`.
    spec fn spec_nonresidue() -> Fp2Model;

    /// Entry `i` of the table that scales `c1` under the Frobenius map.
    spec fn spec_frobenius_coeff_c1(i: int) -> Fp2Model;

    /// Entry `i` of the table that scales `c2` under the Frobenius map.
    spec fn spec_frobenius_coeff_c2(i: int) -> Fp2Model;

    /// The constants are reduced, and the entries for power zero are one.
    proof fn lemma_constants()
        ensures
            reduced2::<<Self::Fp2Config as Fp2Config>::Fp>(Self::spec_nonresidue()),
            forall|i: int|
                0 <= i < 6 ==> reduced2::<<Self::Fp2Config as Fp2Config>::Fp>(
                    #[trigger] Self::spec_frobenius_coeff_c1(i),
                ),
            forall|i: int|
                0 <= i < 6 ==> reduced2::<<Self::Fp2Config as Fp2Config>::Fp>(
                    #[trigger] Self::spec_frobenius_coeff_c2(i),
                ),
            Self::spec_frobenius_coeff_c1(0) == f2_one(),
            Self::spec_frobenius_coeff_c2(0) == f2_one(),
    ;

    /// The tables agree with composing Frobenius maps: the entry for
    /// `i + j` is the entry for `i`, mapped by the power `j`, times the entry
    /// for `j`.
    proof fn lemma_frobenius_coeffs(i: int, j: int)
        requires
            0 <= i < 6,
            0 <= j < 6,
        ensures
            Self::spec_frobenius_coeff_c1((i + j) % 6) == f2_mul::<Self::Fp2Config>(
                f2_frobenius::<Self::Fp2Config>(Self::spec_frobenius_coeff_c1(i), j as nat),
                Self::spec_frobenius_coeff_c1(j),
            ),
            Self::spec_frobenius_coeff_c2((i + j) % 6) == f2_mul::<Self::Fp2Config>(
                f2_frobenius::<Self::Fp2Config>(Self::spec_frobenius_coeff_c2(i), j as nat),
                Self::spec_frobenius_coeff_c2(j),
            ),
    ;

    fn nonresidue() -> (r: Fp2<Self::Fp2Config>)
        ensures
            r.wf(),
            r@ == Self::spec_nonresidue(),
    ;

    fn frobenius_coeff_fp6_c1(i: usize) -> (r: Fp2<Self::Fp2Config>)
        requires
            i < 6,
        ensures
            r.wf(),
            r@ == Self::spec_frobenius_coeff_c1(i as int),
    ;

    fn frobenius_coeff_fp6_c2(i: usize) -> (r: Fp2<Self::Fp2Config>)
        requires
            i < 6,
        ensures
            r.wf(),
            r@ == Self::spec_frobenius_coeff_c2(i as int),
    ;

    /// Multiplies `fe` by the cubic non-residue. A configuration may replace
    /// the plain product with a cheaper formula that gives the same value.
    fn mul_fp2_by_nonresidue_in_place(fe: &mut Fp2<Self::Fp2Config>)
        requires
            old(fe).wf(),
        ensures
            final(fe).wf(),
            final(fe)@ == f2_mul::<Self::Fp2Config>(old(fe)@, Self::spec_nonresidue()),
    {
        let n = Self::nonresidue();
        *fe = fe.mul(&n);
    }

    /// `fe` times the cubic non-residue.
    fn mul_fp2_by_nonresidue(fe: Fp2<Self::Fp2Config>) -> (r: Fp2<Self::Fp2Config>)
        requires
            fe.wf(),
        ensures
            r.wf(),
            r@ == f2_mul::<Self::Fp2Config>(fe@, Self::spec_nonresidue()),
    {
        let mut fe = fe;
        Self::mul_fp2_by_nonresidue_in_place(&mut fe);
        fe
    }
}

/// `x * xi` in the quadratic extension.
pub open spec fn mul_nr<P: Fp6Config>(x: Fp2Model) -> Fp2Model {
    f2_mul::<P::Fp2Config>(x, P::spec_nonresidue())
}

/// All three coordinates reduced.
pub open spec fn reduced6<P: Fp6Config>(a: Fp6Model) -> bool {
    &&& reduced2::<<P::Fp2Config as Fp2Config>::Fp>(a.0)
    &&& reduced2::<<P::Fp2Config as Fp2Config>::Fp>(a.1)
    &&& reduced2::<<P::Fp2Config as Fp2Config>::Fp>(a.2)
}

pub open spec fn f6_zero() -> Fp6Model {
    (f2_zero(), f2_zero(), f2_zero())
}

/// The product in the tower, by the schoolbook formula with `v^3 = xi`:
/// `c0 = a0 b0 + xi (a1 b2 + a2 b1)`, `c1 = a0 b1 + a1 b0 + xi a2 b2`,
/// `c2 = a0 b2 + a1 b1 + a2 b0`.
pub open spec fn f6_mul<P: Fp6Config>(a: Fp6Model, b: Fp6Model) -> Fp6Model {
    (
        f2_add::<P::Fp2Config>(
            f2_mul::<P::Fp2Config>(a.0, b.0),
            mul_nr::<P>(
                f2_add::<P::Fp2Config>(
                    f2_mul::<P::Fp2Config>(a.1, b.2),
                    f2_mul::<P::Fp2Config>(a.2, b.1),
                ),
            ),
        ),
        f2_add::<P::Fp2Config>(
            f2_add::<P::Fp2Config>(
                f2_mul::<P::Fp2Config>(a.0, b.1),
                f2_mul::<P::Fp2Config>(a.1, b.0),
            ),
            mul_nr::<P>(f2_mul::<P::Fp2Config>(a.2, b.2)),
        ),
        f2_add::<P::Fp2Config>(
            f2_add::<P::Fp2Config>(
                f2_mul::<P::Fp2Config>(a.0, b.2),
                f2_mul::<P::Fp2Config>(a.1, b.1),
            ),
            f2_mul::<P::Fp2Config>(a.2, b.0),
        ),
    )}

/// Every coordinate multiplied by one element of the quadratic extension.
pub open spec fn f6_mul_by_fp2<P: Fp6Config>(a: Fp6Model, e: Fp2Model) -> Fp6Model {
    (
        f2_mul::<P::Fp2Config>(a.0, e),
        f2_mul::<P::Fp2Config>(a.1, e),
        f2_mul::<P::Fp2Config>(a.2, e),
    )
}

/// Every coordinate scaled by one prime field element.
pub open spec fn f6_mul_by_fp<P: Fp6Config>(a: Fp6Model, e: int) -> Fp6Model {
    (
        f2_scale::<P::Fp2Config>(a.0, e),
        f2_scale::<P::Fp2Config>(a.1, e),
        f2_scale::<P::Fp2Config>(a.2, e),
    )
}

/// The Frobenius map raised to `power`: each coordinate goes through the
/// quadratic extension's map, then `c1` and `c2` are scaled by the table
/// entries for `power mod 6`.
pub open spec fn f6_frobenius<P: Fp6Config>(a: Fp6Model, power: nat) -> Fp6Model {
    (
        f2_frobenius::<P::Fp2Config>(a.0, power),
        f2_mul::<P::Fp2Config>(
            f2_frobenius::<P::Fp2Config>(a.1, power),
            P::spec_frobenius_coeff_c1((power % 6) as int),
        ),
        f2_mul::<P::Fp2Config>(
            f2_frobenius::<P::Fp2Config>(a.2, power),
            P::spec_frobenius_coeff_c2((power % 6) as int),
        ),
    )
}

/// Connects a tower configuration to the cubic extension arithmetic: it
/// forwards the non-residue product and applies the Frobenius coefficients.
pub struct Fp6ConfigWrapper<P: Fp6Config> {
    pub marker: PhantomData<P>,
}

impl<P: Fp6Config> Fp6ConfigWrapper<P> {
    /// `fe` times the cubic non-residue, through the configuration.
    pub fn mul_base_field_by_nonresidue_in_place(fe: &mut Fp2<P::Fp2Config>)
        requires
            old(fe).wf(),
        ensures
            final(fe).wf(),
            final(fe)@ == mul_nr::<P>(old(fe)@),
    {
        P::mul_fp2_by_nonresidue_in_place(fe);
    }

    /// Scales `c1` and `c2` by the Frobenius table entries for
    /// `power mod 6`.
    pub fn mul_base_field_by_frob_coeff(
        c1: &mut Fp2<P::Fp2Config>,
        c2: &mut Fp2<P::Fp2Config>,
        power: usize,
    )
        requires
            old(c1).wf(),
            old(c2).wf(),
        ensures
            final(c1).wf(),
            final(c2).wf(),
            final(c1)@ == f2_mul::<P::Fp2Config>(
                old(c1)@,
                P::spec_frobenius_coeff_c1((power % 6) as int),
            ),
            final(c2)@ == f2_mul::<P::Fp2Config>(
                old(c2)@,
                P::spec_frobenius_coeff_c2((power % 6) as int),
            ),
    {
        let i = power % DEGREE_OVER_BASE_PRIME_FIELD;
        let k1 = P::frobenius_coeff_fp6_c1(i);
        let k2 = P::frobenius_coeff_fp6_c2(i);
        *c1 = c1.mul(&k1);
        *c2 = c2.mul(&k2);
    }
}

/// An element `c0 + c1 * v + c2 * v^2` of the tower.
pub struct Fp6<P: Fp6Config> {
    pub c0: Fp2<P::Fp2Config>,
    pub c1: Fp2<P::Fp2Config>,
    pub c2: Fp2<P::Fp2Config>,
}

impl<P: Fp6Config> Clone for Fp6<P> {
    fn clone(&self) -> (r: Self)
        ensures
            r == *self,
    {
        Fp6 { c0: self.c0, c1: self.c1, c2: self.c2 }
    }
}

impl<P: Fp6Config> Copy for Fp6<P> {
}

/// Elements of the tower that lie in the cyclotomic subgroup may be raised
/// to powers with the subgroup's own algorithms.
pub trait CyclotomicMultSubgroup {
}

impl<P: Fp6Config> CyclotomicMultSubgroup for Fp6<P> {
}

impl<P: Fp6Config> Fp6<P> {
    pub open spec fn view(&self) -> Fp6Model {
        (self.c0@, self.c1@, self.c2@)
    }

    /// All three coordinates are reduced.
    pub open spec fn wf(&self) -> bool {
        self.c0.wf() && self.c1.wf() && self.c2.wf()
    }

    pub fn new(c0: Fp2<P::Fp2Config>, c1: Fp2<P::Fp2Config>, c2: Fp2<P::Fp2Config>) -> (r: Self)
        ensures
            r.c0 == c0,
            r.c1 == c1,
            r.c2 == c2,
    {
        Fp6 { c0, c1, c2 }
    }

    pub fn zero() -> (r: Self)
        ensures
            r.wf(),
            r@ == f6_zero(),
    {
        Fp6 { c0: Fp2::zero(), c1: Fp2::zero(), c2: Fp2::zero() }
    }

    /// Multiplies every coordinate by `other`.
    pub fn mul_assign_by_fp2(&mut self, other: Fp2<P::Fp2Config>)
        requires
            old(self).wf(),
            other.wf(),
        ensures
            final(self).wf(),
            final(self)@ == f6_mul_by_fp2::<P>(old(self)@, other@),
    {
        self.c0 = self.c0.mul(&other);
        self.c1 = self.c1.mul(&other);
        self.c2 = self.c2.mul(&other);
    }

    /// Scales every coordinate by a prime field element.
    pub fn mul_by_fp(&mut self, element: &Fp<<P::Fp2Config as Fp2Config>::Fp>)
        requires
            old(self).wf(),
            element.wf(),
        ensures
            final(self).wf(),
            final(self)@ == f6_mul_by_fp::<P>(old(self)@, element@),
    {
        self.c0 = self.c0.mul_by_fp(element);
        self.c1 = self.c1.mul_by_fp(element);
        self.c2 = self.c2.mul_by_fp(element);
    }

    /// Multiplies every coordinate by `element`.
    pub fn mul_by_fp2(&mut self, element: &Fp2<P::Fp2Config>)
        requires
            old(self).wf(),
            element.wf(),
        ensures
            final(self).wf(),
            final(self)@ == f6_mul_by_fp2::<P>(old(self)@, element@),
    {
        self.c0 = self.c0.mul(element);
        self.c1 = self.c1.mul(element);
        self.c2 = self.c2.mul(element);
    }

    /// The product by the schoolbook formula, with nine products in the
    /// quadratic extension.
    pub fn mul(&self, other: &Self) -> (r: Self)
        requires
            self.wf(),
            other.wf(),
        ensures
            r.wf(),
            r@ == f6_mul::<P>(self@, other@),
    {
        let t = self.c1.mul(&other.c2).add(&self.c2.mul(&other.c1));
        let c0 = self.c0.mul(&other.c0).add(&P::mul_fp2_by_nonresidue(t));
        let t = self.c2.mul(&other.c2);
        let c1 = self.c0.mul(&other.c1).add(&self.c1.mul(&other.c0)).add(
            &P::mul_fp2_by_nonresidue(t),
        );
        let c2 = self.c0.mul(&other.c2).add(&self.c1.mul(&other.c1)).add(&self.c2.mul(&other.c0));
        Fp6 { c0, c1, c2 }
    }

    /// Applies the Frobenius map raised to `power`.
    pub fn frobenius_map_in_place(&mut self, power: usize)
        requires
            old(self).wf(),
        ensures
            final(self).wf(),
            final(self)@ == f6_frobenius::<P>(old(self)@, power as nat),
    {
        self.c0 = self.c0.frobenius_map(power);
        let mut c1 = self.c1.frobenius_map(power);
        let mut c2 = self.c2.frobenius_map(power);
        Fp6ConfigWrapper::<P>::mul_base_field_by_frob_coeff(&mut c1, &mut c2, power);
        self.c1 = c1;
        self.c2 = c2;
    }

    /// Multiplies by the sparse element `(0, c1, 0)`, reusing the product
    /// `a1 * c1` to obtain `a2 * c1` and `a0 * c1`.
    pub fn mul_by_1(&mut self, c1: &Fp2<P::Fp2Config>)
        requires
            old(self).wf(),
            c1.wf(),
        ensures
            final(self).wf(),
            final(self)@ == f6_mul::<P>(old(self)@, (f2_zero(), c1@, f2_zero())),
    {
        let ghost a = self@;
        let b_b = self.c1.mul(c1);

        let tmp = self.c1.add(&self.c2);
        let mut t1 = c1.mul(&tmp).sub(&b_b);
        P::mul_fp2_by_nonresidue_in_place(&mut t1);

        let tmp = self.c0.add(&self.c1);
        let t2 = c1.mul(&tmp).sub(&b_b);

        self.c0 = t1;
        self.c1 = t2;
        self.c2 = b_b;
        proof {
            lemma_f6_mul_by_1::<P>(a, c1@);
        }
    }

    /// Multiplies by the sparse element `(c0, c1, 0)` with five products in
    /// the quadratic extension, reusing `a0 * c0` and `a1 * c1`.
    pub fn mul_by_01(&mut self, c0: &Fp2<P::Fp2Config>, c1: &Fp2<P::Fp2Config>)
        requires
            old(self).wf(),
            c0.wf(),
            c1.wf(),
        ensures
            final(self).wf(),
            final(self)@ == f6_mul::<P>(old(self)@, (c0@, c1@, f2_zero())),
    {
        let ghost a = self@;
        let a_a = self.c0.mul(c0);
        let b_b = self.c1.mul(c1);

        let tmp = self.c1.add(&self.c2);
        let mut t1 = c1.mul(&tmp).sub(&b_b);
        P::mul_fp2_by_nonresidue_in_place(&mut t1);
        let t1 = t1.add(&a_a);

        let tmp = self.c0.add(&self.c2);
        let t3 = c0.mul(&tmp).sub(&a_a).add(&b_b);

        let s = c0.add(c1);
        let tmp = self.c0.add(&self.c1);
        let t2 = s.mul(&tmp).sub(&a_a).sub(&b_b);

        self.c0 = t1;
        self.c1 = t2;
        self.c2 = t3;
        proof {
            lemma_f6_mul_by_01::<P>(a, c0@, c1@);
        }
    }
}

/// The product `x * y` before its final reduction.
spec fn raw_of_mul<P: Fp6Config>(x: Fp2Model, y: Fp2Model) -> Fp2Model {
    crate::fp2::raw2_mul(<P::Fp2Config as Fp2Config>::spec_nonresidue(), x, y)
}

/// The result of the sparse product by `(0, d1, 0)` equals the schoolbook
/// product.
proof fn lemma_f6_mul_by_1<P: Fp6Config>(a: Fp6Model, d1: Fp2Model)
    requires
        reduced6::<P>(a),
        reduced2::<<P::Fp2Config as Fp2Config>::Fp>(d1),
    ensures
        ({
            let bb = f2_mul::<P::Fp2Config>(a.1, d1);
            let t1 = mul_nr::<P>(
                f2_sub::<P::Fp2Config>(
                    f2_mul::<P::Fp2Config>(d1, f2_add::<P::Fp2Config>(a.1, a.2)),
                    bb,
                ),
            );
            let t2 = f2_sub::<P::Fp2Config>(
                f2_mul::<P::Fp2Config>(d1, f2_add::<P::Fp2Config>(a.0, a.1)),
                bb,
            );
            f6_mul::<P>(a, (f2_zero(), d1, f2_zero())) == (t1, t2, bb)
        }),
{
    P::lemma_constants();
    lemma_f2_recover::<P::Fp2Config>(d1, a.1, a.2);
    lemma_f2_recover::<P::Fp2Config>(d1, a.1, a.0);
    let z = f2_zero();
    lemma_f2_zero::<P::Fp2Config>(a.0);
    lemma_f2_zero::<P::Fp2Config>(a.1);
    lemma_f2_zero::<P::Fp2Config>(a.2);
    lemma_f2_zero::<P::Fp2Config>(P::spec_nonresidue());
    let a2d = f2_mul::<P::Fp2Config>(a.2, d1);
    let a0d = f2_mul::<P::Fp2Config>(a.0, d1);
    let a1d = f2_mul::<P::Fp2Config>(a.1, d1);
    lemma_red2_idem::<<P::Fp2Config as Fp2Config>::Fp>(raw_of_mul::<P>(a.2, d1));
    lemma_red2_idem::<<P::Fp2Config as Fp2Config>::Fp>(raw_of_mul::<P>(a.0, d1));
    lemma_red2_idem::<<P::Fp2Config as Fp2Config>::Fp>(raw_of_mul::<P>(a.1, d1));
    lemma_f2_zero::<P::Fp2Config>(a2d);
    lemma_f2_zero::<P::Fp2Config>(a0d);
    lemma_f2_zero::<P::Fp2Config>(a1d);
    lemma_red2_idem::<<P::Fp2Config as Fp2Config>::Fp>(raw_of_mul::<P>(a2d, P::spec_nonresidue()));
    lemma_f2_zero::<P::Fp2Config>(mul_nr::<P>(a2d));
    lemma_f2_zero::<P::Fp2Config>(z);
}


/// The result of the sparse product by `(d0, d1, 0)` equals the schoolbook
/// product.
proof fn lemma_f6_mul_by_01<P: Fp6Config>(a: Fp6Model, d0: Fp2Model, d1: Fp2Model)
    requires
        reduced6::<P>(a),
        reduced2::<<P::Fp2Config as Fp2Config>::Fp>(d0),
        reduced2::<<P::Fp2Config as Fp2Config>::Fp>(d1),
    ensures
        ({
            let aa = f2_mul::<P::Fp2Config>(a.0, d0);
            let bb = f2_mul::<P::Fp2Config>(a.1, d1);
            let t1 = f2_add::<P::Fp2Config>(
                mul_nr::<P>(
                    f2_sub::<P::Fp2Config>(
                        f2_mul::<P::Fp2Config>(d1, f2_add::<P::Fp2Config>(a.1, a.2)),
                        bb,
                    ),
                ),
                aa,
            );
            let t3 = f2_add::<P::Fp2Config>(
                f2_sub::<P::Fp2Config>(
                    f2_mul::<P::Fp2Config>(d0, f2_add::<P::Fp2Config>(a.0, a.2)),
                    aa,
                ),
                bb,
            );
            let t2 = f2_sub::<P::Fp2Config>(
                f2_sub::<P::Fp2Config>(
                    f2_mul::<P::Fp2Config>(
                        f2_add::<P::Fp2Config>(d0, d1),
                        f2_add::<P::Fp2Config>(a.0, a.1),
                    ),
                    aa,
                ),
                bb,
            );
            f6_mul::<P>(a, (d0, d1, f2_zero())) == (t1, t2, t3)
        }),
{
    P::lemma_constants();
    lemma_f2_recover::<P::Fp2Config>(d1, a.1, a.2);
    lemma_f2_recover::<P::Fp2Config>(d0, a.0, a.2);
    lemma_f2_cross::<P::Fp2Config>(a.0, a.1, d0, d1);
    let z = f2_zero();
    lemma_f2_zero::<P::Fp2Config>(a.0);
    lemma_f2_zero::<P::Fp2Config>(a.1);
    lemma_f2_zero::<P::Fp2Config>(a.2);
    lemma_f2_zero::<P::Fp2Config>(P::spec_nonresidue());
    let aa = f2_mul::<P::Fp2Config>(a.0, d0);
    let bb = f2_mul::<P::Fp2Config>(a.1, d1);
    let a2d1 = f2_mul::<P::Fp2Config>(a.2, d1);
    let a2d0 = f2_mul::<P::Fp2Config>(a.2, d0);
    let cross = f2_add::<P::Fp2Config>(
        f2_mul::<P::Fp2Config>(a.0, d1),
        f2_mul::<P::Fp2Config>(a.1, d0),
    );
    lemma_red2_idem::<<P::Fp2Config as Fp2Config>::Fp>(raw_of_mul::<P>(a.2, d1));
    lemma_red2_idem::<<P::Fp2Config as Fp2Config>::Fp>(raw_of_mul::<P>(a.1, d1));
    lemma_red2_idem::<<P::Fp2Config as Fp2Config>::Fp>(
        crate::fp2::raw2_add(f2_mul::<P::Fp2Config>(a.0, d1), f2_mul::<P::Fp2Config>(a.1, d0)),
    );
    lemma_f2_zero::<P::Fp2Config>(a2d1);
    lemma_f2_zero::<P::Fp2Config>(bb);
    lemma_f2_zero::<P::Fp2Config>(cross);
    lemma_f2_commute::<P::Fp2Config>(aa, mul_nr::<P>(a2d1));
    lemma_f2_commute::<P::Fp2Config>(bb, a2d0);
}


/// Multiplying by an element whose only nonzero coordinate is `c0`, as a
/// sparse product with `c1` zero, is multiplying each coordinate by `c0`.
pub proof fn lemma_mul_by_base_element<P: Fp6Config>(a: Fp6Model, e: Fp2Model)
    requires
        reduced6::<P>(a),
        reduced2::<<P::Fp2Config as Fp2Config>::Fp>(e),
    ensures
        f6_mul::<P>(a, (e, f2_zero(), f2_zero())) == f6_mul_by_fp2::<P>(a, e),
{
    P::lemma_constants();
    let z = f2_zero();
    lemma_f2_zero::<P::Fp2Config>(a.0);
    lemma_f2_zero::<P::Fp2Config>(a.1);
    lemma_f2_zero::<P::Fp2Config>(a.2);
    lemma_f2_zero::<P::Fp2Config>(z);
    lemma_f2_zero::<P::Fp2Config>(P::spec_nonresidue());
    lemma_red2_idem::<<P::Fp2Config as Fp2Config>::Fp>(raw_of_mul::<P>(a.0, e));
    lemma_red2_idem::<<P::Fp2Config as Fp2Config>::Fp>(raw_of_mul::<P>(a.1, e));
    lemma_red2_idem::<<P::Fp2Config as Fp2Config>::Fp>(raw_of_mul::<P>(a.2, e));
    lemma_f2_zero::<P::Fp2Config>(f2_mul::<P::Fp2Config>(a.0, e));
    lemma_f2_zero::<P::Fp2Config>(f2_mul::<P::Fp2Config>(a.1, e));
    lemma_f2_zero::<P::Fp2Config>(f2_mul::<P::Fp2Config>(a.2, e));
}

/// Multiplying any element by zero gives zero; so do the sparse products
/// whose given coordinates are all zero.
pub proof fn lemma_mul_by_zero<P: Fp6Config>(a: Fp6Model)
    requires
        reduced6::<P>(a),
    ensures
        f6_mul::<P>(a, f6_zero()) == f6_zero(),
{
    P::lemma_constants();
    let z = f2_zero();
    lemma_f2_zero::<P::Fp2Config>(a.0);
    lemma_f2_zero::<P::Fp2Config>(a.1);
    lemma_f2_zero::<P::Fp2Config>(a.2);
    lemma_f2_zero::<P::Fp2Config>(z);
    lemma_f2_zero::<P::Fp2Config>(P::spec_nonresidue());
}

/// The Frobenius map depends on its power only modulo six, and a power that
/// is a multiple of six leaves every element unchanged.
pub proof fn lemma_frobenius_period<P: Fp6Config>(a: Fp6Model, power: nat)
    requires
        reduced6::<P>(a),
    ensures
        f6_frobenius::<P>(a, power + 6) == f6_frobenius::<P>(a, power),
        power % 6 == 0 ==> f6_frobenius::<P>(a, power) == a,
{
    P::lemma_constants();
    assert((power + 6) % 6 == power % 6);
    assert((power + 6) % 2 == power % 2);
    if power % 6 == 0 {
        assert(power % 2 == 0);
        lemma_f2_mul_one::<P::Fp2Config>(a.1);
        lemma_f2_mul_one::<P::Fp2Config>(a.2);
    }
}


/// One coordinate of the composed map: mapping `x` for `i` and scaling by
/// `k(i)`, then mapping for `j` and scaling by `k(j)`, is mapping for `i + j`
/// and scaling by the product that the tables give for `i + j`.
proof fn lemma_frobenius_scaled_compose<P: Fp6Config>(
    x: Fp2Model,
    ki: Fp2Model,
    kj: Fp2Model,
    kij: Fp2Model,
    i: nat,
    j: nat,
)
    requires
        reduced2::<<P::Fp2Config as Fp2Config>::Fp>(x),
        kij == f2_mul::<P::Fp2Config>(f2_frobenius::<P::Fp2Config>(ki, (j % 6) as nat), kj),
    ensures
        f2_mul::<P::Fp2Config>(
            f2_frobenius::<P::Fp2Config>(
                f2_mul::<P::Fp2Config>(f2_frobenius::<P::Fp2Config>(x, i), ki),
                j,
            ),
            kj,
        ) == f2_mul::<P::Fp2Config>(f2_frobenius::<P::Fp2Config>(x, i + j), kij),
{
    let fx = f2_frobenius::<P::Fp2Config>(x, i);
    lemma_f2_frobenius_compose::<P::Fp2Config>(x, i, j);
    lemma_f2_frobenius_mul::<P::Fp2Config>(fx, ki, j);
    assert((j % 6) % 2 == j % 2);
    lemma_f2_mul_assoc::<P::Fp2Config>(
        f2_frobenius::<P::Fp2Config>(x, i + j),
        f2_frobenius::<P::Fp2Config>(ki, j),
        kj,
    );
}

/// Applying the Frobenius map for `i` and then for `j` is applying it for
/// `i + j`.
pub proof fn lemma_frobenius_compose<P: Fp6Config>(a: Fp6Model, i: nat, j: nat)
    requires
        reduced6::<P>(a),
    ensures
        f6_frobenius::<P>(f6_frobenius::<P>(a, i), j) == f6_frobenius::<P>(a, i + j),
{
    let (ii, jj) = ((i % 6) as int, (j % 6) as int);
    P::lemma_frobenius_coeffs(ii, jj);
    assert((ii + jj) % 6 == (i + j) % 6);
    lemma_f2_frobenius_compose::<P::Fp2Config>(a.0, i, j);
    lemma_frobenius_scaled_compose::<P>(
        a.1,
        P::spec_frobenius_coeff_c1(ii),
        P::spec_frobenius_coeff_c1(jj),
        P::spec_frobenius_coeff_c1(((i + j) % 6) as int),
        i,
        j,
    );
    lemma_frobenius_scaled_compose::<P>(
        a.2,
        P::spec_frobenius_coeff_c2(ii),
        P::spec_frobenius_coeff_c2(jj),
        P::spec_frobenius_coeff_c2(((i + j) % 6) as int),
        i,
        j,
    );
}

/// The Frobenius map applied six times leaves every element unchanged.
pub proof fn lemma_frobenius_six_times<P: Fp6Config>(a: Fp6Model)
    requires
        reduced6::<P>(a),
    ensures
        f6_frobenius::<P>(
            f6_frobenius::<P>(
                f6_frobenius::<P>(
                    f6_frobenius::<P>(f6_frobenius::<P>(f6_frobenius::<P>(a, 1), 1), 1),
                    1,
                ),
                1,
            ),
            1,
        ) == a,
{
    lemma_frobenius_compose::<P>(a, 1, 1);
    lemma_frobenius_compose::<P>(a, 2, 1);
    lemma_frobenius_compose::<P>(a, 3, 1);
    lemma_frobenius_compose::<P>(a, 4, 1);
    lemma_frobenius_compose::<P>(a, 5, 1);
    lemma_frobenius_period::<P>(a, 0);
    lemma_frobenius_period::<P>(a, 6);
}

} // verus!
