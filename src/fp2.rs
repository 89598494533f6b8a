//! The quadratic extension `Fp[u] / (u^2 - n)` of a prime field, for a
//! quadratic non-residue `n`.

use crate::fp::{lemma_red_add, lemma_red_idem, lemma_red_mul, lemma_red_sub, red, Fp, FpConfig};
use vstd::prelude::*;

verus! {

/// A pair of integers `(x0, x1)` standing for `x0 + x1 * u`.
pub type Fp2Model = (int, int);

/// The parameters of a quadratic extension: its prime field and the
/// non-residue `n` with `u^2 = n`.
pub trait Fp2Config {
    type Fp: FpConfig;

    /// The non-residue, as a residue of the prime field.
    spec fn spec_nonresidue() -> int;

    /// The non-residue is reduced.
    proof fn lemma_nonresidue_bounds()
        ensures
            0 <= Self::spec_nonresidue() < <Self::Fp as FpConfig>::spec_modulus(),
    ;

    /// The non-residue, as a prime field element.
    fn nonresidue() -> (r: Fp<Self::Fp>)
        ensures
            r.wf(),
            r@ == Self::spec_nonresidue(),
    ;
}

/// Coordinate-wise sum, before reduction.
pub open spec fn raw2_add(a: Fp2Model, b: Fp2Model) -> Fp2Model {
    (a.0 + b.0, a.1 + b.1)
}

/// Coordinate-wise difference, before reduction.
pub open spec fn raw2_sub(a: Fp2Model, b: Fp2Model) -> Fp2Model {
    (a.0 - b.0, a.1 - b.1)
}

/// The product of `a0 + a1 u` and `b0 + b1 u` when `u^2 = n`, before reduction.
pub open spec fn raw2_mul(n: int, a: Fp2Model, b: Fp2Model) -> Fp2Model {
    (a.0 * b.0 + n * (a.1 * b.1), a.0 * b.1 + a.1 * b.0)
}

/// Both coordinates reduced modulo the prime.
pub open spec fn red2<P: FpConfig>(a: Fp2Model) -> Fp2Model {
    (red::<P>(a.0), red::<P>(a.1))
}

/// Both coordinates are reduced.
pub open spec fn reduced2<P: FpConfig>(a: Fp2Model) -> bool {
    0 <= a.0 < P::spec_modulus() && 0 <= a.1 < P::spec_modulus()
}

pub open spec fn f2_zero() -> Fp2Model {
    (0, 0)
}

pub open spec fn f2_one() -> Fp2Model {
    (1, 0)
}

/// Sum in the quadratic extension.
pub open spec fn f2_add<C: Fp2Config>(a: Fp2Model, b: Fp2Model) -> Fp2Model {
    red2::<C::Fp>(raw2_add(a, b))
}

/// Difference in the quadratic extension.
pub open spec fn f2_sub<C: Fp2Config>(a: Fp2Model, b: Fp2Model) -> Fp2Model {
    red2::<C::Fp>(raw2_sub(a, b))
}

/// Product in the quadratic extension.
pub open spec fn f2_mul<C: Fp2Config>(a: Fp2Model, b: Fp2Model) -> Fp2Model {
    red2::<C::Fp>(raw2_mul(C::spec_nonresidue(), a, b))
}

/// Both coordinates scaled by a prime field element.
pub open spec fn f2_scale<C: Fp2Config>(a: Fp2Model, e: int) -> Fp2Model {
    red2::<C::Fp>((a.0 * e, a.1 * e))
}

/// The Frobenius map `x -> x^(p^power)`: the conjugate `x0 - x1 u` for an
/// odd power, `x` itself for an even one.
pub open spec fn f2_frobenius<C: Fp2Config>(a: Fp2Model, power: nat) -> Fp2Model {
    if power % 2 == 1 {
        red2::<C::Fp>((a.0, -a.1))
    } else {
        a
    }
}

/// A reduced pair is its own reduction, and reducing twice is reducing once.
pub proof fn lemma_red2_idem<P: FpConfig>(a: Fp2Model)
    ensures
        reduced2::<P>(red2::<P>(a)),
        red2::<P>(red2::<P>(a)) == red2::<P>(a),
        reduced2::<P>(a) ==> red2::<P>(a) == a,
{
    lemma_red_idem::<P>(a.0);
    lemma_red_idem::<P>(a.1);
}

/// Reducing an operand of a sum or a difference first changes nothing after
/// the final reduction.
pub proof fn lemma_red2_add_sub<P: FpConfig>(a: Fp2Model, b: Fp2Model)
    ensures
        red2::<P>(raw2_add(red2::<P>(a), b)) == red2::<P>(raw2_add(a, b)),
        red2::<P>(raw2_add(a, red2::<P>(b))) == red2::<P>(raw2_add(a, b)),
        red2::<P>(raw2_sub(red2::<P>(a), b)) == red2::<P>(raw2_sub(a, b)),
        red2::<P>(raw2_sub(a, red2::<P>(b))) == red2::<P>(raw2_sub(a, b)),
{
    lemma_red_add::<P>(a.0, b.0);
    lemma_red_add::<P>(a.1, b.1);
    lemma_red_sub::<P>(a.0, b.0);
    lemma_red_sub::<P>(a.1, b.1);
}

/// `red(x0 * y0 + n * (x1 * y1))` depends on the factors only through their
/// residues.
proof fn lemma_red_bilinear<P: FpConfig>(n: int, x0: int, y0: int, x1: int, y1: int)
    ensures
        red::<P>(red::<P>(x0) * y0 + n * (red::<P>(x1) * y1)) == red::<P>(x0 * y0 + n * (x1 * y1)),
        red::<P>(x0 * red::<P>(y0) + n * (x1 * red::<P>(y1))) == red::<P>(x0 * y0 + n * (x1 * y1)),
{
    lemma_red_add::<P>(red::<P>(x0) * y0, n * (red::<P>(x1) * y1));
    lemma_red_add::<P>(x0 * y0, n * (red::<P>(x1) * y1));
    lemma_red_mul::<P>(x0, y0);
    lemma_red_mul::<P>(n, red::<P>(x1) * y1);
    lemma_red_mul::<P>(x1, y1);
    lemma_red_mul::<P>(n, x1 * y1);
    lemma_red_add::<P>(x0 * y0, n * (x1 * y1));

    lemma_red_add::<P>(x0 * red::<P>(y0), n * (x1 * red::<P>(y1)));
    lemma_red_add::<P>(x0 * y0, n * (x1 * red::<P>(y1)));
    lemma_red_mul::<P>(n, x1 * red::<P>(y1));
}

/// Reducing a factor of a product first changes nothing after the final
/// reduction.
pub proof fn lemma_red2_mul<P: FpConfig>(n: int, a: Fp2Model, b: Fp2Model)
    ensures
        red2::<P>(raw2_mul(n, red2::<P>(a), b)) == red2::<P>(raw2_mul(n, a, b)),
        red2::<P>(raw2_mul(n, a, red2::<P>(b))) == red2::<P>(raw2_mul(n, a, b)),
{
    lemma_red_bilinear::<P>(n, a.0, b.0, a.1, b.1);
    lemma_red_bilinear::<P>(1, a.0, b.1, a.1, b.0);
    assert(a.0 * b.1 + 1 * (a.1 * b.0) == a.0 * b.1 + a.1 * b.0);
    assert(red::<P>(a.0) * b.1 + 1 * (red::<P>(a.1) * b.0) == red::<P>(a.0) * b.1 + red::<P>(a.1) * b.0);
    assert(a.0 * red::<P>(b.1) + 1 * (a.1 * red::<P>(b.0)) == a.0 * red::<P>(b.1) + a.1 * red::<P>(b.0));
}

/// Zero is neutral for addition and absorbing for multiplication.
pub proof fn lemma_f2_zero<C: Fp2Config>(x: Fp2Model)
    requires
        reduced2::<C::Fp>(x),
    ensures
        f2_add::<C>(x, f2_zero()) == x,
        f2_add::<C>(f2_zero(), x) == x,
        f2_mul::<C>(x, f2_zero()) == f2_zero(),
        f2_mul::<C>(f2_zero(), x) == f2_zero(),
{
    lemma_red2_idem::<C::Fp>(x);
    lemma_red_idem::<C::Fp>(0);
    let n = C::spec_nonresidue();
    assert(n * (x.1 * 0) == 0 && n * (0 * x.1) == 0 && x.0 * 0 == 0 && x.1 * 0 == 0) by (nonlinear_arith);
    assert(raw2_mul(n, x, f2_zero()) == f2_zero());
    assert(raw2_mul(n, f2_zero(), x) == f2_zero());
}

proof fn lemma_expand(p: int, q: int, r: int, s: int)
    ensures
        (p + q) * (r + s) == p * r + p * s + q * r + q * s,
{
    assert((p + q) * (r + s) == p * r + p * s + q * r + q * s) by (nonlinear_arith);
}

proof fn lemma_scale(n: int, u: int, v: int, w: int, z: int)
    ensures
        n * (u + v + w + z) == n * u + n * v + n * w + n * z,
{
    assert(n * (u + v + w + z) == n * u + n * v + n * w + n * z) by (nonlinear_arith);
}

/// One is neutral for multiplication.
pub proof fn lemma_f2_mul_one<C: Fp2Config>(x: Fp2Model)
    requires
        reduced2::<C::Fp>(x),
    ensures
        f2_mul::<C>(x, f2_one()) == x,
{
    lemma_red2_idem::<C::Fp>(x);
    let n = C::spec_nonresidue();
    assert(raw2_mul(n, x, f2_one()) == x) by (nonlinear_arith);
}

proof fn lemma_assoc_int(n: int, x0: int, x1: int, y0: int, y1: int, z0: int, z1: int)
    ensures
        (x0 * y0 + n * (x1 * y1)) * z0 + n * ((x0 * y1 + x1 * y0) * z1) == x0 * (y0 * z0 + n * (
        y1 * z1)) + n * (x1 * (y0 * z1 + y1 * z0)),
        (x0 * y0 + n * (x1 * y1)) * z1 + (x0 * y1 + x1 * y0) * z0 == x0 * (y0 * z1 + y1 * z0) + x1
            * (y0 * z0 + n * (y1 * z1)),
{
    let (a, b, c, d) = (x0 * y0, n * (x1 * y1), x0 * y1, x1 * y0);
    assert((a + b) * z0 == a * z0 + b * z0) by (nonlinear_arith);
    assert((a + b) * z1 == a * z1 + b * z1) by (nonlinear_arith);
    assert((c + d) * z1 == c * z1 + d * z1) by (nonlinear_arith);
    assert((c + d) * z0 == c * z0 + d * z0) by (nonlinear_arith);
    assert(n * (c * z1 + d * z1) == n * (c * z1) + n * (d * z1)) by (nonlinear_arith);
    let (e, f, g, h) = (y0 * z0, n * (y1 * z1), y0 * z1, y1 * z0);
    assert(x0 * (e + f) == x0 * e + x0 * f) by (nonlinear_arith);
    assert(x1 * (g + h) == x1 * g + x1 * h) by (nonlinear_arith);
    assert(n * (x1 * g + x1 * h) == n * (x1 * g) + n * (x1 * h)) by (nonlinear_arith);
    assert(x0 * (g + h) == x0 * g + x0 * h) by (nonlinear_arith);
    assert(x1 * (e + f) == x1 * e + x1 * f) by (nonlinear_arith);
    assert(a * z0 == x0 * e && a * z1 == x0 * g) by (nonlinear_arith)
        requires
            a == x0 * y0,
            e == y0 * z0,
            g == y0 * z1,
    ;
    assert(b * z0 == n * (x1 * h) && b * z1 == x1 * f) by (nonlinear_arith)
        requires
            b == n * (x1 * y1),
            h == y1 * z0,
            f == n * (y1 * z1),
    ;
    assert(n * (c * z1) == x0 * f && c * z0 == x0 * h) by (nonlinear_arith)
        requires
            c == x0 * y1,
            f == n * (y1 * z1),
            h == y1 * z0,
    ;
    assert(n * (d * z1) == n * (x1 * g) && d * z0 == x1 * e) by (nonlinear_arith)
        requires
            d == x1 * y0,
            g == y0 * z1,
            e == y0 * z0,
    ;
}

/// Multiplication is associative.
pub proof fn lemma_f2_mul_assoc<C: Fp2Config>(x: Fp2Model, y: Fp2Model, z: Fp2Model)
    ensures
        f2_mul::<C>(f2_mul::<C>(x, y), z) == f2_mul::<C>(x, f2_mul::<C>(y, z)),
{
    let n = C::spec_nonresidue();
    lemma_red2_mul::<C::Fp>(n, raw2_mul(n, x, y), z);
    lemma_red2_mul::<C::Fp>(n, x, raw2_mul(n, y, z));
    lemma_assoc_int(n, x.0, x.1, y.0, y.1, z.0, z.1);
}

/// The Frobenius map preserves products.
pub proof fn lemma_f2_frobenius_mul<C: Fp2Config>(x: Fp2Model, y: Fp2Model, power: nat)
    ensures
        f2_frobenius::<C>(f2_mul::<C>(x, y), power) == f2_mul::<C>(
            f2_frobenius::<C>(x, power),
            f2_frobenius::<C>(y, power),
        ),
{
    if power % 2 == 1 {
        let n = C::spec_nonresidue();
        let m = raw2_mul(n, x, y);
        let cx = (x.0, -x.1);
        let cy = (y.0, -y.1);
        lemma_red_idem::<C::Fp>(m.0);
        lemma_red_sub::<C::Fp>(0, m.1);
        lemma_red2_mul::<C::Fp>(n, red2::<C::Fp>(cx), cy);
        lemma_red2_mul::<C::Fp>(n, cx, cy);
        assert(raw2_mul(n, cx, cy) == (m.0, -m.1)) by (nonlinear_arith)
            requires
                m == raw2_mul(n, x, y),
                cx == (x.0, -x.1),
                cy == (y.0, -y.1),
        ;
    }
}

/// Applying the Frobenius map for `i` and then for `j` is applying it for
/// `i + j`.
pub proof fn lemma_f2_frobenius_compose<C: Fp2Config>(x: Fp2Model, i: nat, j: nat)
    requires
        reduced2::<C::Fp>(x),
    ensures
        f2_frobenius::<C>(f2_frobenius::<C>(x, i), j) == f2_frobenius::<C>(x, i + j),
        reduced2::<C::Fp>(f2_frobenius::<C>(x, i)),
{
    lemma_red2_idem::<C::Fp>(x);
    lemma_red2_idem::<C::Fp>((x.0, -x.1));
    lemma_red_sub::<C::Fp>(0, -x.1);
    lemma_red_idem::<C::Fp>(x.0);
    assert((i + j) % 2 == (i % 2 + j % 2) % 2);
}

/// Addition and multiplication commute.
pub proof fn lemma_f2_commute<C: Fp2Config>(x: Fp2Model, y: Fp2Model)
    ensures
        f2_add::<C>(x, y) == f2_add::<C>(y, x),
        f2_mul::<C>(x, y) == f2_mul::<C>(y, x),
{
    let n = C::spec_nonresidue();
    assert(raw2_mul(n, x, y) == raw2_mul(n, y, x)) by (nonlinear_arith);
}

/// `d * (x + y) - x * d == y * d`, and the same with `y + x`: the product
/// `y * d` recovered from a product of sums and a product already known.
pub proof fn lemma_f2_recover<C: Fp2Config>(d: Fp2Model, x: Fp2Model, y: Fp2Model)
    ensures
        f2_sub::<C>(f2_mul::<C>(d, f2_add::<C>(x, y)), f2_mul::<C>(x, d)) == f2_mul::<C>(y, d),
        f2_sub::<C>(f2_mul::<C>(d, f2_add::<C>(y, x)), f2_mul::<C>(x, d)) == f2_mul::<C>(y, d),
{
    let n = C::spec_nonresidue();
    lemma_f2_commute::<C>(x, y);
    let s = raw2_add(x, y);
    let m = raw2_mul(n, d, s);
    let b = raw2_mul(n, x, d);
    lemma_red2_mul::<C::Fp>(n, d, s);
    lemma_red2_add_sub::<C::Fp>(m, red2::<C::Fp>(b));
    lemma_red2_add_sub::<C::Fp>(m, b);
    assert(raw2_sub(m, b) == raw2_mul(n, y, d)) by (nonlinear_arith)
        requires
            s == raw2_add(x, y),
            m == raw2_mul(n, d, s),
            b == raw2_mul(n, x, d),
    ;
}

/// `(d0 + d1) * (a0 + a1) - a0 * d0 - a1 * d1 == a0 * d1 + a1 * d0`: the two
/// cross products obtained with one multiplication.
pub proof fn lemma_f2_cross<C: Fp2Config>(a0: Fp2Model, a1: Fp2Model, d0: Fp2Model, d1: Fp2Model)
    ensures
        f2_sub::<C>(
            f2_sub::<C>(
                f2_mul::<C>(f2_add::<C>(d0, d1), f2_add::<C>(a0, a1)),
                f2_mul::<C>(a0, d0),
            ),
            f2_mul::<C>(a1, d1),
        ) == f2_add::<C>(f2_mul::<C>(a0, d1), f2_mul::<C>(a1, d0)),
{
    let n = C::spec_nonresidue();
    let sd = raw2_add(d0, d1);
    let sa = raw2_add(a0, a1);
    let aa = raw2_mul(n, a0, d0);
    let bb = raw2_mul(n, a1, d1);
    let ad = raw2_mul(n, a0, d1);
    let bd = raw2_mul(n, a1, d0);
    let m = raw2_mul(n, sd, sa);
    lemma_red2_mul::<C::Fp>(n, sd, red2::<C::Fp>(sa));
    lemma_red2_mul::<C::Fp>(n, sd, sa);
    lemma_red2_mul::<C::Fp>(n, red2::<C::Fp>(sd), sa);
    let t = raw2_sub(m, aa);
    lemma_red2_add_sub::<C::Fp>(m, red2::<C::Fp>(aa));
    lemma_red2_add_sub::<C::Fp>(m, aa);
    lemma_red2_add_sub::<C::Fp>(t, red2::<C::Fp>(bb));
    lemma_red2_add_sub::<C::Fp>(t, bb);
    lemma_red2_add_sub::<C::Fp>(red2::<C::Fp>(t), bb);
    lemma_red2_add_sub::<C::Fp>(ad, red2::<C::Fp>(bd));
    lemma_red2_add_sub::<C::Fp>(ad, bd);
    lemma_red2_add_sub::<C::Fp>(red2::<C::Fp>(ad), bd);
    lemma_red2_add_sub::<C::Fp>(red2::<C::Fp>(ad), red2::<C::Fp>(bd));
    lemma_expand(d0.0, d1.0, a0.0, a1.0);
    lemma_expand(d0.1, d1.1, a0.1, a1.1);
    lemma_expand(d0.0, d1.0, a0.1, a1.1);
    lemma_expand(d0.1, d1.1, a0.0, a1.0);
    lemma_scale(n, d0.1 * a0.1, d0.1 * a1.1, d1.1 * a0.1, d1.1 * a1.1);
    assert(raw2_sub(t, bb) == raw2_add(ad, bd));
}

/// An element `c0 + c1 * u` of the quadratic extension.
pub struct Fp2<C: Fp2Config> {
    pub c0: Fp<C::Fp>,
    pub c1: Fp<C::Fp>,
}

impl<C: Fp2Config> Clone for Fp2<C> {
    fn clone(&self) -> (r: Self)
        ensures
            r == *self,
    {
        Fp2 { c0: self.c0, c1: self.c1 }
    }
}

impl<C: Fp2Config> Copy for Fp2<C> {
}

impl<C: Fp2Config> Fp2<C> {
    pub open spec fn view(&self) -> Fp2Model {
        (self.c0@, self.c1@)
    }

    /// Both coordinates are reduced.
    pub open spec fn wf(&self) -> bool {
        self.c0.wf() && self.c1.wf()
    }

    pub fn new(c0: Fp<C::Fp>, c1: Fp<C::Fp>) -> (r: Self)
        ensures
            r.c0 == c0,
            r.c1 == c1,
    {
        Fp2 { c0, c1 }
    }

    pub fn zero() -> (r: Self)
        ensures
            r.wf(),
            r@ == f2_zero(),
    {
        Fp2 { c0: Fp::zero(), c1: Fp::zero() }
    }

    pub fn one() -> (r: Self)
        ensures
            r.wf(),
            r@ == f2_one(),
    {
        Fp2 { c0: Fp::one(), c1: Fp::zero() }
    }

    pub fn add(&self, other: &Self) -> (r: Self)
        requires
            self.wf(),
            other.wf(),
        ensures
            r.wf(),
            r@ == f2_add::<C>(self@, other@),
    {
        Fp2 { c0: self.c0.add(&other.c0), c1: self.c1.add(&other.c1) }
    }

    pub fn sub(&self, other: &Self) -> (r: Self)
        requires
            self.wf(),
            other.wf(),
        ensures
            r.wf(),
            r@ == f2_sub::<C>(self@, other@),
    {
        Fp2 { c0: self.c0.sub(&other.c0), c1: self.c1.sub(&other.c1) }
    }

    pub fn mul(&self, other: &Self) -> (r: Self)
        requires
            self.wf(),
            other.wf(),
        ensures
            r.wf(),
            r@ == f2_mul::<C>(self@, other@),
    {
        let n = C::nonresidue();
        let t00 = self.c0.mul(&other.c0);
        let t11 = self.c1.mul(&other.c1);
        let t01 = self.c0.mul(&other.c1);
        let t10 = self.c1.mul(&other.c0);
        let c0 = t00.add(&n.mul(&t11));
        let c1 = t01.add(&t10);
        proof {
            let (a0, a1, b0, b1, nn) = (self.c0@, self.c1@, other.c0@, other.c1@, n@);
            lemma_red_mul::<C::Fp>(nn, a1 * b1);
            lemma_red_add::<C::Fp>(a0 * b0, red::<C::Fp>(nn * (a1 * b1)));
            lemma_red_add::<C::Fp>(a0 * b0, nn * (a1 * b1));
            lemma_red_add::<C::Fp>(a0 * b1, red::<C::Fp>(a1 * b0));
            lemma_red_add::<C::Fp>(a0 * b1, a1 * b0);
        }
        Fp2 { c0, c1 }
    }

    /// Both coordinates multiplied by a prime field element.
    pub fn mul_by_fp(&self, e: &Fp<C::Fp>) -> (r: Self)
        requires
            self.wf(),
            e.wf(),
        ensures
            r.wf(),
            r@ == f2_scale::<C>(self@, e@),
    {
        Fp2 { c0: self.c0.mul(e), c1: self.c1.mul(e) }
    }

    /// The Frobenius map raised to `power`.
    pub fn frobenius_map(&self, power: usize) -> (r: Self)
        requires
            self.wf(),
        ensures
            r.wf(),
            r@ == f2_frobenius::<C>(self@, power as nat),
    {
        if power % 2 == 1 {
            let z = Fp::zero();
            let c1 = z.sub(&self.c1);
            proof {
                lemma_red_idem::<C::Fp>(self.c0@);
            }
            Fp2 { c0: self.c0, c1 }
        } else {
            *self
        }
    }
}

} // verus!
