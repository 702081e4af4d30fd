//! Exact scalars.
//!
//! The drawing is specified with two kinds of scalar. `Frac` is a plain
//! rational number; it stands for angles (in degrees) and for coordinates
//! that need no irrational factor. `Len` is a rational combination of the
//! basis `{1, 1/pi, 1/sqrt(3)}`; every radius and offset of the drawing is
//! such a combination, so lengths are carried exactly and a host evaluates
//! them numerically only at the very end.

use vstd::prelude::*;

verus! {

/// An exact rational scalar, `num / den`. A well-formed value has a
/// positive denominator; the fraction is not kept reduced.
#[derive(Clone, Copy, PartialEq, Eq, Debug)]
pub struct Frac {
    pub num: i64,
    pub den: i64,
}

impl Frac {
    /// Well-formedness: the denominator is positive.
    pub open spec fn wf(self) -> bool {
        self.den > 0
    }

    /// `self` and `other` denote the same rational number.
    pub open spec fn same(self, other: Frac) -> bool {
        self.num * other.den == other.num * self.den
    }

    /// Read as an angle in degrees, `self` and `other` denote the same
    /// direction: they differ by a whole number of full turns.
    pub open spec fn congruent(self, other: Frac) -> bool {
        (self.num * other.den - other.num * self.den) % (360 * self.den * other.den) == 0
    }

    /// The value shifted by the whole number `k`, keeping the denominator.
    pub open spec fn plus_int(self, k: int) -> Frac {
        Frac { num: (self.num + k * self.den) as i64, den: self.den }
    }

    /// The whole number `n`, as a fraction.
    pub fn whole(n: i64) -> (r: Frac)
        ensures
            r == (Frac { num: n, den: 1 }),
            r.wf(),
    {
        Frac { num: n, den: 1 }
    }

    /// The fraction `num / den`.
    pub fn new(num: i64, den: i64) -> (r: Frac)
        requires
            den > 0,
        ensures
            r == (Frac { num, den }),
            r.wf(),
    {
        Frac { num, den }
    }

    /// Whether the fraction is small enough for the whole-degree offsets of
    /// the drawing (at most a full turn) to be added without overflow.
    pub open spec fn small(self) -> bool {
        self.den <= 0x1000_0000 && -0x1000_0000_0000 <= self.num <= 0x1000_0000_0000
    }

    /// Add the whole number `k`, keeping the denominator.
    pub fn add_int(self, k: i64) -> (r: Frac)
        requires
            self.wf(),
            self.small(),
            -360 <= k <= 360,
        ensures
            r == self.plus_int(k as int),
            r.wf(),
    {
        proof {
            assert(-0x2000_0000_0000 <= k * self.den <= 0x2000_0000_0000) by (nonlinear_arith)
                requires
                    -360 <= k <= 360,
                    0 < self.den <= 0x1000_0000,
            ;
        }
        Frac { num: self.num + k * self.den, den: self.den }
    }
}

/// Shifting a fraction by zero is the identity.
pub proof fn lemma_plus_int_zero(a: Frac)
    ensures
        a.plus_int(0) == a,
{
    assert(0 * a.den == 0);
    assert((a.num + 0) as i64 == a.num);
}

/// Adding one full turn (360 degrees) to an angle leaves it congruent.
pub proof fn lemma_full_turn_congruent(a: Frac)
    requires
        a.wf(),
        a.small(),
    ensures
        a.plus_int(360).congruent(a),
{
    assert(0 <= 360 * a.den <= 0x2000_0000_0000) by (nonlinear_arith)
        requires
            0 < a.den <= 0x1000_0000,
    ;
    let b = a.plus_int(360);
    let m = 360 * a.den * a.den;
    assert(b.num * a.den - a.num * b.den == m) by (nonlinear_arith)
        requires
            b.num == a.num + 360 * a.den,
            b.den == a.den,
            m == 360 * a.den * a.den,
    ;
    assert(m > 0) by (nonlinear_arith)
        requires
            a.den > 0,
            m == 360 * a.den * a.den,
    ;
    vstd::arithmetic::div_mod::lemma_mod_self_0(m);
}

/// An exact length: `p + q / pi + t / sqrt(3)`, with rational coefficients.
///
/// Every radius and offset of the drawing falls in this family: the bolt
/// radius of the chain ring carries a `1/pi` factor, and the side of the
/// inscribed triangle carries a `1/sqrt(3)` factor; everything else is a
/// plain rational multiple of the integer base radius.
#[derive(Clone, Copy, PartialEq, Eq, Debug)]
pub struct Len {
    /// Rational part.
    pub p: Frac,
    /// Coefficient of `1 / pi`.
    pub q: Frac,
    /// Coefficient of `1 / sqrt(3)`.
    pub t: Frac,
}

impl Len {
    pub open spec fn wf(self) -> bool {
        self.p.wf() && self.q.wf() && self.t.wf()
    }

    /// `self` and `other` denote the same length: the coefficients agree
    /// componentwise (the three basis elements are rationally independent).
    pub open spec fn same(self, other: Len) -> bool {
        self.p.same(other.p) && self.q.same(other.q) && self.t.same(other.t)
    }

    /// A purely rational length.
    pub fn rational(p: Frac) -> (r: Len)
        requires
            p.wf(),
        ensures
            r == (Len { p, q: Frac { num: 0, den: 1 }, t: Frac { num: 0, den: 1 } }),
            r.wf(),
    {
        Len { p, q: Frac { num: 0, den: 1 }, t: Frac { num: 0, den: 1 } }
    }

    /// A length that is a pure `1 / pi` multiple.
    pub fn over_pi(q: Frac) -> (r: Len)
        requires
            q.wf(),
        ensures
            r == (Len { p: Frac { num: 0, den: 1 }, q, t: Frac { num: 0, den: 1 } }),
            r.wf(),
    {
        Len { p: Frac { num: 0, den: 1 }, q, t: Frac { num: 0, den: 1 } }
    }

    /// A length that is a pure `1 / sqrt(3)` multiple.
    pub fn over_sqrt3(t: Frac) -> (r: Len)
        requires
            t.wf(),
        ensures
            r == (Len { p: Frac { num: 0, den: 1 }, q: Frac { num: 0, den: 1 }, t }),
            r.wf(),
    {
        Len { p: Frac { num: 0, den: 1 }, q: Frac { num: 0, den: 1 }, t }
    }
}

} // verus!
