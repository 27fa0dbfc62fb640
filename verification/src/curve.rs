//! Points of the Pallas curve `y^2 = x^3 + 5` in affine coordinates, with
//! the identity written as the pair `(0, 0)`, which is not on the curve.

use crate::field::{base_modulus, scalar_modulus, Fp, Fq};
use ff::PrimeFieldBits;
use group::prime::PrimeCurveAffine;
use group::Curve;
use pasta_curves::arithmetic::{CurveAffine, CurveExt};
use pasta_curves::pallas;
use vstd::prelude::*;

verus! {

/// The curve equation on two integers below `p`.
pub open spec fn curve_equation(x: nat, y: nat) -> bool {
    (y * y) % base_modulus() == (x * x * x + 5) % base_modulus()
}

/// A pair of coordinates that stands for a group element: a point of the
/// curve, or the identity.
pub open spec fn is_point(x: nat, y: nat) -> bool {
    &&& x < base_modulus()
    &&& y < base_modulus()
    &&& (x == 0 && y == 0) || curve_equation(x, y)
}

/// The coordinates of `a + b` in the Pallas group, as `pasta_curves` adds
/// two affine points.
pub uninterp spec fn pallas_add(ax: nat, ay: nat, bx: nat, by: nat) -> (nat, nat);

/// The coordinates of `[k] b` in the Pallas group, as `pasta_curves`
/// multiplies an affine point by a scalar.
pub uninterp spec fn pallas_mul(bx: nat, by: nat, k: nat) -> (nat, nat);

/// The coordinates of the inverse of a group element.
pub open spec fn negation(a: (nat, nat)) -> (nat, nat) {
    (a.0, ((base_modulus() - a.1) % (base_modulus() as int)) as nat)
}

/// `r` is the sum of `a` and `b` wherever both are multiples of one point:
/// `[m] g + [n] g = [(m + n) mod q] g`, which is the identity when `m + n`
/// is a multiple of `q`.
pub open spec fn sums_multiples(a: (nat, nat), b: (nat, nat), r: (nat, nat)) -> bool {
    forall|gx: nat, gy: nat, m: nat, n: nat|
        #![trigger pallas_mul(gx, gy, m), pallas_mul(gx, gy, n)]
        is_point(gx, gy) && m < scalar_modulus() && n < scalar_modulus() && a == pallas_mul(
            gx,
            gy,
            m,
        ) && b == pallas_mul(gx, gy, n) ==> r == pallas_mul(
            gx,
            gy,
            (m + n) % scalar_modulus(),
        ) && ((m + n) % scalar_modulus() == 0 ==> r == (0nat, 0nat))
}

/// `s` is the group sum of `a` and `b`, with what is known of such a sum.
pub open spec fn is_sum(a: AffinePoint, b: AffinePoint, s: AffinePoint) -> bool {
    &&& s.wf()
    &&& s.coords() == pallas_add(a.coords().0, a.coords().1, b.coords().0, b.coords().1)
    &&& sums_multiples(a.coords(), b.coords(), s.coords())
    &&& a.is_identity_spec() ==> s == b
    &&& b.is_identity_spec() ==> s == a
    &&& s.is_identity_spec() == (b.coords() == negation(a.coords()))
}

/// `r` is the multiple `[k] b`, with what is known of such a multiple.
pub open spec fn is_multiple(b: AffinePoint, k: nat, r: AffinePoint) -> bool {
    &&& r.wf()
    &&& r.coords() == pallas_mul(b.coords().0, b.coords().1, k)
    &&& k == 0 ==> r.is_identity_spec()
    &&& !b.is_identity_spec() ==> (r.is_identity_spec() ==> k == 0)
    &&& !b.is_identity_spec() ==> only_multiple(b.coords().0, b.coords().1, k, r.coords())
}

/// `r` is the inverse `-a`, with what is known of such an inverse.
pub open spec fn is_negation(a: AffinePoint, r: AffinePoint) -> bool {
    &&& r.wf()
    &&& r.coords() == negation(a.coords())
    &&& negates_multiples(a.coords(), r.coords())
    &&& r.is_identity_spec() == a.is_identity_spec()
}

/// `r` is the inverse of `a` wherever `a` is a multiple of a point:
/// `-[n] g = [(q - n) mod q] g`.
pub open spec fn negates_multiples(a: (nat, nat), r: (nat, nat)) -> bool {
    forall|gx: nat, gy: nat, n: nat|
        #![trigger pallas_mul(gx, gy, n)]
        is_point(gx, gy) && n < scalar_modulus() && a == pallas_mul(gx, gy, n) ==> r
            == pallas_mul(gx, gy, ((scalar_modulus() - n) % (scalar_modulus() as int)) as nat)
}

/// No other scalar below `q` takes the point `(bx, by)` to `r`.
pub open spec fn only_multiple(bx: nat, by: nat, k: nat, r: (nat, nat)) -> bool {
    forall|n: nat|
        #![trigger pallas_mul(bx, by, n)]
        n < scalar_modulus() && pallas_mul(bx, by, n) == r ==> n == k
}

/// The point with the given coordinates.
pub open spec fn point_at(c: (nat, nat)) -> AffinePoint {
    choose|p: AffinePoint| p.coords() == c
}

/// A group element in affine coordinates.
#[derive(Clone, Copy, Debug, PartialEq, Eq, Structural)]
pub struct AffinePoint {
    x: Fp,
    y: Fp,
}

impl AffinePoint {
    /// The two coordinates as integers.
    pub closed spec fn coords(self) -> (nat, nat) {
        (self.x.value(), self.y.value())
    }

    /// Whether this is the identity, the pair `(0, 0)`.
    pub open spec fn is_identity_spec(self) -> bool {
        self.coords() == (0nat, 0nat)
    }

    /// A value of this type is the identity or lies on the curve.
    #[verifier::type_invariant]
    pub closed spec fn wf(self) -> bool {
        self.x.wf() && self.y.wf() && is_point(self.x.value(), self.y.value())
    }

    /// The point with coordinates `x` and `y`.
    pub closed spec fn spec_from_xy(x: Fp, y: Fp) -> AffinePoint {
        AffinePoint { x, y }
    }

    /// The x-coordinate.
    pub closed spec fn spec_x(self) -> Fp {
        self.x
    }

    /// The y-coordinate.
    pub closed spec fn spec_y(self) -> Fp {
        self.y
    }

    /// A point is its two coordinates.
    pub broadcast proof fn lemma_from_xy(x: Fp, y: Fp)
        ensures
            (#[trigger] Self::spec_from_xy(x, y)).spec_x() == x,
            Self::spec_from_xy(x, y).spec_y() == y,
            Self::spec_from_xy(x, y).coords() == (x.value(), y.value()),
            Self::spec_from_xy(x, y).wf() == (x.wf() && y.wf() && is_point(x.value(), y.value())),
    {
    }

    /// A point is made of its two coordinates.
    pub broadcast proof fn lemma_xy(self)
        ensures
            #[trigger] Self::spec_from_xy(self.spec_x(), self.spec_y()) == self,
            self.coords() == (#[trigger] self.spec_x().value(), self.spec_y().value()),
    {
    }

    /// The point with coordinates that are known to be `(0, 0)` or on the
    /// curve.
    pub fn from_xy_unchecked(x: Fp, y: Fp) -> (r: AffinePoint)
        requires
            is_point(x.value(), y.value()),
        ensures
            r.wf(),
            r == Self::spec_from_xy(x, y),
    {
        x.canonical();
        y.canonical();
        AffinePoint { x, y }
    }

    /// Points with the same coordinates are the same point.
    pub proof fn lemma_coords_injective(a: AffinePoint, b: AffinePoint)
        requires
            a.coords() == b.coords(),
        ensures
            a == b,
    {
        Fp::lemma_value_injective(a.x, b.x);
        Fp::lemma_value_injective(a.y, b.y);
    }

    /// A point is the point at its coordinates.
    pub proof fn lemma_point_at(self)
        ensures
            point_at(self.coords()) == self,
    {
        Self::lemma_coords_injective(point_at(self.coords()), self);
    }

    /// What well-formedness says of the coordinates.
    pub proof fn lemma_wf(self)
        requires
            self.wf(),
        ensures
            is_point(self.coords().0, self.coords().1),
    {
    }

    /// Every point handled by executable code is the identity or on the curve.
    pub fn valid(&self)
        ensures
            self.wf(),
            is_point(self.coords().0, self.coords().1),
    {
        proof {
            use_type_invariant(self);
        }
    }

    /// The identity of the group.
    pub fn identity() -> (r: AffinePoint)
        ensures
            r.wf(),
            r.is_identity_spec(),
    {
        AffinePoint { x: Fp::zero(), y: Fp::zero() }
    }

    /// The point with the given coordinates; `None` unless they are `(0, 0)`
    /// or satisfy the curve equation.
    pub fn from_xy(x: Fp, y: Fp) -> (r: Option<AffinePoint>)
        ensures
            r.is_some() == is_point(x.value(), y.value()),
            r matches Some(p) ==> p.wf() && p.coords() == (x.value(), y.value()),
    {
        x.canonical();
        y.canonical();
        if x.is_zero() && y.is_zero() {
            return Some(AffinePoint { x, y });
        }
        let lhs = y.square();
        let x2 = x.square();
        let x3 = x2.mul(&x);
        let rhs = x3.add(&Fp::from_u64(5));
        proof {
            let p = base_modulus() as int;
            let xv = x.value() as int;
            vstd::arithmetic::div_mod::lemma_mul_mod_noop_left(xv * xv, xv, p);
            vstd::arithmetic::div_mod::lemma_add_mod_noop((xv * xv * xv), 5, p);
            vstd::arithmetic::div_mod::lemma_small_mod(5nat, base_modulus());
            vstd::arithmetic::div_mod::lemma_mod_twice(xv * xv * xv, p);
            if lhs == rhs {
            } else {
                if lhs.value() == rhs.value() {
                    Fp::lemma_value_injective(lhs, rhs);
                }
            }
        }
        if lhs == rhs {
            Some(AffinePoint { x, y })
        } else {
            None
        }
    }

    pub fn x(&self) -> (r: Fp)
        ensures
            r.wf(),
            r == self.spec_x(),
            r.value() == self.coords().0,
    {
        proof {
            use_type_invariant(self);
        }
        self.x
    }

    pub fn y(&self) -> (r: Fp)
        ensures
            r.wf(),
            r == self.spec_y(),
            r.value() == self.coords().1,
    {
        proof {
            use_type_invariant(self);
        }
        self.y
    }

    pub fn is_identity(&self) -> (r: bool)
        ensures
            r == self.is_identity_spec(),
    {
        self.x.is_zero() && self.y.is_zero()
    }

    /// The inverse `-self`: the same x-coordinate, the negated y-coordinate.
    pub fn neg(&self) -> (r: AffinePoint)
        ensures
            is_negation(*self, r),
    {
        proof {
            use_type_invariant(self);
        }
        let r = point_neg(self);
        proof {
            use_type_invariant(&r);
            let p = base_modulus() as int;
            let y = self.y.value() as int;
            if y == 0 {
                vstd::arithmetic::div_mod::lemma_fundamental_div_mod_converse(p - y, p, 1, 0);
            } else {
                vstd::arithmetic::div_mod::lemma_fundamental_div_mod_converse(p - y, p, 0, p - y);
            }
        }
        r
    }

    /// The group sum `self + rhs`.
    pub fn add(&self, rhs: &AffinePoint) -> (r: AffinePoint)
        ensures
            is_sum(*self, *rhs, r),
    {
        let r = point_add(self, rhs);
        proof {
            if self.is_identity_spec() {
                Self::lemma_coords_injective(r, *rhs);
            }
            if rhs.is_identity_spec() {
                Self::lemma_coords_injective(r, *self);
            }
        }
        r
    }

    /// The multiple `[k] self`.
    pub fn mul(&self, k: &Fq) -> (r: AffinePoint)
        ensures
            is_multiple(*self, k.value(), r),
    {
        point_mul(self, k)
    }
}

/// `-` of `pallas::Affine`: the x-coordinate stays, the y-coordinate is
/// negated in the base field. The result is the inverse in the group: on a
/// multiple `[n] g` it gives `[q - n] g`. The point goes in by `from_xy` and
/// comes back by `to_curve` and `jacobian_coordinates`, which hand out the
/// affine coordinates, `(0, 0)` for the identity.
#[verifier::external_body]
fn point_neg(a: &AffinePoint) -> (r: AffinePoint)
    ensures
        r.wf(),
        r.coords() == negation(a.coords()),
        negates_multiples(a.coords(), r.coords()),
{
    let x = pallas::Base::from_raw(a.x.to_raw());
    let y = pallas::Base::from_raw(a.y.to_raw());
    let p = -pallas::Affine::from_xy(x, y).unwrap();
    let (x, y, _) = p.to_curve().jacobian_coordinates();
    AffinePoint {
        x: Fp::from_raw(x.to_le_bits().into_inner()).unwrap(),
        y: Fp::from_raw(y.to_le_bits().into_inner()).unwrap(),
    }
}

/// `+` of two `pallas::Affine`, brought back to affine coordinates by
/// `to_affine`: the sum in the group of the curve. The identity is neutral,
/// the sum is the identity exactly when the second point is the inverse of
/// the first, and the sum of two multiples of one point is the multiple by
/// the sum of the scalars modulo the group order `q`.
#[verifier::external_body]
fn point_add(a: &AffinePoint, b: &AffinePoint) -> (r: AffinePoint)
    ensures
        r.wf(),
        r.coords() == pallas_add(a.coords().0, a.coords().1, b.coords().0, b.coords().1),
        sums_multiples(a.coords(), b.coords(), r.coords()),
        a.is_identity_spec() ==> r.coords() == b.coords(),
        b.is_identity_spec() ==> r.coords() == a.coords(),
        r.is_identity_spec() == (b.coords() == negation(a.coords())),
{
    let p = pallas::Affine::from_xy(
        pallas::Base::from_raw(a.x.to_raw()),
        pallas::Base::from_raw(a.y.to_raw()),
    ).unwrap();
    let q = pallas::Affine::from_xy(
        pallas::Base::from_raw(b.x.to_raw()),
        pallas::Base::from_raw(b.y.to_raw()),
    ).unwrap();
    let (x, y, _) = (p + q).to_affine().to_curve().jacobian_coordinates();
    AffinePoint {
        x: Fp::from_raw(x.to_le_bits().into_inner()).unwrap(),
        y: Fp::from_raw(y.to_le_bits().into_inner()).unwrap(),
    }
}

/// `*` of a `pallas::Affine` and a `pallas::Scalar`, brought back to affine
/// coordinates by `to_affine`. The group has prime order `q`: the multiple
/// by zero is the identity, no other multiple of a point other than the
/// identity is, and distinct scalars below `q` take such a point to distinct
/// points.
#[verifier::external_body]
fn point_mul(base: &AffinePoint, k: &Fq) -> (r: AffinePoint)
    ensures
        r.wf(),
        r.coords() == pallas_mul(base.coords().0, base.coords().1, k.value()),
        k.value() == 0 ==> r.is_identity_spec(),
        !base.is_identity_spec() && r.is_identity_spec() ==> k.value() == 0,
        !base.is_identity_spec() ==> only_multiple(
            base.coords().0,
            base.coords().1,
            k.value(),
            r.coords(),
        ),
{
    let p = pallas::Affine::from_xy(
        pallas::Base::from_raw(base.x.to_raw()),
        pallas::Base::from_raw(base.y.to_raw()),
    ).unwrap();
    let (x, y, _) = (p * pallas::Scalar::from_raw(k.to_raw())).to_affine().to_curve()
        .jacobian_coordinates();
    AffinePoint {
        x: Fp::from_raw(x.to_le_bits().into_inner()).unwrap(),
        y: Fp::from_raw(y.to_le_bits().into_inner()).unwrap(),
    }
}

} // verus!
