//! Gadgets for elliptic curve operations.
//!
//! A chip offers the instructions of `EccInstructions`; the types of this
//! file pair a chip with a value that the chip handed out, and forward to
//! the chip.

use crate::circuit::Error;
use crate::curve::{is_multiple, is_negation, AffinePoint};
use crate::field::{Fp, Fq};
use std::fmt::Debug;
use vstd::prelude::*;

pub mod chip;

verus! {

/// Window size for fixed-base scalar multiplication.
pub const FIXED_BASE_WINDOW_SIZE: usize = 3;

/// `2^FIXED_BASE_WINDOW_SIZE`, the number of values a window can take.
pub const H: usize = 8;

/// The sum of two witnessed points is known when both are, and is then
/// their group sum.
pub open spec fn sum_known(
    p: Option<AffinePoint>,
    q: Option<AffinePoint>,
    r: Option<AffinePoint>,
) -> bool {
    match (p, q) {
        (Some(a), Some(b)) => r matches Some(s) && crate::curve::is_sum(a, b, s),
        _ => r.is_none(),
    }
}

/// The product of a witnessed scalar and a point is known when the scalar
/// and the point are, and is then the multiple of the point by the scalar.
pub open spec fn product_known(
    scalar: Option<nat>,
    base: Option<AffinePoint>,
    r: Option<AffinePoint>,
) -> bool {
    match (scalar, base) {
        (Some(k), Some(b)) => r matches Some(p) && is_multiple(b, k, p),
        _ => r.is_none(),
    }
}

/// The product of a scalar and a fixed base is known when the scalar is, and
/// is then the multiple of the generator by the scalar: the identity for the
/// scalar zero.
pub open spec fn fixed_product(g: AffinePoint, scalar: Option<nat>, r: Option<AffinePoint>) -> bool {
    match scalar {
        Some(k) => r matches Some(p) && p.wf() && p.coords() == crate::curve::pallas_mul(
            g.coords().0,
            g.coords().1,
            k,
        ) && (k == 0 ==> p.is_identity_spec()),
        None => r.is_none(),
    }
}

/// The product of a signed short scalar and a fixed base is known when
/// magnitude and sign are: it is the multiple of the generator by the low 66
/// bits of the magnitude, negated when the sign is `-1`.
pub open spec fn short_product(
    g: AffinePoint,
    magnitude: Option<nat>,
    sign: Option<nat>,
    r: Option<AffinePoint>,
) -> bool {
    match (magnitude, sign) {
        (Some(m), Some(s)) => {
            let k = (m % crate::utilities::pow8(22)) % crate::field::scalar_modulus();
            let unsigned = crate::curve::point_at(
                crate::curve::pallas_mul(g.coords().0, g.coords().1, k),
            );
            &&& r.is_some()
            &&& fixed_product(g, Some(k), Some(unsigned))
            &&& if s + 1 == crate::field::base_modulus() {
                is_negation(unsigned, r.unwrap())
            } else {
                r.unwrap() == unsigned
            }
        },
        _ => r.is_none(),
    }
}

/// The three fixed-base multiplications agree on a scalar that all of them
/// take: a full-width scalar, the magnitude of a short scalar with sign `1`,
/// and a base field element that stand for the same integer below `2^64`
/// have the same product.
pub proof fn lemma_variants_agree(
    g: AffinePoint,
    m: nat,
    full: Option<AffinePoint>,
    short: Option<AffinePoint>,
    base_field: Option<AffinePoint>,
)
    requires
        m < 0x1_0000_0000_0000_0000,
        fixed_product(g, Some(m), full),
        short_product(g, Some(m), Some(1nat), short),
        fixed_product(g, Some(m), base_field),
    ensures
        full.is_some(),
        full == short,
        full == base_field,
        full.unwrap().coords() == crate::curve::pallas_mul(g.coords().0, g.coords().1, m),
{
    crate::utilities::lemma_pow8_values();
    vstd::arithmetic::div_mod::lemma_small_mod(m, crate::utilities::pow8(22));
    vstd::arithmetic::div_mod::lemma_small_mod(m, crate::field::scalar_modulus());
    let unsigned = crate::curve::point_at(crate::curve::pallas_mul(g.coords().0, g.coords().1, m));
    AffinePoint::lemma_coords_injective(full.unwrap(), unsigned);
    AffinePoint::lemma_coords_injective(base_field.unwrap(), unsigned);
}

/// The product of a signed short scalar with sign `-1` is the inverse of the
/// product with sign `1`.
pub proof fn lemma_short_sign(
    g: AffinePoint,
    m: nat,
    positive: Option<AffinePoint>,
    negative: Option<AffinePoint>,
)
    requires
        short_product(g, Some(m), Some(1nat), positive),
        short_product(g, Some(m), Some((crate::field::base_modulus() - 1) as nat), negative),
    ensures
        positive.is_some(),
        negative.is_some(),
        is_negation(positive.unwrap(), negative.unwrap()),
{
}

/// The x-coordinate of a witnessed point, if the point is known.
pub open spec fn x_of(point: Option<AffinePoint>) -> Option<Fp> {
    match point {
        Some(p) => Some(p.spec_x()),
        None => None,
    }
}

/// The integer of a witnessed field element, if it is known.
pub open spec fn value_of(elem: Option<Fp>) -> Option<nat> {
    match elem {
        Some(e) => Some(e.value()),
        None => None,
    }
}

/// The integer of a scalar, if it is known.
pub open spec fn scalar_of(scalar: Option<Fq>) -> Option<nat> {
    match scalar {
        Some(s) => Some(s.value()),
        None => None,
    }
}

/// The set of circuit instructions required to use the ECC gadgets.
///
/// An instruction lays out cells and constraints through a layouter and
/// hands out a variable. It may fail for want of room in the circuit, and a
/// multiplication by a fixed base for want of usable data of the base; what
/// is promised of it is promised of the variable it hands out.
pub trait EccInstructions: Clone + Debug + Eq {
    /// What the instructions lay their cells and constraints out in.
    type Layouter;

    /// Variable representing a field element witnessed in the circuit.
    type Var: Clone + Debug;

    /// Variable representing an element of the elliptic curve's base field,
    /// that is used as a scalar in variable-base scalar mul.
    type ScalarVar: Clone + Debug;

    /// Variable representing a full-width element of the elliptic curve's
    /// scalar field, to be used for fixed-base scalar mul.
    type ScalarFixed: Clone + Debug;

    /// Variable representing a signed short element of the elliptic curve's
    /// scalar field, to be used for fixed-base scalar mul.
    ///
    /// A `ScalarFixedShort` must be in the range `[-(2^64 - 1), 2^64 - 1]`.
    type ScalarFixedShort: Clone + Debug;

    /// Variable representing an elliptic curve point.
    type Point: Clone + Debug;

    /// Variable representing a non-identity elliptic curve point.
    type NonIdentityPoint: Clone + Debug;

    /// Variable representing the affine short Weierstrass x-coordinate of an
    /// elliptic curve point.
    type X: Clone + Debug;

    /// Enumeration of the set of fixed bases to be used in scalar mul.
    type FixedPoints: FixedPoints;

    /// Whether a layouter is in a state in which the instructions can lay
    /// cells out in it.
    spec fn layouter_wf(layouter: &Self::Layouter) -> bool;

    /// Whether `after` is `before` with the constraints added that tie the
    /// point `a` to the point `b`.
    spec fn tied(
        before: &Self::Layouter,
        after: &Self::Layouter,
        a: &Self::Point,
        b: &Self::Point,
    ) -> bool;

    /// A clone of a chip is the same chip: a point made with a chip and a
    /// point made with a clone of it are points of one chip.
    proof fn lemma_clone(a: Self, b: Self)
        requires
            cloned(a, b),
        ensures
            a == b,
    ;

    /// The scalar that the record of a full-width scalar holds, if it is
    /// known.
    spec fn scalar_fixed_value(scalar: &Self::ScalarFixed) -> Option<Fq>;

    /// Whether the constraints that tie the point `a` to the point `b` hold
    /// of what the two variables hold: whether a circuit in which the two
    /// are tied can be satisfied.
    spec fn ties_hold(a: &Self::Point, b: &Self::Point) -> bool;

    /// Whether a variable is one that the instructions hand out: one whose
    /// cells hold a point, or nothing.
    spec fn point_valid(point: &Self::Point) -> bool;

    /// The constraints that tie two points hold exactly when the two stand
    /// for the same point, wherever they were witnessed: equal points are
    /// accepted, different points are not.
    proof fn lemma_ties_hold(a: Self::Point, b: Self::Point)
        requires
            Self::point_valid(&a),
            Self::point_valid(&b),
        ensures
            Self::ties_hold(&a, &b) <==> Self::point_value(&a) == Self::point_value(&b),
    ;

    /// The point that a variable stands for, if it is known.
    spec fn point_value(point: &Self::Point) -> Option<AffinePoint>;

    /// The point that a variable stands for, if it is known.
    spec fn non_identity_value(point: &Self::NonIdentityPoint) -> Option<AffinePoint>;

    /// The x-coordinate that a variable stands for, if it is known.
    spec fn x_value(x: &Self::X) -> Option<Fp>;

    /// The field element that a variable stands for, if it is known.
    spec fn var_value(var: &Self::Var) -> Option<Fp>;

    /// The same variable, no longer known to stand for a point other than
    /// the identity.
    fn to_point(point: &Self::NonIdentityPoint) -> (r: Self::Point)
        ensures
            Self::point_valid(&r),
            Self::point_value(&r) == Self::non_identity_value(point),
    ;

    /// Constrains point `a` to be equal in value to point `b`.
    fn constrain_equal(
        &self,
        layouter: &mut Self::Layouter,
        a: &Self::Point,
        b: &Self::Point,
    ) -> (r: Result<(), Error>)
        requires
            Self::layouter_wf(old(layouter)),
        ensures
            Self::layouter_wf(final(layouter)),
            r.is_ok() ==> Self::tied(old(layouter), final(layouter), a, b),
            r matches Err(e) ==> e == Error::Synthesis,
    ;

    /// Witnesses the given point as a private input to the circuit.
    /// This allows the point to be the identity, mapped to (0, 0) in
    /// affine coordinates.
    fn witness_point(&self, layouter: &mut Self::Layouter, value: Option<AffinePoint>) -> (r:
        Result<Self::Point, Error>)
        requires
            Self::layouter_wf(old(layouter)),
        ensures
            Self::layouter_wf(final(layouter)),
            r matches Err(e) ==> e == Error::Synthesis,
            r matches Ok(p) ==> Self::point_valid(&p) && Self::point_value(&p) == value,
    ;

    /// Witnesses the given point as a private input to the circuit.
    /// This returns an error if the point is the identity.
    fn witness_point_non_id(
        &self,
        layouter: &mut Self::Layouter,
        value: Option<AffinePoint>,
    ) -> (r: Result<Self::NonIdentityPoint, Error>)
        requires
            Self::layouter_wf(old(layouter)),
        ensures
            Self::layouter_wf(final(layouter)),
            (value matches Some(v) && v.is_identity_spec()) ==> (r matches Err(e) && e
                == Error::IdentityWitness),
            !(value matches Some(v) && v.is_identity_spec()) ==> (r matches Err(e) ==> e
                == Error::Synthesis),
            r matches Ok(p) ==> Self::non_identity_value(&p) == value,
    ;

    /// Extracts the x-coordinate of a point.
    fn extract_p(point: &Self::Point) -> (r: Self::X)
        ensures
            Self::x_value(&r) == x_of(Self::point_value(point)),
    ;

    /// Performs incomplete point addition, returning `a + b`.
    ///
    /// This returns an error in exceptional cases.
    fn add_incomplete(
        &self,
        layouter: &mut Self::Layouter,
        a: &Self::NonIdentityPoint,
        b: &Self::NonIdentityPoint,
    ) -> (r: Result<Self::NonIdentityPoint, Error>)
        requires
            Self::layouter_wf(old(layouter)),
        ensures
            Self::layouter_wf(final(layouter)),
            r matches Err(e) ==> e == Error::Synthesis,
            r matches Ok(s) ==> sum_known(
                Self::non_identity_value(a),
                Self::non_identity_value(b),
                Self::non_identity_value(&s),
            ) && !(Self::non_identity_value(&s) matches Some(v) && v.is_identity_spec()),
    ;

    /// Performs complete point addition, returning `a + b`.
    fn add(&self, layouter: &mut Self::Layouter, a: &Self::Point, b: &Self::Point) -> (r: Result<
        Self::Point,
        Error,
    >)
        requires
            Self::layouter_wf(old(layouter)),
        ensures
            Self::layouter_wf(final(layouter)),
            r matches Err(e) ==> e == Error::Synthesis,
            r matches Ok(s) ==> Self::point_valid(&s) && sum_known(
                Self::point_value(a),
                Self::point_value(b),
                Self::point_value(&s),
            ),
    ;

    /// Performs variable-base scalar multiplication, returning
    /// `[scalar] base`.
    fn mul(
        &self,
        layouter: &mut Self::Layouter,
        scalar: &Self::Var,
        base: &Self::NonIdentityPoint,
    ) -> (r: Result<(Self::Point, Self::ScalarVar), Error>)
        requires
            Self::layouter_wf(old(layouter)),
        ensures
            Self::layouter_wf(final(layouter)),
            r matches Err(e) ==> e == Error::Synthesis,
            r matches Ok((p, _)) ==> Self::point_valid(&p) && product_known(
                value_of(Self::var_value(scalar)),
                Self::non_identity_value(base),
                Self::point_value(&p),
            ),
    ;

    /// Performs fixed-base scalar multiplication using a full-width scalar,
    /// returning `[scalar] base`.
    fn mul_fixed(
        &self,
        layouter: &mut Self::Layouter,
        scalar: Option<Fq>,
        base: &Self::FixedPoints,
    ) -> (r: Result<(Self::Point, Self::ScalarFixed), Error>)
        requires
            Self::layouter_wf(old(layouter)),
        ensures
            Self::layouter_wf(final(layouter)),
            r matches Err(e) ==> e == Error::Synthesis || e == Error::FixedBase,
            r matches Ok((p, s)) ==> Self::point_valid(&p) && fixed_product(
                base.spec_generator(),
                scalar_of(scalar),
                Self::point_value(&p),
            ) && Self::scalar_fixed_value(&s) == scalar,
    ;

    /// Performs fixed-base scalar multiplication using a short signed
    /// scalar, returning `[magnitude * sign] base`.
    fn mul_fixed_short(
        &self,
        layouter: &mut Self::Layouter,
        magnitude_sign: (Self::Var, Self::Var),
        base: &Self::FixedPoints,
    ) -> (r: Result<(Self::Point, Self::ScalarFixedShort), Error>)
        requires
            Self::layouter_wf(old(layouter)),
        ensures
            Self::layouter_wf(final(layouter)),
            r matches Err(e) ==> e == Error::Synthesis || e == Error::FixedBase,
            r matches Ok((p, _)) ==> Self::point_valid(&p) && short_product(
                base.spec_generator(),
                value_of(Self::var_value(&magnitude_sign.0)),
                value_of(Self::var_value(&magnitude_sign.1)),
                Self::point_value(&p),
            ),
    ;

    /// Performs fixed-base scalar multiplication using a base field element
    /// as the scalar. This base field element must be output from another
    /// instruction.
    fn mul_fixed_base_field_elem(
        &self,
        layouter: &mut Self::Layouter,
        base_field_elem: Self::Var,
        base: &Self::FixedPoints,
    ) -> (r: Result<Self::Point, Error>)
        requires
            Self::layouter_wf(old(layouter)),
        ensures
            Self::layouter_wf(final(layouter)),
            r matches Err(e) ==> e == Error::Synthesis || e == Error::FixedBase,
            r matches Ok(p) ==> Self::point_valid(&p) && fixed_product(
                base.spec_generator(),
                value_of(Self::var_value(&base_field_elem)),
                Self::point_value(&p),
            ),
    ;
}

/// The public data of a fixed base: its generator and, for each window,
/// what is needed to recover the window's point inside the circuit.
///
/// For window `w` and window value `k`, `u()[w][k]` is the little-endian
/// encoding of a square root of `y + z()[w]`, where `y` is the y-coordinate
/// of the window's point, and `lagrange_coeffs()[w]` holds the coefficients,
/// lowest degree first, of the polynomial that takes `k` to the point's
/// x-coordinate.
pub trait FixedPoints: Debug + Eq + Clone {
    /// The generator of the fixed base, which is the same at every call.
    spec fn spec_generator(&self) -> AffinePoint;

    /// The recovery values, which are the same at every call.
    spec fn spec_u(&self) -> Vec<[[u8; 32]; H]>;

    /// The offsets, which are the same at every call.
    spec fn spec_z(&self) -> Vec<u64>;

    /// The interpolation coefficients, which are the same at every call.
    spec fn spec_lagrange_coeffs(&self) -> Vec<[Fp; H]>;

    fn generator(&self) -> (r: AffinePoint)
        ensures
            r == self.spec_generator(),
    ;

    fn u(&self) -> (r: Vec<[[u8; 32]; H]>)
        ensures
            r@ == self.spec_u()@,
    ;

    fn z(&self) -> (r: Vec<u64>)
        ensures
            r@ == self.spec_z()@,
    ;

    fn lagrange_coeffs(&self) -> (r: Vec<[Fp; H]>)
        ensures
            r@ == self.spec_lagrange_coeffs()@,
    ;
}

/// A clone of the chip, which is the same chip: points made with the one
/// and with the other can be added to each other.
pub fn same_chip<EccChip: EccInstructions>(chip: &EccChip) -> (r: EccChip)
    ensures
        r == *chip,
{
    let r = chip.clone();
    proof {
        EccChip::lemma_clone(*chip, r);
    }
    r
}

/// An element of the base field of the curve that is used as a scalar in
/// variable-base scalar mul.
#[derive(Debug)]
pub struct ScalarVar<EccChip: EccInstructions> {
    chip: EccChip,
    inner: EccChip::ScalarVar,
}

/// A full-width element of the scalar field of the curve, to be used for
/// fixed-base scalar mul.
#[derive(Debug)]
pub struct ScalarFixed<EccChip: EccInstructions> {
    chip: EccChip,
    inner: EccChip::ScalarFixed,
}

/// A signed short element of the scalar field of the curve, to be used for
/// fixed-base scalar mul.
#[derive(Debug)]
pub struct ScalarFixedShort<EccChip: EccInstructions> {
    chip: EccChip,
    inner: EccChip::ScalarFixedShort,
}

impl<EccChip: EccInstructions> ScalarVar<EccChip> {
    pub closed spec fn spec_chip(self) -> EccChip {
        self.chip
    }

    pub closed spec fn spec_inner(self) -> EccChip::ScalarVar {
        self.inner
    }

    /// What a multiplication of the chip gave, paired with the chip: the
    /// product and the scalar on success, each with the chip; the same error
    /// on failure.
    pub fn from_product(
        chip: EccChip,
        product: Result<(EccChip::Point, EccChip::ScalarVar), Error>,
    ) -> (r: Result<(Point<EccChip>, ScalarVar<EccChip>), Error>)
        ensures
            match product {
                Ok((point, scalar)) => r matches Ok((p, s)) && p.spec_chip() == chip
                    && s.spec_chip() == chip && p.spec_inner() == point && s.spec_inner()
                    == scalar,
                Err(e) => r matches Err(f) && f == e,
            },
    {
        match product {
            Ok((point, scalar)) => Ok(
                (Point { chip: same_chip(&chip), inner: point }, ScalarVar { chip, inner: scalar }),
            ),
            Err(e) => Err(e),
        }
    }

    /// Returns the inner scalar.
    pub fn inner(&self) -> (r: &EccChip::ScalarVar)
        ensures
            *r == self.spec_inner(),
    {
        &self.inner
    }
}

impl<EccChip: EccInstructions> ScalarFixed<EccChip> {
    pub closed spec fn spec_chip(self) -> EccChip {
        self.chip
    }

    pub closed spec fn spec_inner(self) -> EccChip::ScalarFixed {
        self.inner
    }

    /// The scalar that this record holds, if it is known.
    pub open spec fn value(self) -> Option<Fq> {
        EccChip::scalar_fixed_value(&self.spec_inner())
    }

    /// What a multiplication of the chip gave, paired with the chip: the
    /// product and the record of the scalar on success, each with the chip;
    /// the same error on failure.
    pub fn from_product(
        chip: EccChip,
        product: Result<(EccChip::Point, EccChip::ScalarFixed), Error>,
    ) -> (r: Result<(Point<EccChip>, ScalarFixed<EccChip>), Error>)
        ensures
            match product {
                Ok((point, scalar)) => r matches Ok((p, s)) && p.spec_chip() == chip
                    && s.spec_chip() == chip && p.spec_inner() == point && s.spec_inner()
                    == scalar,
                Err(e) => r matches Err(f) && f == e,
            },
    {
        match product {
            Ok((point, scalar)) => Ok(
                (Point { chip: same_chip(&chip), inner: point }, ScalarFixed { chip, inner: scalar }),
            ),
            Err(e) => Err(e),
        }
    }

    /// Returns the inner scalar.
    pub fn inner(&self) -> (r: &EccChip::ScalarFixed)
        ensures
            *r == self.spec_inner(),
    {
        &self.inner
    }
}

impl<EccChip: EccInstructions> ScalarFixedShort<EccChip> {
    pub closed spec fn spec_chip(self) -> EccChip {
        self.chip
    }

    pub closed spec fn spec_inner(self) -> EccChip::ScalarFixedShort {
        self.inner
    }

    /// What a multiplication of the chip gave, paired with the chip: the
    /// product and the record of the scalar on success, each with the chip;
    /// the same error on failure.
    pub fn from_product(
        chip: EccChip,
        product: Result<(EccChip::Point, EccChip::ScalarFixedShort), Error>,
    ) -> (r: Result<(Point<EccChip>, ScalarFixedShort<EccChip>), Error>)
        ensures
            match product {
                Ok((point, scalar)) => r matches Ok((p, s)) && p.spec_chip() == chip
                    && s.spec_chip() == chip && p.spec_inner() == point && s.spec_inner()
                    == scalar,
                Err(e) => r matches Err(f) && f == e,
            },
    {
        match product {
            Ok((point, scalar)) => Ok(
                (Point { chip: same_chip(&chip), inner: point }, ScalarFixedShort { chip, inner: scalar }),
            ),
            Err(e) => Err(e),
        }
    }

    /// Returns the inner scalar.
    pub fn inner(&self) -> (r: &EccChip::ScalarFixedShort)
        ensures
            *r == self.spec_inner(),
    {
        &self.inner
    }
}

/// A non-identity elliptic curve point.
#[derive(Debug)]
pub struct NonIdentityPoint<EccChip: EccInstructions> {
    chip: EccChip,
    inner: EccChip::NonIdentityPoint,
}

impl<EccChip: EccInstructions> Clone for NonIdentityPoint<EccChip> {
    fn clone(&self) -> (r: Self)
        ensures
            r.spec_chip() == self.spec_chip(),
            cloned(self.spec_inner(), r.spec_inner()),
    {
        NonIdentityPoint { chip: same_chip(&self.chip), inner: self.inner.clone() }
    }
}

impl<EccChip: EccInstructions> NonIdentityPoint<EccChip> {
    pub closed spec fn spec_chip(self) -> EccChip {
        self.chip
    }

    pub closed spec fn spec_inner(self) -> EccChip::NonIdentityPoint {
        self.inner
    }

    /// The point that this variable stands for, if it is known.
    pub open spec fn value(self) -> Option<AffinePoint> {
        EccChip::non_identity_value(&self.spec_inner())
    }

    /// The constraints that `constrain_equal` adds for this point and
    /// `other` hold exactly when the two stand for the same point, whichever
    /// variable `this` the chip gives for this point as a point that may be
    /// the identity.
    pub proof fn lemma_constrain_equal(self, this: EccChip::Point, other: Point<EccChip>)
        requires
            EccChip::point_valid(&this),
            EccChip::point_value(&this) == self.value(),
            other.valid(),
        ensures
            EccChip::ties_hold(&this, &other.spec_inner()) <==> self.value() == other.value(),
    {
        EccChip::lemma_ties_hold(this, other.spec_inner());
    }

    /// What witnessing gave, paired with the chip: the point on success,
    /// the same error on failure.
    pub fn from_witness(chip: EccChip, point: Result<EccChip::NonIdentityPoint, Error>) -> (r:
        Result<Self, Error>)
        ensures
            match point {
                Ok(inner) => r matches Ok(p) && p.spec_chip() == chip && p.spec_inner() == inner,
                Err(e) => r matches Err(f) && f == e,
            },
    {
        match point {
            Ok(inner) => Ok(NonIdentityPoint { chip, inner }),
            Err(e) => Err(e),
        }
    }

    /// Constructs a new point with the given value.
    ///
    /// Fails with `IdentityWitness` when the value is the identity, and
    /// otherwise only when the chip cannot lay the point out.
    pub fn new(chip: EccChip, layouter: &mut EccChip::Layouter, value: Option<AffinePoint>) -> (r:
        Result<Self, Error>)
        requires
            EccChip::layouter_wf(old(layouter)),
        ensures
            EccChip::layouter_wf(final(layouter)),
            (value matches Some(v) && v.is_identity_spec()) ==> (r matches Err(e) && e
                == Error::IdentityWitness),
            !(value matches Some(v) && v.is_identity_spec()) ==> (r matches Err(e) ==> e
                == Error::Synthesis),
            r matches Ok(p) ==> p.spec_chip() == chip && p.value() == value,
    {
        let point = chip.witness_point_non_id(layouter, value);
        Self::from_witness(chip, point)
    }

    /// This point as a point that may be the identity.
    pub fn to_point(&self) -> (r: Point<EccChip>)
        ensures
            r.spec_chip() == self.spec_chip(),
            r.valid(),
            r.value() == self.value(),
    {
        Point { chip: same_chip(&self.chip), inner: EccChip::to_point(&self.inner) }
    }

    /// Constrains this point to be equal in value to another point: ties the
    /// variable that the chip gives for this point as a point that may be
    /// the identity to the variable of `other`.
    pub fn constrain_equal(&self, layouter: &mut EccChip::Layouter, other: &Point<EccChip>) -> (r:
        Result<(), Error>)
        requires
            EccChip::layouter_wf(old(layouter)),
        ensures
            EccChip::layouter_wf(final(layouter)),
            r.is_ok() ==> exists|this: EccChip::Point|
                EccChip::point_valid(&this) && EccChip::point_value(&this) == self.value()
                    && #[trigger] EccChip::tied(
                    old(layouter),
                    final(layouter),
                    &this,
                    &other.spec_inner(),
                ),
            r matches Err(e) ==> e == Error::Synthesis,
    {
        let this = EccChip::to_point(&self.inner);
        let r = self.chip.constrain_equal(layouter, &this, &other.inner);
        proof {
            if r.is_ok() {
                assert(EccChip::tied(old(layouter), layouter, &this, &other.spec_inner()));
            }
        }
        r
    }

    /// Returns the inner point.
    pub fn inner(&self) -> (r: &EccChip::NonIdentityPoint)
        ensures
            *r == self.spec_inner(),
    {
        &self.inner
    }

    /// Extracts the x-coordinate of a point.
    pub fn extract_p(&self) -> (r: X<EccChip>)
        ensures
            r.spec_chip() == self.spec_chip(),
            r.value() == x_of(self.value()),
    {
        let point = EccChip::to_point(&self.inner);
        X::from_inner(same_chip(&self.chip), EccChip::extract_p(&point))
    }

    /// Wraps the given point (obtained directly from an instruction) in a
    /// gadget.
    pub fn from_inner(chip: EccChip, inner: EccChip::NonIdentityPoint) -> (r: Self)
        ensures
            r.spec_chip() == chip,
            r.spec_inner() == inner,
    {
        NonIdentityPoint { chip, inner }
    }

    /// Returns `self + other` using complete addition.
    pub fn add(&self, layouter: &mut EccChip::Layouter, other: &Point<EccChip>) -> (r: Result<
        Point<EccChip>,
        Error,
    >)
        requires
            EccChip::layouter_wf(old(layouter)),
            self.spec_chip() == other.spec_chip(),
        ensures
            EccChip::layouter_wf(final(layouter)),
            r matches Err(e) ==> e == Error::Synthesis,
            r matches Ok(s) ==> s.spec_chip() == self.spec_chip() && s.valid() && sum_known(
                self.value(),
                other.value(),
                s.value(),
            ),
    {
        let this = EccChip::to_point(&self.inner);
        let sum = self.chip.add(layouter, &this, &other.inner);
        Point::from_witness(same_chip(&self.chip), sum)
    }

    /// Returns `self + other` using incomplete addition.
    /// The arguments are type-constrained not to be the identity point,
    /// and since exceptional cases return an error, the result also cannot
    /// be the identity point.
    pub fn add_incomplete(&self, layouter: &mut EccChip::Layouter, other: &Self) -> (r: Result<
        Self,
        Error,
    >)
        requires
            EccChip::layouter_wf(old(layouter)),
            self.spec_chip() == other.spec_chip(),
        ensures
            EccChip::layouter_wf(final(layouter)),
            r matches Err(e) ==> e == Error::Synthesis,
            r matches Ok(s) ==> s.spec_chip() == self.spec_chip() && sum_known(
                self.value(),
                other.value(),
                s.value(),
            ) && !(s.value() matches Some(v) && v.is_identity_spec()),
    {
        let sum = self.chip.add_incomplete(layouter, &self.inner, &other.inner);
        Self::from_witness(same_chip(&self.chip), sum)
    }

    /// Returns `[by] self`: what `ScalarVar::from_product` makes of what the
    /// chip gives for this point and `by`.
    pub fn mul(&self, layouter: &mut EccChip::Layouter, by: &EccChip::Var) -> (r: Result<
        (Point<EccChip>, ScalarVar<EccChip>),
        Error,
    >)
        requires
            EccChip::layouter_wf(old(layouter)),
        ensures
            EccChip::layouter_wf(final(layouter)),
            r matches Err(e) ==> e == Error::Synthesis,
            r matches Ok((p, s)) ==> p.valid() && p.spec_chip() == self.spec_chip() && s.spec_chip()
                == self.spec_chip() && product_known(
                value_of(EccChip::var_value(by)),
                self.value(),
                p.value(),
            ),
    {
        let product = self.chip.mul(layouter, by, &self.inner);
        ScalarVar::from_product(same_chip(&self.chip), product)
    }
}

/// An elliptic curve point.
#[derive(Debug)]
pub struct Point<EccChip: EccInstructions> {
    chip: EccChip,
    inner: EccChip::Point,
}

impl<EccChip: EccInstructions> Clone for Point<EccChip> {
    fn clone(&self) -> (r: Self)
        ensures
            r.spec_chip() == self.spec_chip(),
            cloned(self.spec_inner(), r.spec_inner()),
    {
        Point { chip: same_chip(&self.chip), inner: self.inner.clone() }
    }
}

impl<EccChip: EccInstructions> From<NonIdentityPoint<EccChip>> for Point<EccChip> {
    /// The same point of the same chip, no longer known not to be the
    /// identity.
    fn from(non_id_point: NonIdentityPoint<EccChip>) -> (r: Self)
        ensures
            r.spec_chip() == non_id_point.spec_chip(),
            r.valid(),
            r.value() == non_id_point.value(),
    {
        Point { chip: non_id_point.chip, inner: EccChip::to_point(&non_id_point.inner) }
    }
}

impl<EccChip: EccInstructions> vstd::std_specs::convert::FromSpecImpl<NonIdentityPoint<EccChip>> for Point<EccChip> {
    /// The chip decides which variable stands for the point, so the
    /// conversion is described by what it ensures, not by a function.
    open spec fn obeys_from_spec() -> bool {
        false
    }

    open spec fn from_spec(non_id_point: NonIdentityPoint<EccChip>) -> Point<EccChip> {
        arbitrary()
    }
}

impl<EccChip: EccInstructions> Point<EccChip> {
    pub closed spec fn spec_chip(self) -> EccChip {
        self.chip
    }

    pub closed spec fn spec_inner(self) -> EccChip::Point {
        self.inner
    }

    /// The point that this variable stands for, if it is known.
    pub open spec fn value(self) -> Option<AffinePoint> {
        EccChip::point_value(&self.spec_inner())
    }

    /// Whether the variable is one that the chip hands out.
    pub open spec fn valid(self) -> bool {
        EccChip::point_valid(&self.spec_inner())
    }

    /// Whether the constraints that `constrain_equal` adds for this point
    /// and `other` hold.
    pub open spec fn equal_to(self, other: Point<EccChip>) -> bool {
        EccChip::ties_hold(&self.spec_inner(), &other.spec_inner())
    }

    /// The constraints that `constrain_equal` adds for two points hold
    /// exactly when the two stand for the same point: points of equal value
    /// that were witnessed apart are accepted, points of different values
    /// are not.
    pub proof fn lemma_constrain_equal(self, other: Point<EccChip>)
        requires
            self.valid(),
            other.valid(),
        ensures
            self.equal_to(other) <==> self.value() == other.value(),
    {
        EccChip::lemma_ties_hold(self.spec_inner(), other.spec_inner());
    }

    /// What an instruction gave, paired with the chip: the point on
    /// success, the same error on failure.
    pub fn from_witness(chip: EccChip, point: Result<EccChip::Point, Error>) -> (r: Result<
        Self,
        Error,
    >)
        ensures
            match point {
                Ok(inner) => r matches Ok(p) && p.spec_chip() == chip && p.spec_inner() == inner,
                Err(e) => r matches Err(f) && f == e,
            },
    {
        match point {
            Ok(inner) => Ok(Point { chip, inner }),
            Err(e) => Err(e),
        }
    }

    /// Constructs a new point with the given value, which may be the
    /// identity.
    ///
    /// Fails only when the chip cannot lay the point out.
    pub fn new(chip: EccChip, layouter: &mut EccChip::Layouter, value: Option<AffinePoint>) -> (r:
        Result<Self, Error>)
        requires
            EccChip::layouter_wf(old(layouter)),
        ensures
            EccChip::layouter_wf(final(layouter)),
            r matches Err(e) ==> e == Error::Synthesis,
            r matches Ok(p) ==> p.spec_chip() == chip && p.valid() && p.value() == value,
    {
        let point = chip.witness_point(layouter, value);
        Self::from_witness(chip, point)
    }

    /// Constrains this point to be equal in value to another point.
    pub fn constrain_equal(&self, layouter: &mut EccChip::Layouter, other: &Point<EccChip>) -> (r:
        Result<(), Error>)
        requires
            EccChip::layouter_wf(old(layouter)),
        ensures
            EccChip::layouter_wf(final(layouter)),
            r.is_ok() ==> EccChip::tied(
                old(layouter),
                final(layouter),
                &self.spec_inner(),
                &other.spec_inner(),
            ),
            r matches Err(e) ==> e == Error::Synthesis,
    {
        self.chip.constrain_equal(layouter, &self.inner, &other.inner)
    }

    /// Returns the inner point.
    pub fn inner(&self) -> (r: &EccChip::Point)
        ensures
            *r == self.spec_inner(),
    {
        &self.inner
    }

    /// Extracts the x-coordinate of a point.
    pub fn extract_p(&self) -> (r: X<EccChip>)
        ensures
            r.spec_chip() == self.spec_chip(),
            r.value() == x_of(self.value()),
    {
        X::from_inner(same_chip(&self.chip), EccChip::extract_p(&self.inner))
    }

    /// Wraps the given point (obtained directly from an instruction) in a
    /// gadget.
    pub fn from_inner(chip: EccChip, inner: EccChip::Point) -> (r: Self)
        ensures
            r.spec_chip() == chip,
            r.spec_inner() == inner,
    {
        Point { chip, inner }
    }

    /// Returns `self + other` using complete addition.
    pub fn add(&self, layouter: &mut EccChip::Layouter, other: &Point<EccChip>) -> (r: Result<
        Point<EccChip>,
        Error,
    >)
        requires
            EccChip::layouter_wf(old(layouter)),
            self.spec_chip() == other.spec_chip(),
        ensures
            EccChip::layouter_wf(final(layouter)),
            r matches Err(e) ==> e == Error::Synthesis,
            r matches Ok(s) ==> s.spec_chip() == self.spec_chip() && s.valid() && sum_known(
                self.value(),
                other.value(),
                s.value(),
            ),
    {
        let sum = self.chip.add(layouter, &self.inner, &other.inner);
        Self::from_witness(same_chip(&self.chip), sum)
    }
}

/// The affine short Weierstrass x-coordinate of an elliptic curve point.
#[derive(Debug)]
pub struct X<EccChip: EccInstructions> {
    chip: EccChip,
    inner: EccChip::X,
}

impl<EccChip: EccInstructions> X<EccChip> {
    pub closed spec fn spec_chip(self) -> EccChip {
        self.chip
    }

    pub closed spec fn spec_inner(self) -> EccChip::X {
        self.inner
    }

    /// The x-coordinate that this variable stands for, if it is known.
    pub open spec fn value(self) -> Option<Fp> {
        EccChip::x_value(&self.spec_inner())
    }

    /// Wraps the given x-coordinate (obtained directly from an instruction)
    /// in a gadget.
    pub fn from_inner(chip: EccChip, inner: EccChip::X) -> (r: Self)
        ensures
            r.spec_chip() == chip,
            r.spec_inner() == inner,
    {
        X { chip, inner }
    }

    /// Returns the inner x-coordinate.
    pub fn inner(&self) -> (r: &EccChip::X)
        ensures
            *r == self.spec_inner(),
    {
        &self.inner
    }
}

/// A constant elliptic curve point, for which window tables have been
/// provided to make scalar multiplication more efficient.
///
/// Used in scalar multiplication with full-width scalars.
#[derive(Debug)]
pub struct FixedPoint<EccChip: EccInstructions> {
    chip: EccChip,
    inner: EccChip::FixedPoints,
}

impl<EccChip: EccInstructions> Clone for FixedPoint<EccChip> {
    fn clone(&self) -> (r: Self)
        ensures
            r.spec_chip() == self.spec_chip(),
            cloned(self.spec_inner(), r.spec_inner()),
    {
        FixedPoint { chip: same_chip(&self.chip), inner: self.inner.clone() }
    }
}

impl<EccChip: EccInstructions> FixedPoint<EccChip> {
    pub closed spec fn spec_chip(self) -> EccChip {
        self.chip
    }

    pub closed spec fn spec_inner(self) -> EccChip::FixedPoints {
        self.inner
    }

    /// The generator of the fixed base.
    pub open spec fn generator(self) -> AffinePoint {
        self.spec_inner().spec_generator()
    }

    /// Returns `[by] self`: what `ScalarFixed::from_product` makes of what
    /// the chip gives for this base and `by`.
    pub fn mul(&self, layouter: &mut EccChip::Layouter, by: Option<Fq>) -> (r: Result<
        (Point<EccChip>, ScalarFixed<EccChip>),
        Error,
    >)
        requires
            EccChip::layouter_wf(old(layouter)),
        ensures
            EccChip::layouter_wf(final(layouter)),
            r matches Err(e) ==> e == Error::Synthesis || e == Error::FixedBase,
            r matches Ok((p, s)) ==> p.valid() && p.spec_chip() == self.spec_chip() && s.spec_chip()
                == self.spec_chip() && fixed_product(self.generator(), scalar_of(by), p.value())
                && s.value() == by,
    {
        let product = self.chip.mul_fixed(layouter, by, &self.inner);
        ScalarFixed::from_product(same_chip(&self.chip), product)
    }

    /// Returns `[by] self`: what `Point::from_witness` makes of what the
    /// chip gives for this base and `by`.
    pub fn mul_base_field(&self, layouter: &mut EccChip::Layouter, by: EccChip::Var) -> (r: Result<
        Point<EccChip>,
        Error,
    >)
        requires
            EccChip::layouter_wf(old(layouter)),
        ensures
            EccChip::layouter_wf(final(layouter)),
            r matches Err(e) ==> e == Error::Synthesis || e == Error::FixedBase,
            r matches Ok(p) ==> p.spec_chip() == self.spec_chip() && p.valid() && fixed_product(
                self.generator(),
                value_of(EccChip::var_value(&by)),
                p.value(),
            ),
    {
        let product = self.chip.mul_fixed_base_field_elem(layouter, by, &self.inner);
        Point::from_witness(same_chip(&self.chip), product)
    }

    /// Returns `[by] self`: what `ScalarFixedShort::from_product` makes of
    /// what the chip gives for this base and the pair of magnitude and sign.
    pub fn mul_short(
        &self,
        layouter: &mut EccChip::Layouter,
        magnitude_sign: (EccChip::Var, EccChip::Var),
    ) -> (r: Result<(Point<EccChip>, ScalarFixedShort<EccChip>), Error>)
        requires
            EccChip::layouter_wf(old(layouter)),
        ensures
            EccChip::layouter_wf(final(layouter)),
            r matches Err(e) ==> e == Error::Synthesis || e == Error::FixedBase,
            r matches Ok((p, s)) ==> p.valid() && p.spec_chip() == self.spec_chip() && s.spec_chip()
                == self.spec_chip() && short_product(
                self.generator(),
                value_of(EccChip::var_value(&magnitude_sign.0)),
                value_of(EccChip::var_value(&magnitude_sign.1)),
                p.value(),
            ),
    {
        let product = self.chip.mul_fixed_short(layouter, magnitude_sign, &self.inner);
        ScalarFixedShort::from_product(same_chip(&self.chip), product)
    }

    /// Wraps the given fixed base (obtained directly from an instruction)
    /// in a gadget.
    pub fn from_inner(chip: EccChip, inner: EccChip::FixedPoints) -> (r: Self)
        ensures
            r.spec_chip() == chip,
            r.spec_inner() == inner,
    {
        FixedPoint { chip, inner }
    }
}

} // verus!
