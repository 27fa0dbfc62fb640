//! Elements of the two prime fields of the Pallas curve, held as four
//! little-endian 64-bit limbs in canonical (fully reduced) form.

use ff::{PrimeField, PrimeFieldBits};
use pasta_curves::pallas;
use vstd::prelude::*;

verus! {

/// The integer that four little-endian 64-bit limbs stand for.
pub open spec fn limbs_value(l0: u64, l1: u64, l2: u64, l3: u64) -> nat {
    (l0 as nat) + (l1 as nat) * 0x1_0000_0000_0000_0000nat + (l2 as nat)
        * 0x1_0000_0000_0000_0000_0000_0000_0000_0000nat + (l3 as nat)
        * 0x1_0000_0000_0000_0000_0000_0000_0000_0000_0000_0000_0000_0000nat
}

/// Two limb quadruples that spell the same integer are the same quadruple.
pub proof fn lemma_limbs_injective(
    a0: u64,
    a1: u64,
    a2: u64,
    a3: u64,
    b0: u64,
    b1: u64,
    b2: u64,
    b3: u64,
)
    requires
        limbs_value(a0, a1, a2, a3) == limbs_value(b0, b1, b2, b3),
    ensures
        a0 == b0,
        a1 == b1,
        a2 == b2,
        a3 == b3,
{
    let w = 0x1_0000_0000_0000_0000int;
    let ha = a1 as int + w * (a2 as int + w * (a3 as int));
    let hb = b1 as int + w * (b2 as int + w * (b3 as int));
    assert(limbs_value(a0, a1, a2, a3) == a0 as int + w * ha) by (nonlinear_arith)
        requires
            w == 0x1_0000_0000_0000_0000int,
            ha == a1 as int + w * (a2 as int + w * (a3 as int)),
            limbs_value(a0, a1, a2, a3) == (a0 as nat) + (a1 as nat) * 0x1_0000_0000_0000_0000nat
                + (a2 as nat) * 0x1_0000_0000_0000_0000_0000_0000_0000_0000nat + (a3 as nat)
                * 0x1_0000_0000_0000_0000_0000_0000_0000_0000_0000_0000_0000_0000nat,
    ;
    assert(limbs_value(b0, b1, b2, b3) == b0 as int + w * hb) by (nonlinear_arith)
        requires
            w == 0x1_0000_0000_0000_0000int,
            hb == b1 as int + w * (b2 as int + w * (b3 as int)),
            limbs_value(b0, b1, b2, b3) == (b0 as nat) + (b1 as nat) * 0x1_0000_0000_0000_0000nat
                + (b2 as nat) * 0x1_0000_0000_0000_0000_0000_0000_0000_0000nat + (b3 as nat)
                * 0x1_0000_0000_0000_0000_0000_0000_0000_0000_0000_0000_0000_0000nat,
    ;
    lemma_split_injective(a0 as int, ha, b0 as int, hb);
    lemma_split_injective(
        a1 as int,
        a2 as int + w * (a3 as int),
        b1 as int,
        b2 as int + w * (b3 as int),
    );
    lemma_split_injective(a2 as int, a3 as int, b2 as int, b3 as int);
}

/// A number is split in one way only into a digit below `2^64` and the rest.
proof fn lemma_split_injective(lo_a: int, hi_a: int, lo_b: int, hi_b: int)
    requires
        0 <= lo_a < 0x1_0000_0000_0000_0000,
        0 <= lo_b < 0x1_0000_0000_0000_0000,
        lo_a + 0x1_0000_0000_0000_0000 * hi_a == lo_b + 0x1_0000_0000_0000_0000 * hi_b,
    ensures
        lo_a == lo_b,
        hi_a == hi_b,
{
}

/// The integer that a sequence of bytes spells, least significant first.
pub open spec fn le_bytes_value(bytes: Seq<u8>) -> nat
    decreases bytes.len(),
{
    if bytes.len() == 0 {
        0
    } else {
        (bytes[0] as nat) + 256 * le_bytes_value(bytes.drop_first())
    }
}

/// The modulus `p` of the base field, over which coordinates are defined.
pub open spec fn base_modulus() -> nat {
    0x40000000000000000000000000000000224698fc094cf91b992d30ed00000001nat
}

/// The modulus `q` of the scalar field, the order of the curve group.
pub open spec fn scalar_modulus() -> nat {
    0x40000000000000000000000000000000224698fc0994a8dd8c46eb2100000001nat
}

/// An element of the base field, in which coordinates live.
#[derive(Clone, Copy, Debug, PartialEq, Eq, Structural)]
pub struct Fp {
    l0: u64,
    l1: u64,
    l2: u64,
    l3: u64,
}

impl Fp {
    /// The integer in `[0, p)` that this element stands for.
    pub closed spec fn value(self) -> nat {
        limbs_value(self.l0, self.l1, self.l2, self.l3)
    }

    /// An element is canonical: its integer is below the modulus.
    #[verifier::type_invariant]
    pub closed spec fn wf(self) -> bool {
        self.value() < base_modulus()
    }

    /// Canonical elements that stand for the same integer are the same element.
    pub proof fn lemma_value_injective(a: Fp, b: Fp)
        requires
            a.value() == b.value(),
        ensures
            a == b,
    {
        lemma_limbs_injective(a.l0, a.l1, a.l2, a.l3, b.l0, b.l1, b.l2, b.l3);
    }

    /// What being canonical says of the integer.
    pub proof fn lemma_canonical(self)
        requires
            self.wf(),
        ensures
            self.value() < base_modulus(),
    {
    }

    /// Every element handled by executable code is canonical.
    pub fn canonical(&self)
        ensures
            self.wf(),
            self.value() < base_modulus(),
    {
        proof {
            use_type_invariant(self);
        }
    }

    pub fn zero() -> (r: Fp)
        ensures
            r.wf(),
            r.value() == 0,
    {
        Fp { l0: 0, l1: 0, l2: 0, l3: 0 }
    }

    pub fn one() -> (r: Fp)
        ensures
            r.wf(),
            r.value() == 1,
    {
        Fp { l0: 1, l1: 0, l2: 0, l3: 0 }
    }

    /// The element that stands for the integer `v`.
    pub closed spec fn spec_from_u64(v: u64) -> Fp {
        Fp { l0: v, l1: 0, l2: 0, l3: 0 }
    }

    /// What is known of the element that stands for `v`.
    pub broadcast proof fn lemma_from_u64(v: u64)
        ensures
            (#[trigger] Self::spec_from_u64(v)).wf(),
            Self::spec_from_u64(v).value() == v,
    {
    }

    pub fn from_u64(v: u64) -> (r: Fp)
        ensures
            r.wf(),
            r.value() == v,
            r == Self::spec_from_u64(v),
    {
        Fp { l0: v, l1: 0, l2: 0, l3: 0 }
    }

    /// The element whose integer the limbs spell, least significant limb
    /// first; `None` when that integer is not below the modulus.
    pub fn from_raw(limbs: [u64; 4]) -> (r: Option<Fp>)
        ensures
            r.is_some() == (limbs_value(limbs[0], limbs[1], limbs[2], limbs[3]) < base_modulus()),
            r matches Some(e) ==> e.wf() && e.value() == limbs_value(
                limbs[0],
                limbs[1],
                limbs[2],
                limbs[3],
            ),
    {
        let l0: u64 = limbs[0];
        let l1: u64 = limbs[1];
        let l2: u64 = limbs[2];
        let l3: u64 = limbs[3];
        let below: bool = l3 < 0x4000000000000000 || (l3 == 0x4000000000000000 && l2 == 0 && (l1
            < 0x224698fc094cf91b || (l1 == 0x224698fc094cf91b && l0 < 0x992d30ed00000001)));
        if below {
            Some(Fp { l0, l1, l2, l3 })
        } else {
            None
        }
    }

    /// The four limbs of the canonical integer, least significant first.
    pub fn to_raw(&self) -> (r: [u64; 4])
        ensures
            limbs_value(r[0], r[1], r[2], r[3]) == self.value(),
    {
        [self.l0, self.l1, self.l2, self.l3]
    }

    pub fn is_zero(&self) -> (r: bool)
        ensures
            r == (self.value() == 0),
    {
        self.l0 == 0 && self.l1 == 0 && self.l2 == 0 && self.l3 == 0
    }

    /// Whether this element stands for an integer that fits in 64 bits, and
    /// then that integer.
    pub fn to_u64(&self) -> (r: Option<u64>)
        ensures
            r.is_some() == (self.value() <= u64::MAX),
            r matches Some(v) ==> v == self.value(),
    {
        if self.l1 == 0 && self.l2 == 0 && self.l3 == 0 {
            Some(self.l0)
        } else {
            None
        }
    }

    /// `self + rhs` in the field.
    pub fn add(&self, rhs: &Fp) -> (r: Fp)
        ensures
            r.wf(),
            r.value() == (self.value() + rhs.value()) % base_modulus(),
    {
        fp_add(self, rhs)
    }

    /// `self - rhs` in the field.
    pub fn sub(&self, rhs: &Fp) -> (r: Fp)
        ensures
            r.wf(),
            r.value() == (self.value() + base_modulus() - rhs.value()) % (base_modulus() as int),
            (r.value() == 0) == (self.value() == rhs.value()),
    {
        proof {
            use_type_invariant(self);
            use_type_invariant(rhs);
        }
        let r = fp_sub(self, rhs);
        proof {
            let m = base_modulus() as int;
            let d = self.value() + m - rhs.value();
            if self.value() >= rhs.value() {
                vstd::arithmetic::div_mod::lemma_fundamental_div_mod_converse(d, m, 1, d - m);
            } else {
                vstd::arithmetic::div_mod::lemma_fundamental_div_mod_converse(d, m, 0, d);
            }
        }
        r
    }

    /// `self * rhs` in the field. A product is zero only if a factor is.
    pub fn mul(&self, rhs: &Fp) -> (r: Fp)
        ensures
            r.wf(),
            r.value() == (self.value() * rhs.value()) % base_modulus(),
            (r.value() == 0) == (self.value() == 0 || rhs.value() == 0),
    {
        fp_mul(self, rhs)
    }

    /// `self * self` in the field.
    pub fn square(&self) -> (r: Fp)
        ensures
            r.wf(),
            r.value() == (self.value() * self.value()) % base_modulus(),
            (r.value() == 0) == (self.value() == 0),
    {
        fp_mul(self, self)
    }
}

impl Fp {
    /// The element that 32 little-endian bytes encode; `None` when the
    /// integer they spell is not below `p`.
    pub fn from_repr(bytes: &[u8; 32]) -> (r: Option<Fp>)
        ensures
            r.is_some() == (le_bytes_value(bytes@) < base_modulus()),
            r matches Some(e) ==> e.wf() && e.value() == le_bytes_value(bytes@),
    {
        fp_from_repr(bytes)
    }
}

/// `pallas::Base::from_repr`: decodes the canonical little-endian encoding
/// of an element, and refuses an encoding of an integer that is not below
/// `p`.
#[verifier::external_body]
fn fp_from_repr(bytes: &[u8; 32]) -> (r: Option<Fp>)
    ensures
        r.is_some() == (le_bytes_value(bytes@) < base_modulus()),
        r matches Some(e) ==> e.wf() && e.value() == le_bytes_value(bytes@),
{
    match Option::<pallas::Base>::from(pallas::Base::from_repr(*bytes)) {
        Some(x) => {
            let l = x.to_le_bits().into_inner();
            Some(Fp { l0: l[0], l1: l[1], l2: l[2], l3: l[3] })
        },
        None => None,
    }
}

/// `+` of `pallas::Base`: the sum of the two integers, reduced modulo `p`. The
/// operands go in by `from_raw` and the sum comes back by `to_le_bits`,
/// which keep the integer of a canonical element.
#[verifier::external_body]
fn fp_add(a: &Fp, b: &Fp) -> (r: Fp)
    ensures
        r.wf(),
        r.value() == (a.value() + b.value()) % base_modulus(),
{
    let x = pallas::Base::from_raw([a.l0, a.l1, a.l2, a.l3]);
    let y = pallas::Base::from_raw([b.l0, b.l1, b.l2, b.l3]);
    let l = (x + y).to_le_bits().into_inner();
    Fp { l0: l[0], l1: l[1], l2: l[2], l3: l[3] }
}

/// `-` of `pallas::Base`: the difference of the two integers, reduced modulo `p`
/// into `[0, p)`. The operands go in by `from_raw` and the difference comes
/// back by `to_le_bits`.
#[verifier::external_body]
fn fp_sub(a: &Fp, b: &Fp) -> (r: Fp)
    ensures
        r.wf(),
        r.value() == (a.value() + base_modulus() - b.value()) % (base_modulus() as int),
{
    let x = pallas::Base::from_raw([a.l0, a.l1, a.l2, a.l3]);
    let y = pallas::Base::from_raw([b.l0, b.l1, b.l2, b.l3]);
    let l = (x - y).to_le_bits().into_inner();
    Fp { l0: l[0], l1: l[1], l2: l[2], l3: l[3] }
}

/// `*` of `pallas::Base`: the product of the two integers, reduced modulo `p`. The
/// modulus is prime, so the product of two non-zero elements is not zero.
/// The operands go in by `from_raw` and the product comes back by
/// `to_le_bits`.
#[verifier::external_body]
fn fp_mul(a: &Fp, b: &Fp) -> (r: Fp)
    ensures
        r.wf(),
        r.value() == (a.value() * b.value()) % base_modulus(),
        (r.value() == 0) == (a.value() == 0 || b.value() == 0),
{
    let x = pallas::Base::from_raw([a.l0, a.l1, a.l2, a.l3]);
    let y = pallas::Base::from_raw([b.l0, b.l1, b.l2, b.l3]);
    let l = (x * y).to_le_bits().into_inner();
    Fp { l0: l[0], l1: l[1], l2: l[2], l3: l[3] }
}

/// An element of the scalar field, in which multiples of a point are counted.
#[derive(Clone, Copy, Debug, PartialEq, Eq, Structural)]
pub struct Fq {
    l0: u64,
    l1: u64,
    l2: u64,
    l3: u64,
}

impl Fq {
    /// The integer in `[0, q)` that this element stands for.
    pub closed spec fn value(self) -> nat {
        limbs_value(self.l0, self.l1, self.l2, self.l3)
    }

    /// An element is canonical: its integer is below the modulus.
    #[verifier::type_invariant]
    pub closed spec fn wf(self) -> bool {
        self.value() < scalar_modulus()
    }

    /// Canonical elements that stand for the same integer are the same element.
    pub proof fn lemma_value_injective(a: Fq, b: Fq)
        requires
            a.value() == b.value(),
        ensures
            a == b,
    {
        lemma_limbs_injective(a.l0, a.l1, a.l2, a.l3, b.l0, b.l1, b.l2, b.l3);
    }

    /// What being canonical says of the integer.
    pub proof fn lemma_canonical(self)
        requires
            self.wf(),
        ensures
            self.value() < scalar_modulus(),
    {
    }

    /// Every element handled by executable code is canonical.
    pub fn canonical(&self)
        ensures
            self.wf(),
            self.value() < scalar_modulus(),
    {
        proof {
            use_type_invariant(self);
        }
    }

    pub fn zero() -> (r: Fq)
        ensures
            r.wf(),
            r.value() == 0,
    {
        Fq { l0: 0, l1: 0, l2: 0, l3: 0 }
    }

    pub fn one() -> (r: Fq)
        ensures
            r.wf(),
            r.value() == 1,
    {
        Fq { l0: 1, l1: 0, l2: 0, l3: 0 }
    }

    /// The element that stands for the integer `v`.
    pub closed spec fn spec_from_u64(v: u64) -> Fq {
        Fq { l0: v, l1: 0, l2: 0, l3: 0 }
    }

    /// What is known of the element that stands for `v`.
    pub broadcast proof fn lemma_from_u64(v: u64)
        ensures
            (#[trigger] Self::spec_from_u64(v)).wf(),
            Self::spec_from_u64(v).value() == v,
    {
    }

    pub fn from_u64(v: u64) -> (r: Fq)
        ensures
            r.wf(),
            r.value() == v,
            r == Self::spec_from_u64(v),
    {
        Fq { l0: v, l1: 0, l2: 0, l3: 0 }
    }

    /// The element whose integer the limbs spell, least significant limb
    /// first; `None` when that integer is not below the modulus.
    pub fn from_raw(limbs: [u64; 4]) -> (r: Option<Fq>)
        ensures
            r.is_some() == (limbs_value(limbs[0], limbs[1], limbs[2], limbs[3]) < scalar_modulus()),
            r matches Some(e) ==> e.wf() && e.value() == limbs_value(
                limbs[0],
                limbs[1],
                limbs[2],
                limbs[3],
            ),
    {
        let l0: u64 = limbs[0];
        let l1: u64 = limbs[1];
        let l2: u64 = limbs[2];
        let l3: u64 = limbs[3];
        let below: bool = l3 < 0x4000000000000000 || (l3 == 0x4000000000000000 && l2 == 0 && (l1
            < 0x224698fc0994a8dd || (l1 == 0x224698fc0994a8dd && l0 < 0x8c46eb2100000001)));
        if below {
            Some(Fq { l0, l1, l2, l3 })
        } else {
            None
        }
    }

    /// The four limbs of the canonical integer, least significant first.
    pub fn to_raw(&self) -> (r: [u64; 4])
        ensures
            limbs_value(r[0], r[1], r[2], r[3]) == self.value(),
    {
        [self.l0, self.l1, self.l2, self.l3]
    }

    pub fn is_zero(&self) -> (r: bool)
        ensures
            r == (self.value() == 0),
    {
        self.l0 == 0 && self.l1 == 0 && self.l2 == 0 && self.l3 == 0
    }

    /// Whether this element stands for an integer that fits in 64 bits, and
    /// then that integer.
    pub fn to_u64(&self) -> (r: Option<u64>)
        ensures
            r.is_some() == (self.value() <= u64::MAX),
            r matches Some(v) ==> v == self.value(),
    {
        if self.l1 == 0 && self.l2 == 0 && self.l3 == 0 {
            Some(self.l0)
        } else {
            None
        }
    }

    /// `self + rhs` in the field.
    pub fn add(&self, rhs: &Fq) -> (r: Fq)
        ensures
            r.wf(),
            r.value() == (self.value() + rhs.value()) % scalar_modulus(),
    {
        fq_add(self, rhs)
    }

    /// `self - rhs` in the field.
    pub fn sub(&self, rhs: &Fq) -> (r: Fq)
        ensures
            r.wf(),
            r.value() == (self.value() + scalar_modulus() - rhs.value()) % (scalar_modulus() as int),
            (r.value() == 0) == (self.value() == rhs.value()),
    {
        proof {
            use_type_invariant(self);
            use_type_invariant(rhs);
        }
        let r = fq_sub(self, rhs);
        proof {
            let m = scalar_modulus() as int;
            let d = self.value() + m - rhs.value();
            if self.value() >= rhs.value() {
                vstd::arithmetic::div_mod::lemma_fundamental_div_mod_converse(d, m, 1, d - m);
            } else {
                vstd::arithmetic::div_mod::lemma_fundamental_div_mod_converse(d, m, 0, d);
            }
        }
        r
    }

    /// `self * rhs` in the field. A product is zero only if a factor is.
    pub fn mul(&self, rhs: &Fq) -> (r: Fq)
        ensures
            r.wf(),
            r.value() == (self.value() * rhs.value()) % scalar_modulus(),
            (r.value() == 0) == (self.value() == 0 || rhs.value() == 0),
    {
        fq_mul(self, rhs)
    }

    /// `self * self` in the field.
    pub fn square(&self) -> (r: Fq)
        ensures
            r.wf(),
            r.value() == (self.value() * self.value()) % scalar_modulus(),
            (r.value() == 0) == (self.value() == 0),
    {
        fq_mul(self, self)
    }
}

impl Fq {
    /// The scalar that stands for the same integer as an element of the
    /// base field. The base field is the smaller of the two.
    pub fn from_base(elem: &Fp) -> (r: Fq)
        ensures
            r.wf(),
            r.value() == elem.value(),
    {
        elem.canonical();
        let limbs = elem.to_raw();
        Fq { l0: limbs[0], l1: limbs[1], l2: limbs[2], l3: limbs[3] }
    }
}

/// `+` of `pallas::Scalar`: the sum of the two integers, reduced modulo `q`. The
/// operands go in by `from_raw` and the sum comes back by `to_le_bits`,
/// which keep the integer of a canonical element.
#[verifier::external_body]
fn fq_add(a: &Fq, b: &Fq) -> (r: Fq)
    ensures
        r.wf(),
        r.value() == (a.value() + b.value()) % scalar_modulus(),
{
    let x = pallas::Scalar::from_raw([a.l0, a.l1, a.l2, a.l3]);
    let y = pallas::Scalar::from_raw([b.l0, b.l1, b.l2, b.l3]);
    let l = (x + y).to_le_bits().into_inner();
    Fq { l0: l[0], l1: l[1], l2: l[2], l3: l[3] }
}

/// `-` of `pallas::Scalar`: the difference of the two integers, reduced modulo `q`
/// into `[0, q)`. The operands go in by `from_raw` and the difference comes
/// back by `to_le_bits`.
#[verifier::external_body]
fn fq_sub(a: &Fq, b: &Fq) -> (r: Fq)
    ensures
        r.wf(),
        r.value() == (a.value() + scalar_modulus() - b.value()) % (scalar_modulus() as int),
{
    let x = pallas::Scalar::from_raw([a.l0, a.l1, a.l2, a.l3]);
    let y = pallas::Scalar::from_raw([b.l0, b.l1, b.l2, b.l3]);
    let l = (x - y).to_le_bits().into_inner();
    Fq { l0: l[0], l1: l[1], l2: l[2], l3: l[3] }
}

/// `*` of `pallas::Scalar`: the product of the two integers, reduced modulo `q`. The
/// modulus is prime, so the product of two non-zero elements is not zero.
/// The operands go in by `from_raw` and the product comes back by
/// `to_le_bits`.
#[verifier::external_body]
fn fq_mul(a: &Fq, b: &Fq) -> (r: Fq)
    ensures
        r.wf(),
        r.value() == (a.value() * b.value()) % scalar_modulus(),
        (r.value() == 0) == (a.value() == 0 || b.value() == 0),
{
    let x = pallas::Scalar::from_raw([a.l0, a.l1, a.l2, a.l3]);
    let y = pallas::Scalar::from_raw([b.l0, b.l1, b.l2, b.l3]);
    let l = (x * y).to_le_bits().into_inner();
    Fq { l0: l[0], l1: l[1], l2: l[2], l3: l[3] }
}

} // verus!
