//! Incomplete addition: the sum of two points, neither the identity, that
//! are neither equal nor inverse to each other.

use crate::circuit::{Cell, Column, Error, Region, Selector};
use crate::curve::{is_negation, negation, AffinePoint};
use crate::ecc::chip::add::{added, addition};
use crate::ecc::sum_known;
use crate::ecc::chip::{EccConfig, NonIdentityEccPoint};
use vstd::prelude::*;

verus! {

/// The columns and the selector of incomplete addition.
#[derive(Clone, Copy, Debug, PartialEq, Eq, Structural)]
pub struct Config {
    pub q_add_incomplete: Selector,
    /// The first operand.
    pub x_p: Column,
    pub y_p: Column,
    /// The second operand, and in the row below it the sum.
    pub x_qr: Column,
    pub y_qr: Column,
}

/// The case that incomplete addition does not handle: two known points
/// that are equal or inverse to each other.
pub open spec fn exceptional(p: Option<AffinePoint>, q: Option<AffinePoint>) -> bool {
    match (p, q) {
        (Some(a), Some(b)) => a == b || a.coords() == negation(b.coords()),
        _ => false,
    }
}

/// Two known points are equal, or the first is the inverse of the second.
pub open spec fn collide(p: Option<AffinePoint>, q: Option<AffinePoint>) -> bool {
    match (p, q) {
        (Some(a), Some(b)) => a == b || is_negation(b, a),
        _ => false,
    }
}

/// Negating twice gives the same coordinates back.
pub proof fn lemma_negation_involutive(a: (nat, nat))
    requires
        a.1 < crate::field::base_modulus(),
    ensures
        negation(negation(a)) == a,
{
    let p = crate::field::base_modulus() as int;
    let y = a.1 as int;
    if y == 0 {
        vstd::arithmetic::div_mod::lemma_fundamental_div_mod_converse(p - y, p, 1, 0);
    } else {
        vstd::arithmetic::div_mod::lemma_fundamental_div_mod_converse(p - y, p, 0, p - y);
        vstd::arithmetic::div_mod::lemma_fundamental_div_mod_converse(p - (p - y), p, 0, y);
    }
}

/// Two points that incomplete addition does not add: one of them is the
/// identity, or they are equal or inverse to each other.
pub open spec fn unaddable(a: AffinePoint, b: AffinePoint) -> bool {
    a.is_identity_spec() || b.is_identity_spec() || a == b || a.coords() == negation(b.coords())
}

/// The sum `a + b` of two points that incomplete addition adds; `None` for
/// the others. The sum is not the identity.
pub fn add_points(a: &AffinePoint, b: &AffinePoint) -> (r: Option<AffinePoint>)
    ensures
        r.is_some() == !unaddable(*a, *b),
        r.is_none() ==> a.is_identity_spec() || b.is_identity_spec() || a == b || is_negation(
            *b,
            *a,
        ),
        r matches Some(s) ==> crate::curve::is_sum(*a, *b, s) && !s.is_identity_spec(),
{
    if a.is_identity() || b.is_identity() {
        return None;
    }
    let inverse = b.neg();
    proof {
        if a.coords() == inverse.coords() {
            AffinePoint::lemma_coords_injective(*a, inverse);
        }
    }
    a.valid();
    b.valid();
    if *a == *b || *a == inverse {
        return None;
    }
    let s = a.add(b);
    proof {
        lemma_negation_involutive(b.coords());
    }
    Some(s)
}

impl Config {
    /// The four columns, operands first.
    pub open spec fn columns(self) -> (Column, Column, Column, Column) {
        (self.x_p, self.y_p, self.x_qr, self.y_qr)
    }

    /// Lays out `p + q` at rows `offset` and `offset + 1` and returns the
    /// sum, which is not the identity.
    ///
    /// Fails when the region lacks one of the two rows, or when the points
    /// are known and are equal or inverse to each other; a failure changes
    /// nothing.
    pub fn assign_region(
        &self,
        p: &NonIdentityEccPoint,
        q: &NonIdentityEccPoint,
        offset: usize,
        region: &mut Region,
    ) -> (r: Result<NonIdentityEccPoint, Error>)
        requires
            old(region).wf(),
        ensures
            final(region).wf(),
            r.is_ok() == (offset + 1 < old(region).room && !exceptional(
                p.spec_point(),
                q.spec_point(),
            )),
            r matches Err(e) ==> e == Error::Synthesis && *final(region) == *old(region) && (offset
                + 1 < old(region).room ==> collide(p.spec_point(), q.spec_point())),
            r matches Ok(sum) ==> sum_known(p.spec_point(), q.spec_point(), sum.spec_point())
                && added(
                self.q_add_incomplete,
                self.columns(),
                *old(region),
                offset,
                (p.spec_x(), p.spec_y()),
                (q.spec_x(), q.spec_y()),
                (sum.spec_x(), sum.spec_y()),
                *final(region),
            ),
    {
        if offset >= region.room || offset + 1 >= region.room {
            return Err(Error::Synthesis);
        }
        let value = match (p.point(), q.point()) {
            (Some(a), Some(b)) => {
                match add_points(&a, &b) {
                    Some(s) => Some(s),
                    None => {
                        return Err(Error::Synthesis);
                    },
                }
            },
            _ => None,
        };
        let sum = match NonIdentityEccPoint::from_cells(
            Cell { region: region.index, row: offset + 1, column: self.x_qr },
            Cell { region: region.index, row: offset + 1, column: self.y_qr },
            value,
        ) {
            Some(sum) => sum,
            None => {
                return Err(Error::Synthesis);
            },
        };
        match region.enable(self.q_add_incomplete, offset) {
            Ok(()) => {},
            Err(e) => {
                return Err(e);
            },
        }
        match region.copy_advice(&p.x(), self.x_p, offset) {
            Ok(_) => {},
            Err(e) => {
                return Err(e);
            },
        }
        match region.copy_advice(&p.y(), self.y_p, offset) {
            Ok(_) => {},
            Err(e) => {
                return Err(e);
            },
        }
        match region.copy_advice(&q.x(), self.x_qr, offset) {
            Ok(_) => {},
            Err(e) => {
                return Err(e);
            },
        }
        match region.copy_advice(&q.y(), self.y_qr, offset) {
            Ok(_) => {},
            Err(e) => {
                return Err(e);
            },
        }
        match region.assign_advice(self.x_qr, offset + 1, sum.x().value) {
            Ok(_) => {},
            Err(e) => {
                return Err(e);
            },
        }
        match region.assign_advice(self.y_qr, offset + 1, sum.y().value) {
            Ok(_) => {},
            Err(e) => {
                return Err(e);
            },
        }
        proof {
            let expected = addition(
                self.q_add_incomplete,
                self.columns(),
                old(region).index,
                offset,
                (p.spec_x(), p.spec_y()),
                (q.spec_x(), q.spec_y()),
                (sum.spec_x(), sum.spec_y()),
            );
            region.records().lemma_same(old(region).records().followed_by(expected));
        }
        Ok(sum)
    }
}

impl<'a> From<&'a EccConfig> for Config {
    /// The selector of incomplete addition and the first four advice columns.
    fn from(config: &'a EccConfig) -> (r: Config) {
        Config {
            q_add_incomplete: config.q_add_incomplete,
            x_p: config.advices[0],
            y_p: config.advices[1],
            x_qr: config.advices[2],
            y_qr: config.advices[3],
        }
    }
}

impl<'a> vstd::std_specs::convert::FromSpecImpl<&'a EccConfig> for Config {
    open spec fn obeys_from_spec() -> bool {
        true
    }

    open spec fn from_spec(config: &'a EccConfig) -> Config {
        Config::of(*config)
    }
}

impl Config {
    /// The configuration that the configuration of the chip gives.
    pub open spec fn of(config: EccConfig) -> Config {
        Config {
            q_add_incomplete: config.q_add_incomplete,
            x_p: config.advices@[0],
            y_p: config.advices@[1],
            x_qr: config.advices@[2],
            y_qr: config.advices@[3],
        }
    }
}

} // verus!
