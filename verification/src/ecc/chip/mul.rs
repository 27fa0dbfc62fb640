//! Variable-base scalar multiplication: the multiple of a witnessed point
//! by a witnessed element of the base field.

use crate::circuit::{Added, Cell, CellValue, Column, Enabled, Error, Layouter, Selector};
use crate::curve::AffinePoint;
use crate::ecc::chip::{EccConfig, EccPoint, NonIdentityEccPoint};
use crate::ecc::{product_known, value_of};
use crate::field::Fq;
use vstd::prelude::*;

verus! {

/// The columns and the selector of variable-base multiplication.
#[derive(Clone, Copy, Debug, PartialEq, Eq, Structural)]
pub struct Config {
    pub q_mul: Selector,
    /// The scalar.
    pub scalar: Column,
    /// The base.
    pub x_p: Column,
    pub y_p: Column,
    /// The product, in the row below the base.
    pub x_r: Column,
    pub y_r: Column,
}

/// The name of the region of a variable-base multiplication.
pub open spec fn region_name() -> &'static str {
    "variable-base scalar mul"
}

impl<'a> From<&'a EccConfig> for Config {
    /// The selector of variable-base multiplication, the first four advice
    /// columns for the points and the fifth for the scalar.
    fn from(config: &'a EccConfig) -> (r: Config) {
        Config {
            q_mul: config.q_mul,
            scalar: config.advices[4],
            x_p: config.advices[0],
            y_p: config.advices[1],
            x_r: config.advices[2],
            y_r: config.advices[3],
        }
    }
}

impl<'a> vstd::std_specs::convert::FromSpecImpl<&'a EccConfig> for Config {
    open spec fn obeys_from_spec() -> bool {
        true
    }

    open spec fn from_spec(config: &'a EccConfig) -> Config {
        Config::of(*config)
    }
}

impl Config {
    /// The configuration that the configuration of the chip gives.
    pub open spec fn of(config: EccConfig) -> Config {
        Config {
            q_mul: config.q_mul,
            scalar: config.advices@[4],
            x_p: config.advices@[0],
            y_p: config.advices@[1],
            x_r: config.advices@[2],
            y_r: config.advices@[3],
        }
    }

    /// What a multiplication lays out in a region with index `index`: the
    /// selector on in the first row, the scalar and the base copied into
    /// that row, and the product assigned in the row below.
    pub open spec fn laid_out(
        self,
        index: usize,
        alpha: CellValue,
        base: NonIdentityEccPoint,
        product: EccPoint,
    ) -> Added {
        let at = |column: Column| Cell { region: index, row: 0, column };
        Added {
            selectors: seq![Enabled { selector: self.q_mul, row: 0 }],
            advice: seq![
                CellValue { cell: at(self.scalar), value: alpha.value },
                CellValue { cell: at(self.x_p), value: base.spec_x().value },
                CellValue { cell: at(self.y_p), value: base.spec_y().value },
                product.spec_x(),
                product.spec_y(),
            ],
            fixed: Seq::empty(),
            copies: seq![
                (alpha.cell, at(self.scalar)),
                (base.spec_x().cell, at(self.x_p)),
                (base.spec_y().cell, at(self.y_p)),
            ],
        }
    }

    /// Lays out `[alpha] base` in a region of its own and returns the
    /// product with the cell of the scalar in that region.
    ///
    /// Fails only when the circuit has fewer than two free rows, and then
    /// changes nothing.
    pub fn assign(&self, layouter: &mut Layouter, alpha: &CellValue, base: &NonIdentityEccPoint) -> (r:
        Result<(EccPoint, CellValue), Error>)
        requires
            old(layouter).wf(),
        ensures
            final(layouter).wf(),
            r.is_ok() == (old(layouter).rows - old(layouter).used >= 2),
            r matches Err(e) ==> e == Error::Synthesis && *final(layouter) == *old(layouter),
            r matches Ok((product, scalar)) ==> {
                let count = old(layouter).regions@.len() as int;
                &&& product_known(
                    value_of(alpha.value),
                    base.spec_point(),
                    product.spec_point(),
                )
                &&& scalar == (CellValue {
                    cell: Cell { region: count as usize, row: 0, column: self.scalar },
                    value: alpha.value,
                })
                &&& product.spec_x().cell == (Cell {
                    region: count as usize,
                    row: 1,
                    column: self.x_r,
                })
                &&& product.spec_y().cell == (Cell {
                    region: count as usize,
                    row: 1,
                    column: self.y_r,
                })
                &&& final(layouter).rows == old(layouter).rows
                &&& final(layouter).used == old(layouter).used + 2
                &&& final(layouter).regions@.len() == count + 1
                &&& final(layouter).regions@.drop_last() == old(layouter).regions@
                &&& final(layouter).regions@.last().holds(
                    region_name(),
                    count as usize,
                    (old(layouter).rows - old(layouter).used) as usize,
                    2,
                    self.laid_out(count as usize, *alpha, *base, product),
                )
            },
    {
        if layouter.rows - layouter.used < 2 {
            return Err(Error::Synthesis);
        }
        let mut region = layouter.open_region("variable-base scalar mul");
        let value: Option<AffinePoint> = match (alpha.value, base.point()) {
            (Some(k), Some(b)) => Some(b.mul(&Fq::from_base(&k))),
            _ => None,
        };
        let product = EccPoint::from_cells(
            Cell { region: region.index, row: 1, column: self.x_r },
            Cell { region: region.index, row: 1, column: self.y_r },
            value,
        );
        match region.enable(self.q_mul, 0) {
            Ok(()) => {},
            Err(e) => {
                return Err(e);
            },
        }
        let scalar = match region.copy_advice(alpha, self.scalar, 0) {
            Ok(cell) => cell,
            Err(e) => {
                return Err(e);
            },
        };
        match region.copy_advice(&base.x(), self.x_p, 0) {
            Ok(_) => {},
            Err(e) => {
                return Err(e);
            },
        }
        match region.copy_advice(&base.y(), self.y_p, 0) {
            Ok(_) => {},
            Err(e) => {
                return Err(e);
            },
        }
        match region.assign_advice(self.x_r, 1, product.x().value) {
            Ok(_) => {},
            Err(e) => {
                return Err(e);
            },
        }
        match region.assign_advice(self.y_r, 1, product.y().value) {
            Ok(_) => {},
            Err(e) => {
                return Err(e);
            },
        }
        proof {
            let expected = self.laid_out(region.index, *alpha, *base, product);
            region.records().lemma_same(expected);
        }
        layouter.close_region(region);
        proof {
            assert(layouter.regions@.drop_last() =~= old(layouter).regions@);
        }
        Ok((product, scalar))
    }
}

} // verus!
