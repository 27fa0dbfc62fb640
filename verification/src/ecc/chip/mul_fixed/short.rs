//! Fixed-base multiplication by a signed short scalar: a magnitude of at
//! most 64 bits, split into 22 windows, and a sign, `1` or `-1`.

use crate::circuit::{Added, Cell, CellValue, Column, Enabled, Error, Layouter, Selector};
use crate::curve::{is_negation, pallas_mul, point_at, AffinePoint};
use crate::ecc::chip::mul_fixed::{usable, windowed_scalar, FixedBaseTable};
use crate::ecc::chip::{
    point_cells, window_values, EccConfig, EccPoint, EccScalarFixedShort, NUM_WINDOWS_SHORT,
};
use crate::ecc::{short_product, value_of, FixedPoints};
use crate::field::{base_modulus, Fp};
use vstd::prelude::*;

verus! {

/// The selector of short multiplication and the columns shared with the
/// other fixed-base multiplications.
#[derive(Clone, Copy, Debug)]
pub struct Config {
    pub q_mul_fixed_short: Selector,
    pub super_config: crate::ecc::chip::mul_fixed::Config,
}

impl<'a> From<&'a EccConfig> for Config {
    /// The selector of short multiplication and the shared columns.
    fn from(config: &'a EccConfig) -> (r: Config) {
        Config {
            q_mul_fixed_short: config.q_mul_fixed_short,
            super_config: crate::ecc::chip::mul_fixed::Config::from(config),
        }
    }
}

impl<'a> vstd::std_specs::convert::FromSpecImpl<&'a EccConfig> for Config {
    open spec fn obeys_from_spec() -> bool {
        true
    }

    open spec fn from_spec(config: &'a EccConfig) -> Config {
        Config::of(*config)
    }
}

/// The names of the three regions of a short multiplication.
pub open spec fn region_names() -> (&'static str, &'static str, &'static str) {
    (
        "Short fixed-base mul (incomplete addition)",
        "Short fixed-base mul (most significant word)",
        "Signed short fixed-base mul",
    )
}

/// The product by the magnitude, if the magnitude is known: the multiple of
/// the generator by the low 66 bits of the magnitude.
pub open spec fn unsigned_product(g: AffinePoint, magnitude: Option<nat>) -> Option<AffinePoint> {
    match windowed_scalar(magnitude, NUM_WINDOWS_SHORT as nat) {
        Some(k) => Some(point_at(pallas_mul(g.coords().0, g.coords().1, k))),
        None => None,
    }
}

/// The product by a signed scalar, from the product by its magnitude: the
/// inverse when the sign is `-1`, the same point otherwise.
pub open spec fn signed(sign: Option<Fp>, unsigned: Option<AffinePoint>, r: Option<
    AffinePoint,
>) -> bool {
    match (sign, unsigned) {
        (Some(s), Some(p)) => r matches Some(n) && n.wf() && (if s.value() + 1 == base_modulus() {
            is_negation(p, n)
        } else {
            n == p
        }),
        _ => r.is_none(),
    }
}

impl Config {
    /// The configuration that the configuration of the chip gives.
    pub open spec fn of(config: EccConfig) -> Config {
        Config {
            q_mul_fixed_short: config.q_mul_fixed_short,
            super_config: crate::ecc::chip::mul_fixed::Config::of(config),
        }
    }

    /// The cells of the product by the magnitude, which is the sum laid out
    /// in the region with index `index`.
    pub open spec fn unsigned_cells(self, index: usize, table: FixedBaseTable, magnitude: Option<
        nat,
    >) -> (CellValue, CellValue) {
        point_cells(
            index,
            1,
            (self.super_config.add_config.x_qr, self.super_config.add_config.y_qr),
            unsigned_product(table.spec_base(), magnitude),
        )
    }

    /// What the region of the sign holds, in a region with index `index`:
    /// the selector on, the sign and the product by the magnitude copied in,
    /// and the signed product assigned in the row below.
    pub open spec fn sign_region(
        self,
        index: usize,
        sign: CellValue,
        unsigned: (CellValue, CellValue),
        product: (CellValue, CellValue),
    ) -> Added {
        let at = |column: Column| Cell { region: index, row: 0, column };
        Added {
            selectors: seq![Enabled { selector: self.q_mul_fixed_short, row: 0 }],
            advice: seq![
                CellValue { cell: at(self.super_config.window), value: sign.value },
                CellValue { cell: at(self.super_config.x_p), value: unsigned.0.value },
                CellValue { cell: at(self.super_config.y_p), value: unsigned.1.value },
                product.0,
                product.1,
            ],
            fixed: Seq::empty(),
            copies: seq![
                (sign.cell, at(self.super_config.window)),
                (unsigned.0.cell, at(self.super_config.x_p)),
                (unsigned.1.cell, at(self.super_config.y_p)),
            ],
        }
    }

    /// The product by a signed scalar from the product by its magnitude,
    /// laid out in a region of its own.
    fn assign_sign(&self, layouter: &mut Layouter, sign: &CellValue, unsigned: &EccPoint) -> (r:
        EccPoint)
        requires
            old(layouter).wf(),
            old(layouter).rows - old(layouter).used >= 2,
        ensures
            final(layouter).wf(),
            signed(sign.value, unsigned.spec_point(), r.spec_point()),
            r.spec_x().cell == (Cell {
                region: old(layouter).regions@.len() as usize,
                row: 1,
                column: self.super_config.x_p,
            }),
            r.spec_y().cell == (Cell {
                region: old(layouter).regions@.len() as usize,
                row: 1,
                column: self.super_config.y_p,
            }),
            final(layouter).rows == old(layouter).rows,
            final(layouter).used == old(layouter).used + 2,
            final(layouter).regions@ == old(layouter).regions@.push(
                final(layouter).regions@.last(),
            ),
            final(layouter).regions@.last().holds(
                region_names().2,
                old(layouter).regions@.len() as usize,
                (old(layouter).rows - old(layouter).used) as usize,
                2,
                self.sign_region(
                    old(layouter).regions@.len() as usize,
                    *sign,
                    (unsigned.spec_x(), unsigned.spec_y()),
                    (r.spec_x(), r.spec_y()),
                ),
            ),
    {
        let mut region = layouter.open_region("Signed short fixed-base mul");
        let minus_one = Fp::zero().sub(&Fp::one());
        proof {
            vstd::arithmetic::div_mod::lemma_small_mod(
                (base_modulus() - 1) as nat,
                base_modulus(),
            );
        }
        // Conditionally negate the y-coordinate.
        let value: Option<AffinePoint> = match (sign.value, unsigned.point()) {
            (Some(s), Some(p)) => {
                proof {
                    if s.value() == minus_one.value() {
                        Fp::lemma_value_injective(s, minus_one);
                    }
                }
                if s == minus_one {
                    Some(p.neg())
                } else {
                    Some(p)
                }
            },
            _ => None,
        };
        let product = EccPoint::from_cells(
            Cell { region: region.index, row: 1, column: self.super_config.x_p },
            Cell { region: region.index, row: 1, column: self.super_config.y_p },
            value,
        );
        match region.enable(self.q_mul_fixed_short, 0) {
            Ok(()) => {},
            Err(_) => {},
        }
        match region.copy_advice(sign, self.super_config.window, 0) {
            Ok(_) => {},
            Err(_) => {},
        }
        match region.copy_advice(&unsigned.x(), self.super_config.x_p, 0) {
            Ok(_) => {},
            Err(_) => {},
        }
        match region.copy_advice(&unsigned.y(), self.super_config.y_p, 0) {
            Ok(_) => {},
            Err(_) => {},
        }
        match region.assign_advice(self.super_config.x_p, 1, product.x().value) {
            Ok(_) => {},
            Err(_) => {},
        }
        match region.assign_advice(self.super_config.y_p, 1, product.y().value) {
            Ok(_) => {},
            Err(_) => {},
        }
        proof {
            let expected = self.sign_region(
                region.index,
                *sign,
                (unsigned.spec_x(), unsigned.spec_y()),
                (product.spec_x(), product.spec_y()),
            );
            region.records().lemma_same(expected);
        }
        layouter.close_region(region);
        product
    }

    /// The layout after a multiplication: three more regions, those of the
    /// windows, of the last addition and of the sign, which take
    /// `NUM_WINDOWS_SHORT + 4` rows; the signed product stands in the second
    /// row of the last.
    pub open spec fn laid_out(
        self,
        before: Layouter,
        after: Layouter,
        table: FixedBaseTable,
        magnitude_sign: (CellValue, CellValue),
        product: EccPoint,
    ) -> bool {
        let count = before.regions@.len() as int;
        let free = (before.rows - before.used) as usize;
        let v = value_of(magnitude_sign.0.value);
        &&& after.rows == before.rows
        &&& after.used == before.used + NUM_WINDOWS_SHORT + 4
        &&& after.regions@.len() == count + 3
        &&& after.regions@.take(count) == before.regions@
        &&& after.regions@[count].holds(
            region_names().0,
            count as usize,
            free,
            NUM_WINDOWS_SHORT,
            self.super_config.windows_region(self.q_mul_fixed_short, count as usize, table, v),
        )
        &&& after.regions@[count + 1].holds(
            region_names().1,
            (count + 1) as usize,
            (free - NUM_WINDOWS_SHORT) as usize,
            2,
            self.super_config.last_region(
                (count + 1) as usize,
                table,
                v,
                self.unsigned_cells((count + 1) as usize, table, v),
            ),
        )
        &&& after.regions@[count + 2].holds(
            region_names().2,
            (count + 2) as usize,
            (free - NUM_WINDOWS_SHORT - 2) as usize,
            2,
            self.sign_region(
                (count + 2) as usize,
                magnitude_sign.1,
                self.unsigned_cells((count + 1) as usize, table, v),
                (product.spec_x(), product.spec_y()),
            ),
        )
        &&& product.spec_x().cell == (Cell {
            region: (count + 2) as usize,
            row: 1,
            column: self.super_config.x_p,
        })
        &&& product.spec_y().cell == (Cell {
            region: (count + 2) as usize,
            row: 1,
            column: self.super_config.y_p,
        })
    }

    /// Lays out `[magnitude * sign] B` for the fixed base `B` of the table
    /// and returns the product with the witnessed scalar.
    ///
    /// Three regions are added: the two of the multiplication by the 22
    /// windows of the magnitude, and one in which the product is negated if
    /// the sign is `-1`. Neither the magnitude nor the sign is checked here:
    /// a magnitude of more than 66 bits counts by its low 66 bits, and a
    /// sign other than `-1` counts as `1`.
    ///
    /// Fails with `FixedBase` when the table is not one of
    /// `NUM_WINDOWS_SHORT` windows, else with `Synthesis` when the circuit has
    /// fewer than `NUM_WINDOWS_SHORT + 4` free rows; a failure changes nothing.
    pub fn assign_with_table(
        &self,
        layouter: &mut Layouter,
        magnitude_sign: (CellValue, CellValue),
        table: &FixedBaseTable,
    ) -> (r: Result<(EccPoint, EccScalarFixedShort), Error>)
        requires
            old(layouter).wf(),
        ensures
            final(layouter).wf(),
            r.is_ok() == (table.spec_num_windows() == NUM_WINDOWS_SHORT && old(layouter).rows
                - old(layouter).used >= NUM_WINDOWS_SHORT + 4),
            r matches Err(e) ==> *final(layouter) == *old(layouter) && e == (if table.spec_num_windows()
                != NUM_WINDOWS_SHORT {
                Error::FixedBase
            } else {
                Error::Synthesis
            }),
            r matches Ok((product, scalar)) ==> {
                let count = old(layouter).regions@.len() as int;
                let free = (old(layouter).rows - old(layouter).used) as usize;
                let v = value_of(magnitude_sign.0.value);
                &&& scalar.magnitude == magnitude_sign.0
                &&& scalar.sign == magnitude_sign.1
                &&& scalar.windows@ == crate::circuit::column_cells(
                    count as usize,
                    self.super_config.window,
                    0,
                    window_values(v, NUM_WINDOWS_SHORT as nat),
                )
                &&& short_product(
                    table.spec_base(),
                    v,
                    value_of(magnitude_sign.1.value),
                    product.spec_point(),
                )
                &&& self.laid_out(
                    *old(layouter),
                    *final(layouter),
                    *table,
                    magnitude_sign,
                    product,
                )
            },
    {
        if table.num_windows() != NUM_WINDOWS_SHORT {
            return Err(Error::FixedBase);
        }
        if layouter.rows - layouter.used < NUM_WINDOWS_SHORT + 4 {
            return Err(Error::Synthesis);
        }
        let generator = table.generator();
        let ghost start = *layouter;
        let ghost count = start.regions@.len() as int;
        let ghost g = table.spec_base();
        let (magnitude, sign) = magnitude_sign;
        let word: Option<[u64; 4]> = match &magnitude.value {
            Some(elem) => Some(elem.to_raw()),
            None => None,
        };
        let (unsigned, windows) = match self.super_config.multiply(
            layouter,
            (
                "Short fixed-base mul (incomplete addition)",
                "Short fixed-base mul (most significant word)",
            ),
            self.q_mul_fixed_short,
            word,
            table,
        ) {
            Ok(r) => r,
            Err(e) => {
                return Err(e);
            },
        };
        let ghost middle = *layouter;
        let product = self.assign_sign(layouter, &sign, &unsigned);
        proof {
            assert(layouter.regions@.take(count) =~= middle.regions@.take(count));
            assert(layouter.regions@[count] == middle.regions@[count]);
            assert(layouter.regions@[count + 1] == middle.regions@[count + 1]);
            use_type_invariant(&unsigned);
            unsigned.lemma_coordinates();
            match unsigned.spec_point() {
                Some(p) => {
                    p.lemma_point_at();
                },
                None => {},
            }
            assert((unsigned.spec_x(), unsigned.spec_y()) == self.unsigned_cells(
                (count + 1) as usize,
                *table,
                value_of(magnitude.value),
            ));
        }
        Ok((product, EccScalarFixedShort { magnitude, sign, windows }))
    }

    /// Lays out `[magnitude * sign] base` and returns the product with the
    /// witnessed scalar, as `assign_with_table` does for the table of
    /// `base`.
    ///
    /// Fails with `FixedBase` when the public data of `base` is not usable
    /// or is not for `NUM_WINDOWS_SHORT` windows, else with `Synthesis` when the
    /// circuit has fewer than `NUM_WINDOWS_SHORT + 4` free rows; a failure changes
    /// nothing.
    pub fn assign<Fixed: FixedPoints>(
        &self,
        layouter: &mut Layouter,
        magnitude_sign: (CellValue, CellValue),
        base: &Fixed,
    ) -> (r: Result<(EccPoint, EccScalarFixedShort), Error>)
        requires
            old(layouter).wf(),
        ensures
            final(layouter).wf(),
            r.is_ok() == (usable(base) && base.spec_u()@.len() == NUM_WINDOWS_SHORT && old(
                layouter,
            ).rows - old(layouter).used >= NUM_WINDOWS_SHORT + 4),
            r matches Err(e) ==> *final(layouter) == *old(layouter) && e == (if !usable(base)
                || base.spec_u()@.len() != NUM_WINDOWS_SHORT {
                Error::FixedBase
            } else {
                Error::Synthesis
            }),
            r matches Ok((product, scalar)) ==> {
                &&& scalar.magnitude == magnitude_sign.0
                &&& scalar.sign == magnitude_sign.1
                &&& scalar.windows@ == crate::circuit::column_cells(
                    old(layouter).regions@.len() as usize,
                    self.super_config.window,
                    0,
                    window_values(value_of(magnitude_sign.0.value), NUM_WINDOWS_SHORT as nat),
                )
                &&& short_product(
                    base.spec_generator(),
                    value_of(magnitude_sign.0.value),
                    value_of(magnitude_sign.1.value),
                    product.spec_point(),
                )
                &&& exists|table: FixedBaseTable|
                    table.wf() && #[trigger] table.describes(base) && self.laid_out(
                        *old(layouter),
                        *final(layouter),
                        table,
                        magnitude_sign,
                        product,
                    )
            },
    {
        let table = match FixedBaseTable::load(base) {
            Some(table) => table,
            None => {
                return Err(Error::FixedBase);
            },
        };
        self.assign_with_table(layouter, magnitude_sign, &table)
    }
}

} // verus!
