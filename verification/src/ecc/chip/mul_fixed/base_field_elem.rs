//! Fixed-base multiplication by an element of the base field, taken as a
//! scalar. The base field is the smaller of the two fields, so the element
//! stands for the same integer as a scalar.

use crate::circuit::{Added, Cell, CellValue, Column, Enabled, Error, Layouter, Selector};
use crate::ecc::chip::mul_fixed::{usable, FixedBaseTable};
use crate::ecc::chip::{EccConfig, EccPoint, NUM_WINDOWS};
use crate::ecc::{fixed_product, value_of, FixedPoints};
use crate::field::scalar_modulus;
use crate::utilities::{lemma_pow8_values, pow8};
use vstd::prelude::*;

verus! {

/// The selector of multiplication by a base field element, the column in
/// which the element is checked to be canonical, and the columns shared with
/// the other fixed-base multiplications.
#[derive(Clone, Copy, Debug)]
pub struct Config {
    pub q_mul_fixed_base_field: Selector,
    pub canon: Column,
    pub super_config: crate::ecc::chip::mul_fixed::Config,
}

impl<'a> From<&'a EccConfig> for Config {
    /// The selector of multiplication by a base field element, the seventh
    /// advice column and the shared columns.
    fn from(config: &'a EccConfig) -> (r: Config) {
        Config {
            q_mul_fixed_base_field: config.q_mul_fixed_base_field,
            canon: config.advices[6],
            super_config: crate::ecc::chip::mul_fixed::Config::from(config),
        }
    }
}

impl<'a> vstd::std_specs::convert::FromSpecImpl<&'a EccConfig> for Config {
    open spec fn obeys_from_spec() -> bool {
        true
    }

    open spec fn from_spec(config: &'a EccConfig) -> Config {
        Config::of(*config)
    }
}

/// The names of the three regions of a multiplication by a base field
/// element.
pub open spec fn region_names() -> (&'static str, &'static str, &'static str) {
    (
        "Base-field elem fixed-base mul (incomplete addition)",
        "Base-field elem fixed-base mul (complete addition)",
        "Canonicity checks",
    )
}

impl Config {
    /// The configuration that the configuration of the chip gives.
    pub open spec fn of(config: EccConfig) -> Config {
        Config {
            q_mul_fixed_base_field: config.q_mul_fixed_base_field,
            canon: config.advices@[6],
            super_config: crate::ecc::chip::mul_fixed::Config::of(config),
        }
    }

    /// What the region of the canonicity check holds, in a region with
    /// index `index`: the selector on, and the element copied in.
    pub open spec fn canonicity_region(self, index: usize, scalar: CellValue) -> Added {
        let cell = Cell { region: index, row: 0, column: self.canon };
        Added {
            selectors: seq![Enabled { selector: self.q_mul_fixed_base_field, row: 0 }],
            advice: seq![CellValue { cell, value: scalar.value }],
            fixed: Seq::empty(),
            copies: seq![(scalar.cell, cell)],
        }
    }

    /// The layout after a multiplication: three more regions, those of the
    /// windows, of the last addition and of the canonicity check, which take
    /// `NUM_WINDOWS + 3` rows.
    pub open spec fn laid_out(
        self,
        before: Layouter,
        after: Layouter,
        table: FixedBaseTable,
        scalar: CellValue,
        product: EccPoint,
    ) -> bool {
        let count = before.regions@.len() as int;
        let free = (before.rows - before.used) as usize;
        let v = value_of(scalar.value);
        &&& after.rows == before.rows
        &&& after.used == before.used + NUM_WINDOWS + 3
        &&& after.regions@.len() == count + 3
        &&& after.regions@.take(count) == before.regions@
        &&& after.regions@[count].holds(
            region_names().0,
            count as usize,
            free,
            NUM_WINDOWS,
            self.super_config.windows_region(
                self.q_mul_fixed_base_field,
                count as usize,
                table,
                v,
            ),
        )
        &&& after.regions@[count + 1].holds(
            region_names().1,
            (count + 1) as usize,
            (free - NUM_WINDOWS) as usize,
            2,
            self.super_config.last_region(
                (count + 1) as usize,
                table,
                v,
                (product.spec_x(), product.spec_y()),
            ),
        )
        &&& after.regions@[count + 2].holds(
            region_names().2,
            (count + 2) as usize,
            (free - NUM_WINDOWS - 2) as usize,
            1,
            self.canonicity_region((count + 2) as usize, scalar),
        )
    }

    /// Lays out `[scalar] B` for the fixed base `B` of the table, where
    /// `scalar` is a witnessed element of the base field, and returns the
    /// product.
    ///
    /// Three regions are added: the two of the multiplication by the 85
    /// windows of the element, and one in which the element is copied next
    /// to the selector that checks it to be canonical. The product of a
    /// known element is the multiple of the generator by the integer of the
    /// element.
    ///
    /// Fails with `FixedBase` when the table is not one of
    /// `NUM_WINDOWS` windows, else with `Synthesis` when the circuit has
    /// fewer than `NUM_WINDOWS + 3` free rows; a failure changes nothing.
    pub fn assign_with_table(
        &self,
        layouter: &mut Layouter,
        scalar: CellValue,
        table: &FixedBaseTable,
    ) -> (r: Result<EccPoint, Error>)
        requires
            old(layouter).wf(),
        ensures
            final(layouter).wf(),
            r.is_ok() == (table.spec_num_windows() == NUM_WINDOWS && old(layouter).rows - old(
                layouter,
            ).used >= NUM_WINDOWS + 3),
            r matches Err(e) ==> *final(layouter) == *old(layouter) && e == (if table.spec_num_windows()
                != NUM_WINDOWS {
                Error::FixedBase
            } else {
                Error::Synthesis
            }),
            r matches Ok(product) ==> {
                let count = old(layouter).regions@.len() as int;
                let free = (old(layouter).rows - old(layouter).used) as usize;
                let v = value_of(scalar.value);
                &&& fixed_product(table.spec_base(), v, product.spec_point())
                &&& self.laid_out(*old(layouter), *final(layouter), *table, scalar, product)
            },
    {
        if table.num_windows() != NUM_WINDOWS {
            return Err(Error::FixedBase);
        }
        if layouter.rows - layouter.used < NUM_WINDOWS + 3 {
            return Err(Error::Synthesis);
        }
        let ghost start = *layouter;
        let ghost count = start.regions@.len() as int;
        let word: Option<[u64; 4]> = match &scalar.value {
            Some(elem) => {
                elem.canonical();
                Some(elem.to_raw())
            },
            None => None,
        };
        let (product, _) = match self.super_config.multiply(
            layouter,
            (
                "Base-field elem fixed-base mul (incomplete addition)",
                "Base-field elem fixed-base mul (complete addition)",
            ),
            self.q_mul_fixed_base_field,
            word,
            table,
        ) {
            Ok(r) => r,
            Err(e) => {
                return Err(e);
            },
        };
        proof {
            lemma_pow8_values();
            match scalar.value {
                Some(elem) => {
                    let v = elem.value();
                    vstd::arithmetic::div_mod::lemma_small_mod(v, pow8(NUM_WINDOWS as nat));
                    vstd::arithmetic::div_mod::lemma_small_mod(v, scalar_modulus());
                },
                None => {},
            }
        }
        let ghost middle = *layouter;
        let mut region = layouter.open_region("Canonicity checks");
        match region.enable(self.q_mul_fixed_base_field, 0) {
            Ok(()) => {},
            Err(e) => {
                return Err(e);
            },
        }
        match region.copy_advice(&scalar, self.canon, 0) {
            Ok(_) => {},
            Err(e) => {
                return Err(e);
            },
        }
        proof {
            let expected = self.canonicity_region((count + 2) as usize, scalar);
            region.records().lemma_same(expected);
        }
        layouter.close_region(region);
        proof {
            assert(layouter.regions@.take(count) =~= middle.regions@.take(count));
            assert(layouter.regions@[count] == middle.regions@[count]);
            assert(layouter.regions@[count + 1] == middle.regions@[count + 1]);
        }
        Ok(product)
    }

    /// Lays out `[scalar] base` and returns the product, as
    /// `assign_with_table` does for the table of `base`.
    ///
    /// Fails with `FixedBase` when the public data of `base` is not usable
    /// or is not for `NUM_WINDOWS` windows, else with `Synthesis` when the
    /// circuit has fewer than `NUM_WINDOWS + 3` free rows; a failure changes
    /// nothing.
    pub fn assign<Fixed: FixedPoints>(&self, layouter: &mut Layouter, scalar: CellValue, base: &Fixed) -> (r:
        Result<EccPoint, Error>)
        requires
            old(layouter).wf(),
        ensures
            final(layouter).wf(),
            r.is_ok() == (usable(base) && base.spec_u()@.len() == NUM_WINDOWS && old(
                layouter,
            ).rows - old(layouter).used >= NUM_WINDOWS + 3),
            r matches Err(e) ==> *final(layouter) == *old(layouter) && e == (if !usable(base)
                || base.spec_u()@.len() != NUM_WINDOWS {
                Error::FixedBase
            } else {
                Error::Synthesis
            }),
            r matches Ok(product) ==> {
                &&& fixed_product(
                    base.spec_generator(),
                    value_of(scalar.value),
                    product.spec_point(),
                )
                &&& exists|table: FixedBaseTable|
                    table.wf() && #[trigger] table.describes(base) && self.laid_out(
                        *old(layouter),
                        *final(layouter),
                        table,
                        scalar,
                        product,
                    )
            },
    {
        let table = match FixedBaseTable::load(base) {
            Some(table) => table,
            None => {
                return Err(Error::FixedBase);
            },
        };
        self.assign_with_table(layouter, scalar, &table)
    }
}

} // verus!
