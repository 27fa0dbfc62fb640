//! Fixed-base multiplication by a full-width scalar: an element of the
//! scalar field, split into 85 windows.

use crate::circuit::{
    column_cells, height_with, selector_rows, Added, CellValue, Error, Layouter, Region, Selector,
};
use crate::constraints::{Constraint, ConstraintSystem, Expression, Row};
use crate::curve::pallas_mul;
use crate::ecc::chip::add::addition;
use crate::ecc::chip::mul_fixed::{
    acc_scalar, lemma_acc_bounds, lemma_scalars_sum, multiplied, usable, window_scalar,
    FixedBaseTable,
};
use crate::ecc::chip::{
    window_cells, window_values, windows_of, EccConfig, EccPoint, EccScalarFixed, NUM_WINDOWS,
};
use crate::ecc::scalar_of;
use crate::ecc::FixedPoints;
use crate::field::{scalar_modulus, Fp, Fq};
use crate::utilities::{
    decompose_word, lemma_pow8_values, lemma_range_check, lemma_windows_of, pow8, range_check,
    range_expr, window_of,
};
use arrayvec::ArrayVec;
use vstd::prelude::*;

verus! {

/// The selector of full-width multiplication and the columns it shares with
/// the other fixed-base multiplications.
#[derive(Clone, Copy, Debug)]
pub struct Config {
    pub q_mul_fixed_full: Selector,
    pub super_config: crate::ecc::chip::mul_fixed::Config,
}

/// The name of the region that holds the windows.
pub open spec fn windows_region_name() -> &'static str {
    "Full-width fixed-base mul (incomplete addition)"
}

/// The name of the region that holds the last, complete addition.
pub open spec fn last_region_name() -> &'static str {
    "Full-width fixed-base mul (last window, complete addition)"
}

impl Config {
    /// The polynomials that full-width multiplication enforces on its rows:
    /// those that tie the point of a row to its window, and the one that
    /// keeps the window within three bits, each under its selector.
    pub open spec fn spec_gate(self) -> Seq<Constraint> {
        let q = Expression::Selector(self.q_mul_fixed_full);
        let window = Expression::Advice(self.super_config.window);
        self.super_config.spec_coords_check(q, window).push(
            Constraint {
                name: "window range check",
                poly: Expression::Product(Box::new(q), Box::new(range_expr(window, 8))),
            },
        )
    }

    /// On a row where the selector of full-width multiplication is on, the
    /// window range check vanishes exactly when the window holds a value
    /// below eight: no other value of a window satisfies the constraints.
    pub proof fn lemma_window_range_enforced(self, row: Row)
        requires
            row.wf(),
            row.enabled(self.q_mul_fixed_full),
        ensures
            self.spec_gate().last().name == "window range check",
            self.spec_gate().last().poly.vanishes(row) <==> row.advice_value(
                self.super_config.window,
            ).value() < 8,
    {
        reveal_with_fuel(Expression::vanishes, 2);
        reveal_with_fuel(Expression::eval, 2);
        lemma_range_check(self.super_config.window, 8, row);
    }

    /// Adds a gate with the polynomials of full-width multiplication to the
    /// constraint system.
    pub fn create_gate(&self, meta: &mut ConstraintSystem)
        ensures
            final(meta).gates@.len() == old(meta).gates@.len() + 1,
            final(meta).gates@.drop_last() == old(meta).gates@,
            final(meta).gates@.last().name == "Full-width fixed-base scalar mul",
            final(meta).gates@.last().constraints@ == self.spec_gate(),
            forall|i: int|
                0 <= i < self.spec_gate().len() ==> (#[trigger] self.spec_gate()[i]).poly.wf(),
    {
        // Check that each window `k` is within 3 bits
        let q_mul_fixed_full = Expression::Selector(self.q_mul_fixed_full);
        let window = Expression::Advice(self.super_config.window);
        let mut constraints = self.super_config.coords_check(
            q_mul_fixed_full.duplicate(),
            window.duplicate(),
        );
        // Constrain each window to a 3-bit value:
        // 1 * (window - 0) * (window - 1) * ... * (window - 7)
        let range = range_check(window, crate::ecc::H);
        proof {
            reveal_with_fuel(Expression::wf, 2);
        }
        constraints.push(
            Constraint { name: "window range check", poly: q_mul_fixed_full.times(range) },
        );
        meta.create_gate("Full-width fixed-base scalar mul", constraints);
        proof {
            assert(meta.gates@.drop_last() =~= old(meta).gates@);
        }
    }

    /// What witnessing a scalar lays out from row `offset` on: the selector
    /// on and the value of a window assigned, in one row for each window.
    pub open spec fn witnessed(self, index: usize, offset: usize, scalar: Option<Fq>) -> Added {
        Added {
            selectors: selector_rows(self.q_mul_fixed_full, offset, NUM_WINDOWS as nat),
            advice: column_cells(
                index,
                self.super_config.window,
                offset,
                window_values(scalar_of(scalar), NUM_WINDOWS as nat),
            ),
            fixed: Seq::empty(),
            copies: Seq::empty(),
        }
    }

    /// Witnesses the given scalar as `NUM_WINDOWS` 3-bit windows, least
    /// significant first, in the rows from `offset` on, and switches the
    /// selector on in each of these rows.
    ///
    /// Fails only when the region lacks one of the rows, and then changes
    /// nothing.
    pub fn decompose_scalar_fixed(
        &self,
        scalar: Option<Fq>,
        offset: usize,
        region: &mut Region,
    ) -> (r: Result<ArrayVec<CellValue, NUM_WINDOWS>, Error>)
        requires
            old(region).wf(),
        ensures
            final(region).wf(),
            r.is_ok() == (offset + NUM_WINDOWS <= old(region).room),
            r matches Err(e) ==> e == Error::Synthesis && *final(region) == *old(region),
            r matches Ok(cells) ==> window_cells(cells) == self.witnessed(
                old(region).index,
                offset,
                scalar,
            ).advice && Region::extends(
                *old(region),
                *final(region),
                height_with(old(region).height, (offset + NUM_WINDOWS - 1) as usize),
                self.witnessed(old(region).index, offset, scalar),
            ),
    {
        if offset > usize::MAX - NUM_WINDOWS || offset + NUM_WINDOWS > region.room {
            return Err(Error::Synthesis);
        }
        let ghost start = *region;
        // Enable the selector in the row of each window.
        region.enable_rows(self.q_mul_fixed_full, offset, NUM_WINDOWS);
        // Decompose the scalar into 3-bit windows.
        let scalar_windows: Option<Vec<u8>> = match scalar {
            Some(s) => Some(decompose_word(s.to_raw(), NUM_WINDOWS)),
            None => None,
        };
        let mut values: Vec<Option<Fp>> = Vec::new();
        let mut idx: usize = 0;
        while idx < NUM_WINDOWS
            invariant
                idx <= NUM_WINDOWS,
                scalar_windows.is_some() == scalar.is_some(),
                scalar_windows matches Some(ws) ==> ws@.len() == NUM_WINDOWS && forall|i: int|
                    0 <= i < NUM_WINDOWS ==> #[trigger] ws@[i] == window_of(
                        scalar.unwrap().value(),
                        i as nat,
                    ),
                values@.len() == idx,
                forall|i: int|
                    0 <= i < idx ==> #[trigger] values@[i] == window_values(
                        scalar_of(scalar),
                        NUM_WINDOWS as nat,
                    )[i],
            decreases NUM_WINDOWS - idx,
        {
            match &scalar_windows {
                Some(ws) => {
                    values.push(Some(Fp::from_u64(ws[idx] as u64)));
                },
                None => {
                    values.push(None);
                },
            }
            idx = idx + 1;
        }
        proof {
            assert(values@ =~= window_values(scalar_of(scalar), NUM_WINDOWS as nat));
        }
        // Store the scalar decomposition.
        let cells = region.assign_column(self.super_config.window, offset, &values);
        let windows = EccScalarFixed::collect(&cells);
        proof {
            let expected = self.witnessed(start.index, offset, scalar);
            region.records().lemma_same(start.records().followed_by(expected));
        }
        Ok(windows)
    }

    /// Witnesses the given scalar as `NUM_WINDOWS` 3-bit windows.
    ///
    /// Fails only when the region lacks one of the rows, and then changes
    /// nothing.
    pub fn witness(&self, region: &mut Region, offset: usize, scalar: Option<Fq>) -> (r: Result<
        EccScalarFixed,
        Error,
    >)
        requires
            old(region).wf(),
        ensures
            final(region).wf(),
            r.is_ok() == (offset + NUM_WINDOWS <= old(region).room),
            r matches Err(e) ==> e == Error::Synthesis && *final(region) == *old(region),
            r matches Ok(fixed) ==> fixed.value == scalar && window_cells(fixed.windows)
                == self.witnessed(old(region).index, offset, scalar).advice && Region::extends(
                *old(region),
                *final(region),
                height_with(old(region).height, (offset + NUM_WINDOWS - 1) as usize),
                self.witnessed(old(region).index, offset, scalar),
            ),
    {
        let windows = match self.decompose_scalar_fixed(scalar, offset, region) {
            Ok(windows) => windows,
            Err(e) => {
                return Err(e);
            },
        };
        Ok(EccScalarFixed { value: scalar, windows })
    }
}

impl Config {
    /// What the region of the windows holds, in a region with index
    /// `index`: the witnessed scalar, then the rows of the multiplication.
    pub open spec fn windows_region(
        self,
        index: usize,
        table: FixedBaseTable,
        scalar: Option<Fq>,
    ) -> Added {
        self.witnessed(index, 0, scalar).followed_by(
            self.super_config.laid_out(
                self.q_mul_fixed_full,
                index,
                0,
                table,
                windows_of(scalar_of(scalar), NUM_WINDOWS as nat),
            ),
        )
    }

    /// What the region of the last addition holds, in a region with index
    /// `index` that follows the region of the windows: the point of the last
    /// window and the running sum, copied in from the last row of that
    /// region, and their sum `product`.
    pub open spec fn last_region(
        self,
        index: usize,
        table: FixedBaseTable,
        scalar: Option<Fq>,
        product: EccPoint,
    ) -> Added {
        self.super_config.last_region(
            index,
            table,
            scalar_of(scalar),
            (product.spec_x(), product.spec_y()),
        )
    }

    /// The layout after a multiplication: two more regions, the region of
    /// the windows and the region of the last addition, which take
    /// `NUM_WINDOWS + 2` rows.
    pub open spec fn laid_out(
        self,
        before: Layouter,
        after: Layouter,
        table: FixedBaseTable,
        scalar: Option<Fq>,
        product: EccPoint,
    ) -> bool {
        let count = before.regions@.len() as int;
        let free = (before.rows - before.used) as usize;
        &&& after.rows == before.rows
        &&& after.used == before.used + NUM_WINDOWS + 2
        &&& after.regions@.len() == count + 2
        &&& after.regions@.take(count) == before.regions@
        &&& after.regions@[count].holds(
            windows_region_name(),
            count as usize,
            free,
            NUM_WINDOWS,
            self.windows_region(count as usize, table, scalar),
        )
        &&& after.regions@[count + 1].holds(
            last_region_name(),
            (count + 1) as usize,
            (free - NUM_WINDOWS) as usize,
            2,
            self.last_region((count + 1) as usize, table, scalar, product),
        )
    }

    /// Lays out `[scalar] B` for the fixed base `B` of the table, and
    /// returns the product with the witnessed scalar.
    ///
    /// Two regions are added: one with a row for each window, in which the
    /// points of the windows but the last are summed by incomplete addition,
    /// and one in which the point of the last window is added by complete
    /// addition. The product of a known scalar is `[scalar] B`, the identity
    /// for the scalar zero; the product of an unknown scalar is unknown.
    ///
    /// Fails with `FixedBase` when the table is not one of
    /// `NUM_WINDOWS` windows, else with `Synthesis` when the circuit has
    /// fewer than `NUM_WINDOWS + 2` free rows; a failure changes nothing.
    pub fn assign_with_table(
        &self,
        layouter: &mut Layouter,
        scalar: Option<Fq>,
        table: &FixedBaseTable,
    ) -> (r: Result<(EccPoint, EccScalarFixed), Error>)
        requires
            old(layouter).wf(),
        ensures
            final(layouter).wf(),
            r.is_ok() == (table.spec_num_windows() == NUM_WINDOWS && old(layouter).rows - old(
                layouter,
            ).used >= NUM_WINDOWS + 2),
            r matches Err(e) ==> *final(layouter) == *old(layouter) && e == (if table.spec_num_windows()
                != NUM_WINDOWS {
                Error::FixedBase
            } else {
                Error::Synthesis
            }),
            r matches Ok((product, fixed)) ==> {
                let count = old(layouter).regions@.len() as int;
                let free = (old(layouter).rows - old(layouter).used) as usize;
                let g = table.spec_base();
                &&& fixed.value == scalar
                &&& window_cells(fixed.windows) == self.witnessed(count as usize, 0, scalar).advice
                &&& match scalar {
                    Some(s) => product.spec_point() matches Some(p) && p.wf() && p.coords()
                        == pallas_mul(g.coords().0, g.coords().1, s.value()) && (s.value() == 0
                        ==> p.is_identity_spec()),
                    None => product.spec_point().is_none(),
                }
                &&& self.laid_out(*old(layouter), *final(layouter), *table, scalar, product)
            },
    {
        if table.num_windows() != NUM_WINDOWS {
            return Err(Error::FixedBase);
        }
        if layouter.rows - layouter.used < NUM_WINDOWS + 2 {
            return Err(Error::Synthesis);
        }
        match &scalar {
            Some(s) => {
                s.canonical();
            },
            None => {},
        }
        let generator = table.generator();
        let ghost start = *layouter;
        let ghost count = start.regions@.len();
        let ghost g = table.spec_base();
        let ghost sv = scalar_of(scalar);
        let mut region = layouter.open_region("Full-width fixed-base mul (incomplete addition)");
        let ghost opened = region;
        let fixed = match self.witness(&mut region, 0, scalar) {
            Ok(fixed) => fixed,
            Err(e) => {
                return Err(e);
            },
        };
        let ghost witnessed = region;
        let windows = fixed.windows_usize();
        proof {
            broadcast use Fp::lemma_from_u64;

            let cells = window_cells(fixed.windows);
            match scalar {
                Some(s) => {
                    let v = s.value();
                    assert forall|i: int| 0 <= i < cells.len() implies (#[trigger] cells[i]).value.is_some()
                        && cells[i].value.unwrap().value() < 8 && cells[i].value.unwrap().value()
                        == window_of(v, i as nat) by {
                        assert(cells[i].value == window_values(sv, NUM_WINDOWS as nat)[i]);
                    }
                    let ws = windows.unwrap()@;
                    assert(ws =~= windows_of(sv, NUM_WINDOWS as nat).unwrap());
                    lemma_windows_of(v, ws);
                },
                None => {
                    assert(cells[0].value.is_none());
                },
            }
        }
        let (acc, last) = match self.super_config.assign_region_inner(
            &mut region,
            0,
            &windows,
            table,
            self.q_mul_fixed_full,
        ) {
            Ok(points) => points,
            Err(e) => {
                return Err(e);
            },
        };
        proof {
            Region::lemma_extends_twice(
                opened,
                witnessed,
                region,
                height_with(opened.height, (NUM_WINDOWS - 1) as usize),
                self.witnessed(opened.index, 0, scalar),
                height_with(witnessed.height, (NUM_WINDOWS - 1) as usize),
                self.super_config.laid_out(
                    self.q_mul_fixed_full,
                    opened.index,
                    0,
                    *table,
                    windows_of(sv, NUM_WINDOWS as nat),
                ),
            );
            let expected = self.windows_region(count as usize, *table, scalar);
            region.records().lemma_same(expected);
        }
        layouter.close_region(region);
        let mut region = layouter.open_region(
            "Full-width fixed-base mul (last window, complete addition)",
        );
        let ghost second = region;
        // Add to the accumulator and return the final result as `[scalar]B`.
        let product = match self.super_config.add_config.assign_region(
            &last,
            &acc,
            0,
            &mut region,
        ) {
            Ok(product) => product,
            Err(e) => {
                return Err(e);
            },
        };
        proof {
            use_type_invariant(&acc);
            use_type_invariant(&last);
            acc.lemma_coordinates();
            last.lemma_coordinates();
            let expected = self.last_region((count + 1) as usize, *table, scalar, product);
            region.records().lemma_same(expected);
            match scalar {
                Some(s) => {
                    let ws = windows.unwrap()@;
                    let a = acc.spec_point().unwrap();
                    let l = last.spec_point().unwrap();
                    let p = product.spec_point().unwrap();
                    let q = scalar_modulus();
                    let m = window_scalar(ws, NUM_WINDOWS - 1);
                    let n = acc_scalar(ws, NUM_WINDOWS - 2);
                    lemma_acc_bounds(ws, NUM_WINDOWS - 2);
                    lemma_scalars_sum(ws);
                    lemma_pow8_values();
                    s.lemma_canonical();
                    g.lemma_wf();
                    assert(multiplied(g, ws, a, l));
                    assert(l.coords() == pallas_mul(g.coords().0, g.coords().1, m));
                    assert(a.coords() == pallas_mul(g.coords().0, g.coords().1, n));
                    assert(m < q);
                    assert((m + n) % q == (n + m) % q);
                    vstd::arithmetic::div_mod::lemma_small_mod(s.value(), q);
                    vstd::arithmetic::div_mod::lemma_small_mod(s.value(), pow8(NUM_WINDOWS as nat));
                },
                None => {},
            }
        }
        layouter.close_region(region);
        proof {
            assert(layouter.regions@.take(count as int) =~= start.regions@);
        }
        Ok((product, fixed))
    }

    /// Lays out `[scalar] base` and returns the product with the witnessed
    /// scalar, as `assign_with_table` does for the table of `base`.
    ///
    /// Fails with `FixedBase` when the public data of `base` is not usable
    /// or is not for `NUM_WINDOWS` windows, else with `Synthesis` when the
    /// circuit has fewer than `NUM_WINDOWS + 2` free rows; a failure changes
    /// nothing.
    pub fn assign<Fixed: FixedPoints>(
        &self,
        layouter: &mut Layouter,
        scalar: Option<Fq>,
        base: &Fixed,
    ) -> (r: Result<(EccPoint, EccScalarFixed), Error>)
        requires
            old(layouter).wf(),
        ensures
            final(layouter).wf(),
            r.is_ok() == (usable(base) && base.spec_u()@.len() == NUM_WINDOWS && old(
                layouter,
            ).rows - old(layouter).used >= NUM_WINDOWS + 2),
            r matches Err(e) ==> *final(layouter) == *old(layouter) && e == (if !usable(base)
                || base.spec_u()@.len() != NUM_WINDOWS {
                Error::FixedBase
            } else {
                Error::Synthesis
            }),
            r matches Ok((product, fixed)) ==> {
                &&& fixed.value == scalar
                &&& window_cells(fixed.windows) == self.witnessed(
                    old(layouter).regions@.len() as usize,
                    0,
                    scalar,
                ).advice
                &&& crate::ecc::fixed_product(
                    base.spec_generator(),
                    scalar_of(scalar),
                    product.spec_point(),
                )
                &&& exists|table: FixedBaseTable|
                    table.wf() && #[trigger] table.describes(base) && self.laid_out(
                        *old(layouter),
                        *final(layouter),
                        table,
                        scalar,
                        product,
                    )
            },
    {
        let table = match FixedBaseTable::load(base) {
            Some(table) => table,
            None => {
                return Err(Error::FixedBase);
            },
        };
        self.assign_with_table(layouter, scalar, &table)
    }
}

impl<'a> From<&'a EccConfig> for Config {
    /// The selector of full-width multiplication and the shared columns.
    fn from(config: &'a EccConfig) -> (r: Config) {
        Config {
            q_mul_fixed_full: config.q_mul_fixed_full,
            super_config: crate::ecc::chip::mul_fixed::Config::from(config),
        }
    }
}

impl<'a> vstd::std_specs::convert::FromSpecImpl<&'a EccConfig> for Config {
    open spec fn obeys_from_spec() -> bool {
        true
    }

    open spec fn from_spec(config: &'a EccConfig) -> Config {
        Config::of(*config)
    }
}

impl Config {
    /// The configuration that the configuration of the chip gives.
    pub open spec fn of(config: EccConfig) -> Config {
        Config {
            q_mul_fixed_full: config.q_mul_fixed_full,
            super_config: crate::ecc::chip::mul_fixed::Config::of(config),
        }
    }
}

} // verus!
