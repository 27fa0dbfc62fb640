//! Complete addition: the sum of two points, either of which may be the
//! identity, and which may be equal or inverse to each other.

use crate::circuit::{
    height_with, Added, Cell, CellValue, Column, Enabled, Error, Region, Selector,
};
use crate::ecc::chip::{EccConfig, EccPoint};
use crate::ecc::sum_known;
use vstd::prelude::*;

verus! {

/// The columns and the selector of complete addition.
#[derive(Clone, Copy, Debug, PartialEq, Eq, Structural)]
pub struct Config {
    pub q_add: Selector,
    /// The first operand.
    pub x_p: Column,
    pub y_p: Column,
    /// The second operand, and in the row below it the sum.
    pub x_qr: Column,
    pub y_qr: Column,
}

/// The cell at `row` of `column` in `region`.
pub open spec fn cell_at(region: Region, row: int, column: Column) -> Cell {
    Cell { region: region.index, row: row as usize, column }
}

/// What an addition lays out at rows `offset` and `offset + 1` of the
/// region with index `index`: the selector on at `offset`, the operands
/// copied into that row, and the sum assigned in the row below.
pub open spec fn addition(
    selector: Selector,
    columns: (Column, Column, Column, Column),
    index: usize,
    offset: usize,
    p: (CellValue, CellValue),
    q: (CellValue, CellValue),
    sum: (CellValue, CellValue),
) -> Added {
    let at = |column: Column| Cell { region: index, row: offset, column };
    Added {
        selectors: seq![Enabled { selector, row: offset }],
        advice: seq![
            CellValue { cell: at(columns.0), value: p.0.value },
            CellValue { cell: at(columns.1), value: p.1.value },
            CellValue { cell: at(columns.2), value: q.0.value },
            CellValue { cell: at(columns.3), value: q.1.value },
            sum.0,
            sum.1,
        ],
        fixed: Seq::empty(),
        copies: seq![
            (p.0.cell, at(columns.0)),
            (p.1.cell, at(columns.1)),
            (q.0.cell, at(columns.2)),
            (q.1.cell, at(columns.3)),
        ],
    }
}

/// The region after an addition was laid out at rows `offset` and
/// `offset + 1`, with the sum in the cells of the second operand's columns
/// in the row below.
pub open spec fn added(
    selector: Selector,
    columns: (Column, Column, Column, Column),
    before: Region,
    offset: usize,
    p: (CellValue, CellValue),
    q: (CellValue, CellValue),
    sum: (CellValue, CellValue),
    after: Region,
) -> bool {
    &&& Region::extends(
        before,
        after,
        height_with(before.height, (offset + 1) as usize),
        addition(selector, columns, before.index, offset, p, q, sum),
    )
    &&& sum.0.cell == cell_at(before, offset + 1, columns.2)
    &&& sum.1.cell == cell_at(before, offset + 1, columns.3)
}

impl Config {
    /// The four columns, operands first.
    pub open spec fn columns(self) -> (Column, Column, Column, Column) {
        (self.x_p, self.y_p, self.x_qr, self.y_qr)
    }

    /// Lays out `p + q` at rows `offset` and `offset + 1` and returns the
    /// sum.
    ///
    /// Fails only when the region lacks one of the two rows, and then
    /// changes nothing.
    pub fn assign_region(&self, p: &EccPoint, q: &EccPoint, offset: usize, region: &mut Region) -> (r:
        Result<EccPoint, Error>)
        requires
            old(region).wf(),
        ensures
            final(region).wf(),
            r.is_ok() == (offset + 1 < old(region).room),
            r matches Err(e) ==> e == Error::Synthesis && *final(region) == *old(region),
            r matches Ok(sum) ==> sum_known(p.spec_point(), q.spec_point(), sum.spec_point())
                && added(
                self.q_add,
                self.columns(),
                *old(region),
                offset,
                (p.spec_x(), p.spec_y()),
                (q.spec_x(), q.spec_y()),
                (sum.spec_x(), sum.spec_y()),
                *final(region),
            ),
    {
        if offset >= region.room || offset + 1 >= region.room {
            return Err(Error::Synthesis);
        }
        let value = match (p.point(), q.point()) {
            (Some(a), Some(b)) => Some(a.add(&b)),
            _ => None,
        };
        let sum = EccPoint::from_cells(
            Cell { region: region.index, row: offset + 1, column: self.x_qr },
            Cell { region: region.index, row: offset + 1, column: self.y_qr },
            value,
        );
        match region.enable(self.q_add, offset) {
            Ok(()) => {},
            Err(e) => {
                return Err(e);
            },
        }
        match region.copy_advice(&p.x(), self.x_p, offset) {
            Ok(_) => {},
            Err(e) => {
                return Err(e);
            },
        }
        match region.copy_advice(&p.y(), self.y_p, offset) {
            Ok(_) => {},
            Err(e) => {
                return Err(e);
            },
        }
        match region.copy_advice(&q.x(), self.x_qr, offset) {
            Ok(_) => {},
            Err(e) => {
                return Err(e);
            },
        }
        match region.copy_advice(&q.y(), self.y_qr, offset) {
            Ok(_) => {},
            Err(e) => {
                return Err(e);
            },
        }
        match region.assign_advice(self.x_qr, offset + 1, sum.x().value) {
            Ok(_) => {},
            Err(e) => {
                return Err(e);
            },
        }
        match region.assign_advice(self.y_qr, offset + 1, sum.y().value) {
            Ok(_) => {},
            Err(e) => {
                return Err(e);
            },
        }
        proof {
            let expected = addition(
                self.q_add,
                self.columns(),
                old(region).index,
                offset,
                (p.spec_x(), p.spec_y()),
                (q.spec_x(), q.spec_y()),
                (sum.spec_x(), sum.spec_y()),
            );
            region.records().lemma_same(old(region).records().followed_by(expected));
        }
        Ok(sum)
    }
}

impl<'a> From<&'a EccConfig> for Config {
    /// The selector of complete addition and the first four advice columns.
    fn from(config: &'a EccConfig) -> (r: Config) {
        Config {
            q_add: config.q_add,
            x_p: config.advices[0],
            y_p: config.advices[1],
            x_qr: config.advices[2],
            y_qr: config.advices[3],
        }
    }
}

impl<'a> vstd::std_specs::convert::FromSpecImpl<&'a EccConfig> for Config {
    open spec fn obeys_from_spec() -> bool {
        true
    }

    open spec fn from_spec(config: &'a EccConfig) -> Config {
        Config::of(*config)
    }
}

impl Config {
    /// The configuration that the configuration of the chip gives.
    pub open spec fn of(config: EccConfig) -> Config {
        Config {
            q_add: config.q_add,
            x_p: config.advices@[0],
            y_p: config.advices@[1],
            x_qr: config.advices@[2],
            y_qr: config.advices@[3],
        }
    }
}

} // verus!
