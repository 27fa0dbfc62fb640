//! Witnessing a point as a private input.

use crate::circuit::{height_with, Added, Cell, CellValue, Column, Enabled, Error, Region, Selector};
use crate::curve::AffinePoint;
use crate::ecc::chip::{point_coordinates, EccConfig, EccPoint, NonIdentityEccPoint};
use vstd::prelude::*;

verus! {

/// The columns and selectors for witnessing a point.
#[derive(Clone, Copy, Debug, PartialEq, Eq, Structural)]
pub struct Config {
    /// Switches on the check that a point is on the curve or is `(0, 0)`.
    pub q_point: Selector,
    /// Switches on the check that a point is on the curve.
    pub q_point_non_id: Selector,
    pub x: Column,
    pub y: Column,
}

/// What witnessing a point lays out at row `offset` of the region with
/// index `index`: the selector on, and the two coordinates assigned.
pub open spec fn witnessing(
    config: Config,
    selector: Selector,
    index: usize,
    offset: usize,
    value: Option<AffinePoint>,
) -> Added {
    Added {
        selectors: seq![Enabled { selector, row: offset }],
        advice: seq![
            CellValue {
                cell: Cell { region: index, row: offset, column: config.x },
                value: point_coordinates(value).0,
            },
            CellValue {
                cell: Cell { region: index, row: offset, column: config.y },
                value: point_coordinates(value).1,
            },
        ],
        fixed: Seq::empty(),
        copies: Seq::empty(),
    }
}

/// The region after a point was witnessed at row `offset` under `selector`.
pub open spec fn witnessed(
    config: Config,
    selector: Selector,
    before: Region,
    offset: usize,
    value: Option<AffinePoint>,
    after: Region,
) -> bool {
    Region::extends(
        before,
        after,
        height_with(before.height, offset),
        witnessing(config, selector, before.index, offset, value),
    )
}

impl Config {
    /// Witnesses `value`, which may be the identity, at row `offset`.
    ///
    /// Fails only when the region has no row `offset`, and then changes
    /// nothing.
    pub fn point(&self, value: Option<AffinePoint>, offset: usize, region: &mut Region) -> (r:
        Result<EccPoint, Error>)
        requires
            old(region).wf(),
        ensures
            final(region).wf(),
            r.is_ok() == (offset < old(region).room),
            r matches Err(e) ==> e == Error::Synthesis && *final(region) == *old(region),
            r matches Ok(p) ==> p.spec_point() == value && p.spec_x().cell == (Cell {
                region: old(region).index,
                row: offset,
                column: self.x,
            }) && p.spec_y().cell == (Cell {
                region: old(region).index,
                row: offset,
                column: self.y,
            }) && witnessed(*self, self.q_point, *old(region), offset, value, *final(region)),
    {
        if offset >= region.room {
            return Err(Error::Synthesis);
        }
        match region.enable(self.q_point, offset) {
            Ok(()) => {},
            Err(e) => {
                return Err(e);
            },
        }
        let point = EccPoint::from_cells(
            Cell { region: region.index, row: offset, column: self.x },
            Cell { region: region.index, row: offset, column: self.y },
            value,
        );
        match region.assign_advice(self.x, offset, point.x().value) {
            Ok(_) => {},
            Err(e) => {
                return Err(e);
            },
        }
        match region.assign_advice(self.y, offset, point.y().value) {
            Ok(_) => {},
            Err(e) => {
                return Err(e);
            },
        }
        proof {
            let expected = witnessing(*self, self.q_point, old(region).index, offset, value);
            region.records().lemma_same(old(region).records().followed_by(expected));
        }
        Ok(point)
    }

    /// Witnesses `value`, which must not be the identity, at row `offset`.
    ///
    /// Fails with `IdentityWitness` when `value` is the identity, else with
    /// `Synthesis` when the region has no row `offset`; a failure changes
    /// nothing.
    pub fn point_non_id(
        &self,
        value: Option<AffinePoint>,
        offset: usize,
        region: &mut Region,
    ) -> (r: Result<NonIdentityEccPoint, Error>)
        requires
            old(region).wf(),
        ensures
            final(region).wf(),
            r.is_err() ==> *final(region) == *old(region),
            (value matches Some(p) && p.is_identity_spec()) ==> r == Err::<
                NonIdentityEccPoint,
                Error,
            >(Error::IdentityWitness),
            !(value matches Some(p) && p.is_identity_spec()) ==> (r.is_ok() == (offset < old(
                region,
            ).room)) && (r matches Err(e) ==> e == Error::Synthesis),
            r matches Ok(p) ==> p.spec_point() == value && p.spec_x().cell == (Cell {
                region: old(region).index,
                row: offset,
                column: self.x,
            }) && p.spec_y().cell == (Cell {
                region: old(region).index,
                row: offset,
                column: self.y,
            }) && witnessed(
                *self,
                self.q_point_non_id,
                *old(region),
                offset,
                value,
                *final(region),
            ),
    {
        let point = match NonIdentityEccPoint::from_cells(
            Cell { region: region.index, row: offset, column: self.x },
            Cell { region: region.index, row: offset, column: self.y },
            value,
        ) {
            Some(point) => point,
            None => {
                return Err(Error::IdentityWitness);
            },
        };
        if offset >= region.room {
            return Err(Error::Synthesis);
        }
        match region.enable(self.q_point_non_id, offset) {
            Ok(()) => {},
            Err(e) => {
                return Err(e);
            },
        }
        match region.assign_advice(self.x, offset, point.x().value) {
            Ok(_) => {},
            Err(e) => {
                return Err(e);
            },
        }
        match region.assign_advice(self.y, offset, point.y().value) {
            Ok(_) => {},
            Err(e) => {
                return Err(e);
            },
        }
        proof {
            let expected = witnessing(*self, self.q_point_non_id, old(region).index, offset, value);
            region.records().lemma_same(old(region).records().followed_by(expected));
        }
        Ok(point)
    }
}

impl<'a> From<&'a EccConfig> for Config {
    /// The two selectors of witnessing and the first two advice columns.
    fn from(config: &'a EccConfig) -> (r: Config) {
        Config {
            q_point: config.q_point,
            q_point_non_id: config.q_point_non_id,
            x: config.advices[0],
            y: config.advices[1],
        }
    }
}

impl<'a> vstd::std_specs::convert::FromSpecImpl<&'a EccConfig> for Config {
    open spec fn obeys_from_spec() -> bool {
        true
    }

    open spec fn from_spec(config: &'a EccConfig) -> Config {
        Config::of(*config)
    }
}

impl Config {
    /// The configuration that the configuration of the chip gives.
    pub open spec fn of(config: EccConfig) -> Config {
        Config {
            q_point: config.q_point,
            q_point_non_id: config.q_point_non_id,
            x: config.advices@[0],
            y: config.advices@[1],
        }
    }
}

} // verus!
