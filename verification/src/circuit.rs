//! A plain record of what a gadget lays out in a circuit: the cells it
//! assigns, the selectors it switches on, the constants it loads and the
//! cells it ties together, region by region.
//!
//! The record is the interface to a constraint-system backend: the gadgets
//! fill it, and a backend is driven from what it holds.

use crate::field::Fp;
use vstd::prelude::*;

verus! {

/// Why laying out a gadget failed.
#[derive(Clone, Copy, Debug, PartialEq, Eq, Structural)]
pub enum Error {
    /// The backend could not provide a cell, a constraint or a region.
    Synthesis,
    /// The identity was given where a point other than the identity is
    /// required.
    IdentityWitness,
    /// The public data given for a fixed base cannot be used: a table has
    /// not the number of windows that the multiplication takes, the
    /// generator is the identity, or a recovery value is no canonical
    /// encoding.
    FixedBase,
}

/// A column of advice or fixed cells, by its position in the configuration.
#[derive(Clone, Copy, Debug, PartialEq, Eq, Hash, Structural)]
pub struct Column {
    pub index: usize,
}

/// A selector, which switches a gate on for single rows.
#[derive(Clone, Copy, Debug, PartialEq, Eq, Hash, Structural)]
pub struct Selector {
    pub index: usize,
}

/// The place of a cell: its region, its row within the region, its column.
#[derive(Clone, Copy, Debug, PartialEq, Eq, Hash, Structural)]
pub struct Cell {
    pub region: usize,
    pub row: usize,
    pub column: Column,
}

/// A cell together with the value witnessed in it, if the value is known.
#[derive(Clone, Copy, Debug, PartialEq, Eq)]
pub struct CellValue {
    pub cell: Cell,
    pub value: Option<Fp>,
}

impl CellValue {
    pub fn new(cell: Cell, value: Option<Fp>) -> (r: CellValue)
        ensures
            r.cell == cell,
            r.value == value,
    {
        CellValue { cell, value }
    }

    pub fn cell(&self) -> (r: Cell)
        ensures
            r == self.cell,
    {
        self.cell
    }

    pub fn value(&self) -> (r: Option<Fp>)
        ensures
            r == self.value,
    {
        self.value
    }
}

/// A constant loaded into a fixed column.
#[derive(Clone, Copy, Debug, PartialEq, Eq)]
pub struct FixedValue {
    pub column: Column,
    pub row: usize,
    pub value: Fp,
}

/// A selector switched on at a row.
#[derive(Clone, Copy, Debug, PartialEq, Eq, Structural)]
pub struct Enabled {
    pub selector: Selector,
    pub row: usize,
}

/// One region of the circuit while a gadget fills it.
///
/// `room` is the number of rows the region may use; `height` is the number
/// of rows used so far.
#[derive(Clone, Debug)]
pub struct Region {
    pub name: &'static str,
    pub index: usize,
    pub room: usize,
    pub height: usize,
    pub selectors: Vec<Enabled>,
    pub advice: Vec<CellValue>,
    pub fixed: Vec<FixedValue>,
    pub copies: Vec<(Cell, Cell)>,
}

/// The height of a region after a row of it was used.
pub open spec fn height_with(height: usize, row: usize) -> usize {
    if row < height {
        height
    } else {
        (row + 1) as usize
    }
}

impl Region {
    /// The region uses no more rows than it has room for.
    pub open spec fn wf(&self) -> bool {
        self.height <= self.room
    }

    /// Switches `selector` on at `row`. Fails, changing nothing, when the
    /// region has no such row.
    pub fn enable(&mut self, selector: Selector, row: usize) -> (r: Result<(), Error>)
        requires
            old(self).wf(),
        ensures
            final(self).wf(),
            row < old(self).room ==> r.is_ok() && *final(self) == (Region {
                height: height_with(old(self).height, row),
                selectors: final(self).selectors,
                ..*old(self)
            }) && final(self).selectors@ == old(self).selectors@.push(Enabled { selector, row }),
            row >= old(self).room ==> r == Err::<(), Error>(Error::Synthesis) && *final(self)
                == *old(self),
    {
        if row >= self.room {
            return Err(Error::Synthesis);
        }
        self.selectors.push(Enabled { selector, row });
        if row >= self.height {
            self.height = row + 1;
        }
        Ok(())
    }

    /// Assigns `value` to the advice cell at `row` of `column`. Fails,
    /// changing nothing, when the region has no such row.
    pub fn assign_advice(&mut self, column: Column, row: usize, value: Option<Fp>) -> (r: Result<
        CellValue,
        Error,
    >)
        requires
            old(self).wf(),
        ensures
            final(self).wf(),
            row < old(self).room ==> r == Ok::<CellValue, Error>(
                CellValue { cell: Cell { region: old(self).index, row, column }, value },
            ) && *final(self) == (Region {
                height: height_with(old(self).height, row),
                advice: final(self).advice,
                ..*old(self)
            }) && final(self).advice@ == old(self).advice@.push(r.unwrap()),
            row >= old(self).room ==> r == Err::<CellValue, Error>(Error::Synthesis) && *final(self)
                == *old(self),
    {
        if row >= self.room {
            return Err(Error::Synthesis);
        }
        let assigned = CellValue { cell: Cell { region: self.index, row, column }, value };
        self.advice.push(assigned);
        if row >= self.height {
            self.height = row + 1;
        }
        Ok(assigned)
    }

    /// Loads the constant `value` into the fixed cell at `row` of `column`.
    /// Fails, changing nothing, when the region has no such row.
    pub fn assign_fixed(&mut self, column: Column, row: usize, value: Fp) -> (r: Result<(), Error>)
        requires
            old(self).wf(),
        ensures
            final(self).wf(),
            row < old(self).room ==> r.is_ok() && *final(self) == (Region {
                height: height_with(old(self).height, row),
                fixed: final(self).fixed,
                ..*old(self)
            }) && final(self).fixed@ == old(self).fixed@.push(FixedValue { column, row, value }),
            row >= old(self).room ==> r == Err::<(), Error>(Error::Synthesis) && *final(self)
                == *old(self),
    {
        if row >= self.room {
            return Err(Error::Synthesis);
        }
        self.fixed.push(FixedValue { column, row, value });
        if row >= self.height {
            self.height = row + 1;
        }
        Ok(())
    }

    /// Ties two cells together: they must hold equal values.
    pub fn constrain_equal(&mut self, left: Cell, right: Cell)
        ensures
            *final(self) == (Region { copies: final(self).copies, ..*old(self) }),
            final(self).copies@ == old(self).copies@.push((left, right)),
    {
        self.copies.push((left, right));
    }

    /// Assigns the value of `source` to the advice cell at `row` of `column`
    /// and ties the new cell to `source`.
    pub fn copy_advice(&mut self, source: &CellValue, column: Column, row: usize) -> (r: Result<
        CellValue,
        Error,
    >)
        requires
            old(self).wf(),
        ensures
            final(self).wf(),
            row < old(self).room ==> r == Ok::<CellValue, Error>(
                CellValue {
                    cell: Cell { region: old(self).index, row, column },
                    value: source.value,
                },
            ) && *final(self) == (Region {
                height: height_with(old(self).height, row),
                advice: final(self).advice,
                copies: final(self).copies,
                ..*old(self)
            }) && final(self).advice@ == old(self).advice@.push(r.unwrap())
                && final(self).copies@ == old(self).copies@.push((source.cell, r.unwrap().cell)),
            row >= old(self).room ==> r == Err::<CellValue, Error>(Error::Synthesis) && *final(self)
                == *old(self),
    {
        let assigned = self.assign_advice(column, row, source.value)?;
        self.constrain_equal(source.cell, assigned.cell);
        Ok(assigned)
    }
}

/// The advice cells of one column at the rows from `offset` on, one for each
/// of `values`, in a region with index `region`.
pub open spec fn column_cells(
    region: usize,
    column: Column,
    offset: usize,
    values: Seq<Option<Fp>>,
) -> Seq<CellValue> {
    Seq::new(
        values.len(),
        |j: int|
            CellValue {
                cell: Cell { region, row: (offset + j) as usize, column },
                value: values[j],
            },
    )
}

/// The constants of one fixed column at the rows from `offset` on, one for
/// each of `values`.
pub open spec fn column_constants(column: Column, offset: usize, values: Seq<Fp>) -> Seq<
    FixedValue,
> {
    Seq::new(
        values.len(),
        |j: int| FixedValue { column, row: (offset + j) as usize, value: values[j] },
    )
}

/// One selector switched on at the `count` rows from `offset` on.
pub open spec fn selector_rows(selector: Selector, offset: usize, count: nat) -> Seq<Enabled> {
    Seq::new(count, |j: int| Enabled { selector, row: (offset + j) as usize })
}

/// What has been added to a region between two moments.
pub struct Added {
    pub selectors: Seq<Enabled>,
    pub advice: Seq<CellValue>,
    pub fixed: Seq<FixedValue>,
    pub copies: Seq<(Cell, Cell)>,
}

impl Added {
    /// Two additions that agree entry by entry in each of their records are
    /// the same addition.
    pub proof fn lemma_same(self, other: Added)
        requires
            self.selectors =~= other.selectors,
            self.advice =~= other.advice,
            self.fixed =~= other.fixed,
            self.copies =~= other.copies,
        ensures
            self == other,
    {
    }

    /// What `self` adds, followed by what `next` adds.
    pub open spec fn followed_by(self, next: Added) -> Added {
        Added {
            selectors: self.selectors + next.selectors,
            advice: self.advice + next.advice,
            fixed: self.fixed + next.fixed,
            copies: self.copies + next.copies,
        }
    }
}

impl Region {
    /// The records of the region: all that has been added to it.
    pub open spec fn records(self) -> Added {
        Added {
            selectors: self.selectors@,
            advice: self.advice@,
            fixed: self.fixed@,
            copies: self.copies@,
        }
    }

    /// Adding in two steps is adding the one after the other.
    pub proof fn lemma_extends_twice(
        a: Region,
        b: Region,
        c: Region,
        h1: usize,
        first: Added,
        h2: usize,
        second: Added,
    )
        requires
            Region::extends(a, b, h1, first),
            Region::extends(b, c, h2, second),
        ensures
            Region::extends(a, c, h2, first.followed_by(second)),
    {
        c.records().lemma_same(a.records().followed_by(first.followed_by(second)));
    }

    /// A region that holds exactly `added`, under the given name, index,
    /// room and height.
    pub open spec fn holds(
        self,
        name: &'static str,
        index: usize,
        room: usize,
        height: usize,
        added: Added,
    ) -> bool {
        &&& self.name == name
        &&& self.index == index
        &&& self.room == room
        &&& self.height == height
        &&& self.selectors@ == added.selectors
        &&& self.advice@ == added.advice
        &&& self.fixed@ == added.fixed
        &&& self.copies@ == added.copies
    }

    /// `after` is `before` with `added` appended to its records, and with
    /// the given height.
    pub open spec fn extends(before: Region, after: Region, height: usize, added: Added) -> bool {
        &&& after.name == before.name
        &&& after.index == before.index
        &&& after.room == before.room
        &&& after.height == height
        &&& after.selectors@ == before.selectors@ + added.selectors
        &&& after.advice@ == before.advice@ + added.advice
        &&& after.fixed@ == before.fixed@ + added.fixed
        &&& after.copies@ == before.copies@ + added.copies
    }

    /// Switches `selector` on at the `count` rows from `offset` on, which
    /// the region has.
    pub fn enable_rows(&mut self, selector: Selector, offset: usize, count: usize)
        requires
            old(self).wf(),
            offset + count <= old(self).room,
            count > 0,
        ensures
            final(self).wf(),
            Region::extends(
                *old(self),
                *final(self),
                height_with(old(self).height, (offset + count - 1) as usize),
                Added {
                    selectors: selector_rows(selector, offset, count as nat),
                    advice: Seq::empty(),
                    fixed: Seq::empty(),
                    copies: Seq::empty(),
                },
            ),
    {
        let mut j: usize = 0;
        while j < count
            invariant
                j <= count,
                offset + count <= self.room,
                self.wf(),
                self.name == old(self).name,
                self.index == old(self).index,
                self.room == old(self).room,
                self.advice == old(self).advice,
                self.fixed == old(self).fixed,
                self.copies == old(self).copies,
                self.selectors@ == old(self).selectors@ + selector_rows(selector, offset, j as nat),
                self.height == if j == 0 {
                    old(self).height
                } else {
                    height_with(old(self).height, (offset + j - 1) as usize)
                },
            decreases count - j,
        {
            match self.enable(selector, offset + j) {
                Ok(()) => {},
                Err(_) => {},
            }
            proof {
                assert(self.selectors@ =~= old(self).selectors@ + selector_rows(
                    selector,
                    offset,
                    (j + 1) as nat,
                ));
            }
            j = j + 1;
        }
        proof {
            self.records().lemma_same(
                old(self).records().followed_by(
                    Added {
                        selectors: selector_rows(selector, offset, count as nat),
                        advice: Seq::empty(),
                        fixed: Seq::empty(),
                        copies: Seq::empty(),
                    },
                ),
            );
        }
    }

    /// Assigns `values` to the advice cells of `column` at the rows from
    /// `offset` on, which the region has, and returns the cells.
    pub fn assign_column(&mut self, column: Column, offset: usize, values: &Vec<Option<Fp>>) -> (r:
        Vec<CellValue>)
        requires
            old(self).wf(),
            offset + values@.len() <= old(self).room,
            values@.len() > 0,
        ensures
            final(self).wf(),
            r@ == column_cells(old(self).index, column, offset, values@),
            Region::extends(
                *old(self),
                *final(self),
                height_with(old(self).height, (offset + values@.len() - 1) as usize),
                Added {
                    selectors: Seq::empty(),
                    advice: r@,
                    fixed: Seq::empty(),
                    copies: Seq::empty(),
                },
            ),
    {
        let mut cells: Vec<CellValue> = Vec::new();
        let mut j: usize = 0;
        while j < values.len()
            invariant
                j <= values@.len(),
                offset + values@.len() <= self.room,
                self.wf(),
                self.name == old(self).name,
                self.index == old(self).index,
                self.room == old(self).room,
                self.selectors == old(self).selectors,
                self.fixed == old(self).fixed,
                self.copies == old(self).copies,
                cells@ == column_cells(old(self).index, column, offset, values@.take(j as int)),
                self.advice@ == old(self).advice@ + cells@,
                self.height == if j == 0 {
                    old(self).height
                } else {
                    height_with(old(self).height, (offset + j - 1) as usize)
                },
            decreases values@.len() - j,
        {
            match self.assign_advice(column, offset + j, values[j]) {
                Ok(cell) => {
                    cells.push(cell);
                },
                Err(_) => {},
            }
            proof {
                assert(cells@ =~= column_cells(
                    old(self).index,
                    column,
                    offset,
                    values@.take(j + 1),
                ));
                assert(self.advice@ =~= old(self).advice@ + cells@);
            }
            j = j + 1;
        }
        proof {
            assert(values@.take(values@.len() as int) =~= values@);
            self.records().lemma_same(
                old(self).records().followed_by(
                    Added {
                        selectors: Seq::empty(),
                        advice: cells@,
                        fixed: Seq::empty(),
                        copies: Seq::empty(),
                    },
                ),
            );
        }
        cells
    }

    /// Loads `values` into the fixed cells of `column` at the rows from
    /// `offset` on, which the region has.
    pub fn assign_fixed_column(&mut self, column: Column, offset: usize, values: &Vec<Fp>)
        requires
            old(self).wf(),
            offset + values@.len() <= old(self).room,
            values@.len() > 0,
        ensures
            final(self).wf(),
            Region::extends(
                *old(self),
                *final(self),
                height_with(old(self).height, (offset + values@.len() - 1) as usize),
                Added {
                    selectors: Seq::empty(),
                    advice: Seq::empty(),
                    fixed: column_constants(column, offset, values@),
                    copies: Seq::empty(),
                },
            ),
    {
        let mut j: usize = 0;
        while j < values.len()
            invariant
                j <= values@.len(),
                offset + values@.len() <= self.room,
                self.wf(),
                self.name == old(self).name,
                self.index == old(self).index,
                self.room == old(self).room,
                self.selectors == old(self).selectors,
                self.advice == old(self).advice,
                self.copies == old(self).copies,
                self.fixed@ == old(self).fixed@ + column_constants(
                    column,
                    offset,
                    values@.take(j as int),
                ),
                self.height == if j == 0 {
                    old(self).height
                } else {
                    height_with(old(self).height, (offset + j - 1) as usize)
                },
            decreases values@.len() - j,
        {
            match self.assign_fixed(column, offset + j, values[j]) {
                Ok(()) => {},
                Err(_) => {},
            }
            proof {
                assert(self.fixed@ =~= old(self).fixed@ + column_constants(
                    column,
                    offset,
                    values@.take(j + 1),
                ));
            }
            j = j + 1;
        }
        proof {
            assert(values@.take(values@.len() as int) =~= values@);
            self.records().lemma_same(
                old(self).records().followed_by(
                    Added {
                        selectors: Seq::empty(),
                        advice: Seq::empty(),
                        fixed: column_constants(column, offset, values@),
                        copies: Seq::empty(),
                    },
                ),
            );
        }
    }
}

/// The regions that gadgets have laid out, in order, within a circuit of
/// `rows` rows; `used` rows are taken.
#[derive(Clone, Debug)]
pub struct Layouter {
    pub rows: usize,
    pub used: usize,
    pub regions: Vec<Region>,
}

impl Layouter {
    /// The regions so far fit into the circuit.
    pub open spec fn wf(&self) -> bool {
        self.used <= self.rows
    }

    /// An empty layout for a circuit of `rows` rows.
    pub fn new(rows: usize) -> (r: Layouter)
        ensures
            r.wf(),
            r.rows == rows,
            r.used == 0,
            r.regions@ == Seq::<Region>::empty(),
    {
        Layouter { rows, used: 0, regions: Vec::new() }
    }

    /// A new, empty region, which has the rows that are still free.
    pub fn open_region(&self, name: &'static str) -> (r: Region)
        requires
            self.wf(),
        ensures
            r.wf(),
            r.name == name,
            r.index == self.regions@.len(),
            r.room == self.rows - self.used,
            r.height == 0,
            r.selectors@ == Seq::<Enabled>::empty(),
            r.advice@ == Seq::<CellValue>::empty(),
            r.fixed@ == Seq::<FixedValue>::empty(),
            r.copies@ == Seq::<(Cell, Cell)>::empty(),
    {
        Region {
            name,
            index: self.regions.len(),
            room: self.rows - self.used,
            height: 0,
            selectors: Vec::new(),
            advice: Vec::new(),
            fixed: Vec::new(),
            copies: Vec::new(),
        }
    }

    /// Adds a filled region to the layout; its rows are taken.
    pub fn close_region(&mut self, region: Region)
        requires
            old(self).wf(),
            region.wf(),
            region.room == old(self).rows - old(self).used,
        ensures
            final(self).wf(),
            final(self).rows == old(self).rows,
            final(self).used == old(self).used + region.height,
            final(self).regions@ == old(self).regions@.push(region),
    {
        self.used = self.used + region.height;
        self.regions.push(region);
    }
}

} // verus!
