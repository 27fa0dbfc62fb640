//! The values a chip for the Pallas curve hands out: points and scalars
//! witnessed in cells.

use crate::circuit::{Added, Cell, CellValue, Column, Error, Layouter, Selector};
use crate::curve::{is_point, AffinePoint};
use crate::ecc::{value_of, EccInstructions, FixedPoints};
use crate::field::{Fp, Fq};
use crate::utilities::window_of;
use arrayvec::ArrayVec;
use std::marker::PhantomData;
use vstd::prelude::*;

pub mod add;
pub mod add_incomplete;
pub mod mul;
pub mod mul_fixed;
pub mod witness_point;

verus! {

/// Number of bits of a scalar-field element.
pub const L_ORCHARD_SCALAR: usize = 255;

/// Number of bits of a base-field element.
pub const L_ORCHARD_BASE: usize = 255;

/// Number of bits of the magnitude of a short signed scalar.
pub const L_VALUE: usize = 64;

/// Number of windows of a full-width scalar.
pub const NUM_WINDOWS: usize = 85;

/// Number of windows of a short signed scalar.
pub const NUM_WINDOWS_SHORT: usize = 22;

/// The numbers of windows are the numbers of bits divided by the size of a
/// window, rounded up; the windows of a full-width scalar can spell every
/// element of either field, and more; and the windows of a short scalar can
/// spell every magnitude of 64 bits.
pub proof fn lemma_window_counts()
    ensures
        crate::ecc::H == crate::utilities::pow8(1),
        NUM_WINDOWS == (L_ORCHARD_SCALAR + crate::ecc::FIXED_BASE_WINDOW_SIZE - 1)
            / (crate::ecc::FIXED_BASE_WINDOW_SIZE as int),
        NUM_WINDOWS == (L_ORCHARD_BASE + crate::ecc::FIXED_BASE_WINDOW_SIZE - 1)
            / (crate::ecc::FIXED_BASE_WINDOW_SIZE as int),
        NUM_WINDOWS_SHORT == (L_VALUE + crate::ecc::FIXED_BASE_WINDOW_SIZE - 1)
            / (crate::ecc::FIXED_BASE_WINDOW_SIZE as int),
        crate::field::base_modulus() < crate::field::scalar_modulus(),
        crate::field::scalar_modulus() < crate::utilities::pow8(NUM_WINDOWS as nat),
        crate::utilities::pow8((NUM_WINDOWS - 1) as nat) < crate::field::base_modulus(),
        0x1_0000_0000_0000_0000 <= crate::utilities::pow8(NUM_WINDOWS_SHORT as nat),
        crate::utilities::pow8((NUM_WINDOWS_SHORT - 1) as nat) < 0x1_0000_0000_0000_0000,
{
    crate::utilities::lemma_pow8_values();
}

/// Two witnessed coordinates that are both unknown, or are both known and
/// stand for a group element.
pub open spec fn coordinates_valid(x: Option<Fp>, y: Option<Fp>) -> bool {
    match (x, y) {
        (Some(a), Some(b)) => a.wf() && b.wf() && is_point(a.value(), b.value()),
        (None, None) => true,
        _ => false,
    }
}

/// The group element that two witnessed coordinates stand for, if known.
pub open spec fn coordinates_point(x: Option<Fp>, y: Option<Fp>) -> Option<AffinePoint> {
    match (x, y) {
        (Some(a), Some(b)) => Some(AffinePoint::spec_from_xy(a, b)),
        _ => None,
    }
}

/// The witnessed coordinates of a group element, if it is known.
pub open spec fn point_coordinates(value: Option<AffinePoint>) -> (Option<Fp>, Option<Fp>) {
    match value {
        Some(p) => (Some(p.spec_x()), Some(p.spec_y())),
        None => (None, None),
    }
}

/// A curve point witnessed in two cells, which may be the identity,
/// witnessed as `(0, 0)`.
#[derive(Clone, Copy, Debug)]
pub struct EccPoint {
    x: CellValue,
    y: CellValue,
}

impl EccPoint {
    /// The cell of the x-coordinate and what it holds.
    pub closed spec fn spec_x(self) -> CellValue {
        self.x
    }

    /// The cell of the y-coordinate and what it holds.
    pub closed spec fn spec_y(self) -> CellValue {
        self.y
    }

    /// The witnessed coordinates stand for a group element, or are unknown.
    #[verifier::type_invariant]
    pub closed spec fn wf(self) -> bool {
        coordinates_valid(self.x.value, self.y.value)
    }

    /// The group element witnessed, if known.
    pub open spec fn spec_point(self) -> Option<AffinePoint> {
        coordinates_point(self.spec_x().value, self.spec_y().value)
    }

    /// What well-formedness says of the two cells.
    pub broadcast proof fn lemma_wf(self)
        ensures
            #[trigger] self.wf() == coordinates_valid(self.spec_x().value, self.spec_y().value),
    {
    }

    /// The values of the two cells are the coordinates of the point
    /// witnessed.
    pub proof fn lemma_coordinates(self)
        requires
            self.wf(),
        ensures
            (self.spec_x().value, self.spec_y().value) == point_coordinates(self.spec_point()),
    {
        broadcast use AffinePoint::lemma_xy, AffinePoint::lemma_from_xy;

    }

    /// Every point handled by executable code is well-formed.
    pub fn valid(&self)
        ensures
            self.wf(),
    {
        proof {
            use_type_invariant(self);
        }
    }

    /// The point witnessed as `value` in the cells `x` and `y`.
    pub fn from_cells(x: Cell, y: Cell, value: Option<AffinePoint>) -> (r: EccPoint)
        ensures
            r.wf(),
            r.spec_x() == (CellValue { cell: x, value: point_coordinates(value).0 }),
            r.spec_y() == (CellValue { cell: y, value: point_coordinates(value).1 }),
            r.spec_point() == value,
    {
        broadcast use AffinePoint::lemma_xy, AffinePoint::lemma_from_xy;

        match value {
            Some(p) => {
                p.valid();
                EccPoint { x: CellValue::new(x, Some(p.x())), y: CellValue::new(y, Some(p.y())) }
            },
            None => EccPoint { x: CellValue::new(x, None), y: CellValue::new(y, None) },
        }
    }

    /// The group element witnessed, if known.
    pub fn point(&self) -> (r: Option<AffinePoint>)
        ensures
            r == self.spec_point(),
            r matches Some(p) ==> p.wf(),
    {
        proof {
            use_type_invariant(self);
        }
        match (self.x.value, self.y.value) {
            (Some(a), Some(b)) => Some(AffinePoint::from_xy_unchecked(a, b)),
            _ => None,
        }
    }

    /// Whether the point is the identity, if known.
    pub fn is_identity(&self) -> (r: Option<bool>)
        ensures
            r == match self.spec_point() {
                Some(p) => Some(p.is_identity_spec()),
                None => None,
            },
    {
        match self.point() {
            Some(p) => Some(p.is_identity()),
            None => None,
        }
    }

    /// The cell of the x-coordinate and what it holds.
    pub fn x(&self) -> (r: CellValue)
        ensures
            r == self.spec_x(),
    {
        self.x
    }

    /// The cell of the y-coordinate and what it holds.
    pub fn y(&self) -> (r: CellValue)
        ensures
            r == self.spec_y(),
    {
        self.y
    }

    /// The same cells, no longer known to hold a point other than the
    /// identity.
    pub fn from_non_identity(point: NonIdentityEccPoint) -> (r: EccPoint)
        ensures
            r.wf(),
            r.spec_x() == point.spec_x(),
            r.spec_y() == point.spec_y(),
            r.spec_point() == point.spec_point(),
    {
        proof {
            use_type_invariant(point);
        }
        EccPoint { x: point.x, y: point.y }
    }
}

/// A curve point witnessed in two cells that is not the identity.
#[derive(Clone, Copy, Debug)]
pub struct NonIdentityEccPoint {
    x: CellValue,
    y: CellValue,
}

impl NonIdentityEccPoint {
    /// The cell of the x-coordinate and what it holds.
    pub closed spec fn spec_x(self) -> CellValue {
        self.x
    }

    /// The cell of the y-coordinate and what it holds.
    pub closed spec fn spec_y(self) -> CellValue {
        self.y
    }

    /// The witnessed coordinates stand for a group element other than the
    /// identity, or are unknown.
    #[verifier::type_invariant]
    pub closed spec fn wf(self) -> bool {
        &&& coordinates_valid(self.x.value, self.y.value)
        &&& coordinates_point(self.x.value, self.y.value) matches Some(p)
            ==> !p.is_identity_spec()
    }

    /// The group element witnessed, if known.
    pub open spec fn spec_point(self) -> Option<AffinePoint> {
        coordinates_point(self.spec_x().value, self.spec_y().value)
    }

    /// What well-formedness says of the two cells.
    pub broadcast proof fn lemma_wf(self)
        ensures
            #[trigger] self.wf() == (coordinates_valid(self.spec_x().value, self.spec_y().value)
                && (self.spec_point() matches Some(p) ==> !p.is_identity_spec())),
    {
    }

    /// The point witnessed as `value` in the cells `x` and `y`; `None` when
    /// `value` is the identity.
    pub fn from_cells(x: Cell, y: Cell, value: Option<AffinePoint>) -> (r: Option<
        NonIdentityEccPoint,
    >)
        ensures
            r.is_none() == (value matches Some(p) && p.is_identity_spec()),
            r matches Some(point) ==> point.wf() && point.spec_x() == (CellValue {
                cell: x,
                value: point_coordinates(value).0,
            }) && point.spec_y() == (CellValue { cell: y, value: point_coordinates(value).1 })
                && point.spec_point() == value,
    {
        broadcast use AffinePoint::lemma_xy, AffinePoint::lemma_from_xy;

        match value {
            Some(p) => {
                p.valid();
                if p.is_identity() {
                    None
                } else {
                    Some(
                        NonIdentityEccPoint {
                            x: CellValue::new(x, Some(p.x())),
                            y: CellValue::new(y, Some(p.y())),
                        },
                    )
                }
            },
            None => Some(
                NonIdentityEccPoint { x: CellValue::new(x, None), y: CellValue::new(y, None) },
            ),
        }
    }

    /// The same cells as a point that is known not to be the identity;
    /// `None` when the point is known to be the identity.
    pub fn from_point(point: EccPoint) -> (r: Option<NonIdentityEccPoint>)
        ensures
            r.is_none() == (point.spec_point() matches Some(p) && p.is_identity_spec()),
            r matches Some(q) ==> q.wf() && q.spec_x() == point.spec_x() && q.spec_y()
                == point.spec_y(),
    {
        proof {
            use_type_invariant(point);
        }
        match point.is_identity() {
            Some(true) => None,
            _ => Some(NonIdentityEccPoint { x: point.x, y: point.y }),
        }
    }

    /// The group element witnessed, if known. It is never the identity.
    pub fn point(&self) -> (r: Option<AffinePoint>)
        ensures
            r == self.spec_point(),
            r matches Some(p) ==> p.wf() && !p.is_identity_spec(),
    {
        proof {
            use_type_invariant(self);
        }
        match (self.x.value, self.y.value) {
            (Some(a), Some(b)) => Some(AffinePoint::from_xy_unchecked(a, b)),
            _ => None,
        }
    }

    /// The cell of the x-coordinate and what it holds.
    pub fn x(&self) -> (r: CellValue)
        ensures
            r == self.spec_x(),
    {
        self.x
    }

    /// The cell of the y-coordinate and what it holds.
    pub fn y(&self) -> (r: CellValue)
        ensures
            r == self.spec_y(),
    {
        self.y
    }
}

/// The columns and selectors of the chip.
#[derive(Clone, Copy, Debug, PartialEq, Eq)]
pub struct EccConfig {
    /// Advice columns needed by the instructions of the chip.
    pub advices: [Column; 10],
    /// Coefficients of interpolation polynomials for x-coordinates.
    pub lagrange_coeffs: [Column; 8],
    /// Offsets of the windows of a fixed base.
    pub fixed_z: Column,
    /// Incomplete addition.
    pub q_add_incomplete: Selector,
    /// Complete addition.
    pub q_add: Selector,
    /// Variable-base scalar multiplication.
    pub q_mul: Selector,
    /// Fixed-base full-width scalar multiplication.
    pub q_mul_fixed_full: Selector,
    /// Fixed-base signed short scalar multiplication.
    pub q_mul_fixed_short: Selector,
    /// Fixed-base multiplication by a base field element.
    pub q_mul_fixed_base_field: Selector,
    /// Witnessing a point.
    pub q_point: Selector,
    /// Witnessing a point other than the identity.
    pub q_point_non_id: Selector,
}

/// `arrayvec::ArrayVec`, a vector of at most `CAP` elements. What it holds
/// is known only through `window_cells`.
#[verifier::external_type_specification]
#[verifier::external_body]
#[verifier::reject_recursive_types(T)]
pub struct ExArrayVec<T, const CAP: usize>(ArrayVec<T, CAP>);

/// The cells that a bounded vector of window cells holds, in order.
pub uninterp spec fn window_cells(cells: ArrayVec<CellValue, NUM_WINDOWS>) -> Seq<CellValue>;

/// `ArrayVec::new`: a vector that holds nothing.
#[verifier::external_body]
fn window_cells_new() -> (r: ArrayVec<CellValue, NUM_WINDOWS>)
    ensures
        window_cells(r) == Seq::<CellValue>::empty(),
{
    ArrayVec::new()
}

/// `ArrayVec::push`: appends an element to a vector that holds fewer
/// elements than its capacity; it panics on a full one.
#[verifier::external_body]
fn window_cells_push(cells: &mut ArrayVec<CellValue, NUM_WINDOWS>, cell: CellValue)
    requires
        window_cells(*old(cells)).len() < NUM_WINDOWS,
    ensures
        window_cells(*final(cells)) == window_cells(*old(cells)).push(cell),
{
    cells.push(cell)
}

/// `ArrayVec::clone`: a vector that holds clones of the same elements in
/// the same order; a clone of a cell is the same cell.
#[verifier::external_body]
fn window_cells_clone(cells: &ArrayVec<CellValue, NUM_WINDOWS>) -> (r: ArrayVec<
    CellValue,
    NUM_WINDOWS,
>)
    ensures
        window_cells(r) == window_cells(*cells),
{
    cells.clone()
}

/// `ArrayVec::len`: the number of elements held.
#[verifier::external_body]
fn window_cells_len(cells: &ArrayVec<CellValue, NUM_WINDOWS>) -> (r: usize)
    ensures
        r == window_cells(*cells).len(),
{
    cells.len()
}

/// Indexing into the slice that an `ArrayVec` dereferences to: the element
/// at a position below the length.
#[verifier::external_body]
fn window_cells_get(cells: &ArrayVec<CellValue, NUM_WINDOWS>, i: usize) -> (r: CellValue)
    requires
        i < window_cells(*cells).len(),
    ensures
        r == window_cells(*cells)[i as int],
{
    cells[i]
}

/// The two cells of a point witnessed at one row.
pub open spec fn point_cells(
    index: usize,
    row: usize,
    columns: (Column, Column),
    value: Option<AffinePoint>,
) -> (CellValue, CellValue) {
    (
        CellValue {
            cell: Cell { region: index, row, column: columns.0 },
            value: point_coordinates(value).0,
        },
        CellValue {
            cell: Cell { region: index, row, column: columns.1 },
            value: point_coordinates(value).1,
        },
    )
}

/// The windows of a scalar as values of cells: window `i` of a known
/// scalar, or nothing for each window of an unknown one.
pub open spec fn window_values(scalar: Option<nat>, n: nat) -> Seq<Option<Fp>> {
    Seq::new(
        n,
        |i: int|
            match scalar {
                Some(v) => Some(Fp::spec_from_u64(window_of(v, i as nat) as u64)),
                None => None,
            },
    )
}

/// The windows of a scalar, if it is known.
pub open spec fn windows_of(scalar: Option<nat>, n: nat) -> Option<Seq<u8>> {
    match scalar {
        Some(v) => Some(Seq::new(n, |i: int| window_of(v, i as nat) as u8)),
        None => None,
    }
}

/// Every cell holds a known window value.
pub open spec fn cells_known(cells: Seq<CellValue>) -> bool {
    forall|i: int|
        0 <= i < cells.len() ==> (#[trigger] cells[i]).value.is_some()
            && cells[i].value.unwrap().value() < 8
}

/// A full-width scalar for fixed-base multiplication: the scalar, if it is
/// known, and the cells of its windows, least significant first.
#[derive(Debug)]
pub struct EccScalarFixed {
    pub value: Option<Fq>,
    pub windows: ArrayVec<CellValue, NUM_WINDOWS>,
}

impl Clone for EccScalarFixed {
    fn clone(&self) -> (r: Self)
        ensures
            r.value == self.value,
            window_cells(r.windows) == window_cells(self.windows),
    {
        EccScalarFixed { value: self.value, windows: window_cells_clone(&self.windows) }
    }
}

impl EccScalarFixed {
    /// The cells of the windows, from a column of assigned cells.
    pub fn collect(cells: &Vec<CellValue>) -> (r: ArrayVec<CellValue, NUM_WINDOWS>)
        requires
            cells@.len() <= NUM_WINDOWS,
        ensures
            window_cells(r) == cells@,
    {
        let mut windows = window_cells_new();
        let mut i: usize = 0;
        while i < cells.len()
            invariant
                i <= cells@.len(),
                cells@.len() <= NUM_WINDOWS,
                window_cells(windows) == cells@.take(i as int),
            decreases cells@.len() - i,
        {
            window_cells_push(&mut windows, cells[i]);
            proof {
                assert(cells@.take(i as int).push(cells@[i as int]) =~= cells@.take(i + 1));
            }
            i = i + 1;
        }
        proof {
            assert(cells@.take(cells@.len() as int) =~= cells@);
        }
        windows
    }

    /// The window values that the cells hold, least significant first;
    /// `None` unless every cell holds a known value below 8.
    pub fn windows_usize(&self) -> (r: Option<Vec<u8>>)
        ensures
            r.is_some() == cells_known(window_cells(self.windows)),
            r matches Some(ws) ==> ws@.len() == window_cells(self.windows).len() && forall|i: int|
                0 <= i < ws@.len() ==> #[trigger] ws@[i] == window_cells(
                    self.windows,
                )[i].value.unwrap().value(),
    {
        let ghost cells = window_cells(self.windows);
        let n = window_cells_len(&self.windows);
        let mut windows: Vec<u8> = Vec::new();
        let mut i: usize = 0;
        while i < n
            invariant
                i <= n,
                n == cells.len(),
                cells == window_cells(self.windows),
                windows@.len() == i,
                forall|j: int|
                    0 <= j < i ==> (#[trigger] cells[j]).value.is_some()
                        && cells[j].value.unwrap().value() < 8 && windows@[j]
                        == cells[j].value.unwrap().value(),
            decreases n - i,
        {
            let cell = window_cells_get(&self.windows, i);
            match cell.value {
                Some(value) => {
                    match value.to_u64() {
                        Some(k) => {
                            if k < 8 {
                                windows.push(k as u8);
                            } else {
                                assert(!cells_known(cells)) by {
                                    assert(cells[i as int].value.unwrap().value() >= 8);
                                }
                                return None;
                            }
                        },
                        None => {
                            assert(!cells_known(cells)) by {
                                assert(cells[i as int].value.unwrap().value() >= 8);
                            }
                            return None;
                        },
                    }
                },
                None => {
                    assert(!cells_known(cells)) by {
                        assert(cells[i as int].value.is_none());
                    }
                    return None;
                },
            }
            i = i + 1;
        }
        Some(windows)
    }
}

/// A signed short scalar for fixed-base multiplication: the cells of its
/// magnitude and its sign, and the cells of the windows of the magnitude,
/// least significant first.
#[derive(Clone, Debug)]
pub struct EccScalarFixedShort {
    pub magnitude: CellValue,
    pub sign: CellValue,
    pub windows: Vec<CellValue>,
}

/// A chip that lays the instructions out for the Pallas curve, with the
/// fixed bases of `Fixed`.
#[derive(Debug, PartialEq, Eq)]
pub struct EccChip<Fixed: FixedPoints> {
    pub config: EccConfig,
    pub marker: PhantomData<Fixed>,
}

impl<Fixed: FixedPoints> Clone for EccChip<Fixed> {
    fn clone(&self) -> (r: Self)
        ensures
            r == *self,
    {
        EccChip { config: self.config, marker: PhantomData }
    }
}

/// The names of the regions of the instructions that take one region.
pub open spec fn region_names() -> (&'static str, &'static str, &'static str, &'static str, &'static str) {
    (
        "witness point",
        "witness non-identity point",
        "constrain equal",
        "complete point addition",
        "incomplete point addition",
    )
}

/// A layouter with one more region, which holds `added` under `name` and
/// takes `height` rows.
pub open spec fn one_region(
    before: Layouter,
    after: Layouter,
    name: &'static str,
    height: usize,
    added: Added,
) -> bool {
    &&& after.rows == before.rows
    &&& after.used == before.used + height
    &&& after.regions@.len() == before.regions@.len() + 1
    &&& after.regions@.drop_last() == before.regions@
    &&& after.regions@.last().holds(
        name,
        before.regions@.len() as usize,
        (before.rows - before.used) as usize,
        height,
        added,
    )
}

/// What tying two points together adds: the x-coordinates are tied, and the
/// y-coordinates.
pub open spec fn equality(a: EccPoint, b: EccPoint) -> Added {
    Added {
        selectors: Seq::empty(),
        advice: Seq::empty(),
        fixed: Seq::empty(),
        copies: seq![(a.spec_x().cell, b.spec_x().cell), (a.spec_y().cell, b.spec_y().cell)],
    }
}

/// Whether the cells that `equality` ties together hold the same values,
/// which is what a backend checks of them.
pub open spec fn equality_holds(a: EccPoint, b: EccPoint) -> bool {
    a.spec_x().value == b.spec_x().value && a.spec_y().value == b.spec_y().value
}

/// Two witnessed points satisfy the constraints that tie them together
/// exactly when they stand for the same point, or are both unknown: equal
/// points are accepted wherever they were witnessed, and different points
/// are not.
pub proof fn lemma_equality_holds(a: EccPoint, b: EccPoint)
    requires
        a.wf(),
        b.wf(),
    ensures
        equality_holds(a, b) <==> a.spec_point() == b.spec_point(),
{
    broadcast use AffinePoint::lemma_xy, AffinePoint::lemma_from_xy;

    a.lemma_coordinates();
    b.lemma_coordinates();
    a.lemma_wf();
    b.lemma_wf();
}

impl<Fixed: FixedPoints> EccChip<Fixed> {
    /// Whether two witnessed points hold the same coordinates, which is
    /// what the constraints that tie them together ask.
    pub fn equal_in_value(a: &EccPoint, b: &EccPoint) -> (r: bool)
        ensures
            r == (a.spec_point() == b.spec_point()),
    {
        proof {
            use_type_invariant(a);
            use_type_invariant(b);
            lemma_equality_holds(*a, *b);
        }
        match (a.point(), b.point()) {
            (Some(p), Some(q)) => p == q,
            (None, None) => true,
            _ => false,
        }
    }

    /// The chip with the given configuration.
    pub fn construct(config: EccConfig) -> (r: Self)
        ensures
            r.config == config,
    {
        EccChip { config, marker: PhantomData }
    }
}

impl<Fixed: FixedPoints> EccInstructions for EccChip<Fixed> {
    type Layouter = Layouter;

    type Var = CellValue;

    type ScalarVar = CellValue;

    type ScalarFixed = EccScalarFixed;

    type ScalarFixedShort = EccScalarFixedShort;

    type Point = EccPoint;

    type NonIdentityPoint = NonIdentityEccPoint;

    type X = CellValue;

    type FixedPoints = Fixed;

    open spec fn layouter_wf(layouter: &Layouter) -> bool {
        layouter.wf()
    }

    open spec fn tied(before: &Layouter, after: &Layouter, a: &EccPoint, b: &EccPoint) -> bool {
        one_region(*before, *after, region_names().2, 0, equality(*a, *b))
    }

    proof fn lemma_clone(a: Self, b: Self) {
    }

    open spec fn ties_hold(a: &EccPoint, b: &EccPoint) -> bool {
        equality_holds(*a, *b)
    }

    open spec fn point_valid(point: &EccPoint) -> bool {
        point.wf()
    }

    proof fn lemma_ties_hold(a: EccPoint, b: EccPoint) {
        lemma_equality_holds(a, b);
    }

    open spec fn scalar_fixed_value(scalar: &EccScalarFixed) -> Option<Fq> {
        scalar.value
    }

    open spec fn point_value(point: &EccPoint) -> Option<AffinePoint> {
        point.spec_point()
    }

    open spec fn non_identity_value(point: &NonIdentityEccPoint) -> Option<AffinePoint> {
        point.spec_point()
    }

    open spec fn x_value(x: &CellValue) -> Option<Fp> {
        x.value
    }

    open spec fn var_value(var: &CellValue) -> Option<Fp> {
        var.value
    }

    fn to_point(point: &NonIdentityEccPoint) -> (r: EccPoint)
        ensures
            r.spec_x() == point.spec_x(),
            r.spec_y() == point.spec_y(),
    {
        let r = EccPoint::from_non_identity(*point);
        r.valid();
        r
    }

    /// Ties the cells of `a` to the cells of `b`, in a region of its own
    /// that takes no row. It does not fail.
    fn constrain_equal(&self, layouter: &mut Layouter, a: &EccPoint, b: &EccPoint) -> (r: Result<
        (),
        Error,
    >)
        ensures
            r.is_ok(),
            one_region(*old(layouter), *final(layouter), region_names().2, 0, equality(*a, *b)),
    {
        let mut region = layouter.open_region("constrain equal");
        region.constrain_equal(a.x().cell, b.x().cell);
        region.constrain_equal(a.y().cell, b.y().cell);
        proof {
            let expected = equality(*a, *b);
            region.records().lemma_same(expected);
        }
        layouter.close_region(region);
        proof {
            assert(layouter.regions@.drop_last() =~= old(layouter).regions@);
        }
        Ok(())
    }

    /// Witnesses `value` in the first row of a region of its own. Fails
    /// only when the circuit has no free row, and then changes nothing.
    fn witness_point(&self, layouter: &mut Layouter, value: Option<AffinePoint>) -> (r: Result<
        EccPoint,
        Error,
    >)
        ensures
            r.is_ok() == (old(layouter).rows - old(layouter).used >= 1),
            r.is_err() ==> *final(layouter) == *old(layouter),
            r matches Ok(p) ==> one_region(
                *old(layouter),
                *final(layouter),
                region_names().0,
                1,
                witness_point::witnessing(
                    witness_point::Config::of(self.config),
                    self.config.q_point,
                    old(layouter).regions@.len() as usize,
                    0,
                    value,
                ),
            ),
    {
        let config = witness_point::Config::from(&self.config);
        let mut region = layouter.open_region("witness point");
        let point = match config.point(value, 0, &mut region) {
            Ok(point) => point,
            Err(e) => {
                return Err(e);
            },
        };
        proof {
            let expected = witness_point::witnessing(config, config.q_point, region.index, 0, value);
            region.records().lemma_same(expected);
        }
        layouter.close_region(region);
        proof {
            assert(layouter.regions@.drop_last() =~= old(layouter).regions@);
        }
        point.valid();
        Ok(point)
    }

    /// Witnesses `value` in the first row of a region of its own. Fails
    /// with `IdentityWitness` when `value` is the identity, else with
    /// `Synthesis` when the circuit has no free row; a failure changes
    /// nothing.
    fn witness_point_non_id(
        &self,
        layouter: &mut Layouter,
        value: Option<AffinePoint>,
    ) -> (r: Result<NonIdentityEccPoint, Error>)
        ensures
            r.is_ok() == (!(value matches Some(v) && v.is_identity_spec()) && old(layouter).rows
                - old(layouter).used >= 1),
            r.is_err() ==> *final(layouter) == *old(layouter),
            r matches Ok(p) ==> one_region(
                *old(layouter),
                *final(layouter),
                region_names().1,
                1,
                witness_point::witnessing(
                    witness_point::Config::of(self.config),
                    self.config.q_point_non_id,
                    old(layouter).regions@.len() as usize,
                    0,
                    value,
                ),
            ),
    {
        let config = witness_point::Config::from(&self.config);
        let mut region = layouter.open_region("witness non-identity point");
        let point = match config.point_non_id(value, 0, &mut region) {
            Ok(point) => point,
            Err(e) => {
                return Err(e);
            },
        };
        proof {
            let expected = witness_point::witnessing(
                config,
                config.q_point_non_id,
                region.index,
                0,
                value,
            );
            region.records().lemma_same(expected);
        }
        layouter.close_region(region);
        proof {
            assert(layouter.regions@.drop_last() =~= old(layouter).regions@);
        }
        Ok(point)
    }

    fn extract_p(point: &EccPoint) -> (r: CellValue)
        ensures
            r == point.spec_x(),
    {
        proof {
            use_type_invariant(point);
            point.lemma_coordinates();
        }
        point.x()
    }

    /// Lays out `a + b` in a region of its own, which takes two rows. Fails
    /// when the circuit has fewer than two free rows, or when the points are
    /// known and are equal or inverse to each other; a failure changes
    /// nothing.
    fn add_incomplete(
        &self,
        layouter: &mut Layouter,
        a: &NonIdentityEccPoint,
        b: &NonIdentityEccPoint,
    ) -> (r: Result<NonIdentityEccPoint, Error>)
        ensures
            r.is_ok() == (old(layouter).rows - old(layouter).used >= 2
                && !add_incomplete::exceptional(a.spec_point(), b.spec_point())),
            r.is_err() ==> *final(layouter) == *old(layouter),
            r matches Ok(sum) ==> one_region(
                *old(layouter),
                *final(layouter),
                region_names().4,
                2,
                add::addition(
                    self.config.q_add_incomplete,
                    add_incomplete::Config::of(self.config).columns(),
                    old(layouter).regions@.len() as usize,
                    0,
                    (a.spec_x(), a.spec_y()),
                    (b.spec_x(), b.spec_y()),
                    (sum.spec_x(), sum.spec_y()),
                ),
            ),
    {
        let config = add_incomplete::Config::from(&self.config);
        let mut region = layouter.open_region("incomplete point addition");
        let sum = match config.assign_region(a, b, 0, &mut region) {
            Ok(sum) => sum,
            Err(e) => {
                return Err(e);
            },
        };
        proof {
            use_type_invariant(&sum);
            sum.lemma_wf();
            let expected = add::addition(
                config.q_add_incomplete,
                config.columns(),
                region.index,
                0,
                (a.spec_x(), a.spec_y()),
                (b.spec_x(), b.spec_y()),
                (sum.spec_x(), sum.spec_y()),
            );
            region.records().lemma_same(expected);
        }
        layouter.close_region(region);
        proof {
            assert(layouter.regions@.drop_last() =~= old(layouter).regions@);
        }
        Ok(sum)
    }

    /// Lays out `a + b` in a region of its own, which takes two rows. Fails
    /// only when the circuit has fewer than two free rows, and then changes
    /// nothing.
    fn add(&self, layouter: &mut Layouter, a: &EccPoint, b: &EccPoint) -> (r: Result<
        EccPoint,
        Error,
    >)
        ensures
            r.is_ok() == (old(layouter).rows - old(layouter).used >= 2),
            r.is_err() ==> *final(layouter) == *old(layouter),
            r matches Ok(sum) ==> one_region(
                *old(layouter),
                *final(layouter),
                region_names().3,
                2,
                add::addition(
                    self.config.q_add,
                    add::Config::of(self.config).columns(),
                    old(layouter).regions@.len() as usize,
                    0,
                    (a.spec_x(), a.spec_y()),
                    (b.spec_x(), b.spec_y()),
                    (sum.spec_x(), sum.spec_y()),
                ),
            ),
    {
        let config = add::Config::from(&self.config);
        let mut region = layouter.open_region("complete point addition");
        let sum = match config.assign_region(a, b, 0, &mut region) {
            Ok(sum) => sum,
            Err(e) => {
                return Err(e);
            },
        };
        proof {
            let expected = add::addition(
                config.q_add,
                config.columns(),
                region.index,
                0,
                (a.spec_x(), a.spec_y()),
                (b.spec_x(), b.spec_y()),
                (sum.spec_x(), sum.spec_y()),
            );
            region.records().lemma_same(expected);
        }
        layouter.close_region(region);
        proof {
            assert(layouter.regions@.drop_last() =~= old(layouter).regions@);
        }
        sum.valid();
        Ok(sum)
    }

    /// Lays out `[scalar] base` as `mul::Config::assign` does. Fails only
    /// when the circuit has fewer than two free rows, and then changes
    /// nothing.
    fn mul(&self, layouter: &mut Layouter, scalar: &CellValue, base: &NonIdentityEccPoint) -> (r:
        Result<(EccPoint, CellValue), Error>)
        ensures
            r.is_ok() == (old(layouter).rows - old(layouter).used >= 2),
            r.is_err() ==> *final(layouter) == *old(layouter),
            r matches Ok((product, alpha)) ==> one_region(
                *old(layouter),
                *final(layouter),
                mul::region_name(),
                2,
                mul::Config::of(self.config).laid_out(
                    old(layouter).regions@.len() as usize,
                    *scalar,
                    *base,
                    product,
                ),
            ),
    {
        let config = mul::Config::from(&self.config);
        let r = config.assign(layouter, scalar, base);
        match &r {
            Ok((product, _)) => {
                product.valid();
            },
            Err(_) => {},
        }
        r
    }

    /// Lays out `[scalar] base` as `full_width::Config::assign` does.
    fn mul_fixed(&self, layouter: &mut Layouter, scalar: Option<Fq>, base: &Fixed) -> (r: Result<
        (EccPoint, EccScalarFixed),
        Error,
    >)
        ensures
            r.is_ok() == (mul_fixed::usable(base) && base.spec_u()@.len() == NUM_WINDOWS && old(
                layouter,
            ).rows - old(layouter).used >= NUM_WINDOWS + 2),
            r matches Err(e) ==> *final(layouter) == *old(layouter) && e == (if !mul_fixed::usable(base)
                || base.spec_u()@.len() != NUM_WINDOWS {
                Error::FixedBase
            } else {
                Error::Synthesis
            }),
            r matches Ok((product, fixed)) ==> fixed.value == scalar && window_cells(fixed.windows)
                == mul_fixed::full_width::Config::of(self.config).witnessed(
                old(layouter).regions@.len() as usize,
                0,
                scalar,
            ).advice && exists|table: mul_fixed::FixedBaseTable|
                table.wf() && #[trigger] table.describes(base)
                    && mul_fixed::full_width::Config::of(self.config).laid_out(
                    *old(layouter),
                    *final(layouter),
                    table,
                    scalar,
                    product,
                ),
    {
        let config = mul_fixed::full_width::Config::from(&self.config);
        let r = config.assign(layouter, scalar, base);
        match &r {
            Ok((product, _)) => {
                product.valid();
            },
            Err(_) => {},
        }
        r
    }

    /// Lays out `[magnitude * sign] base` as `short::Config::assign` does.
    fn mul_fixed_short(
        &self,
        layouter: &mut Layouter,
        magnitude_sign: (CellValue, CellValue),
        base: &Fixed,
    ) -> (r: Result<(EccPoint, EccScalarFixedShort), Error>)
        ensures
            r.is_ok() == (mul_fixed::usable(base) && base.spec_u()@.len() == NUM_WINDOWS_SHORT
                && old(layouter).rows - old(layouter).used >= NUM_WINDOWS_SHORT + 4),
            r matches Err(e) ==> *final(layouter) == *old(layouter) && e == (if !mul_fixed::usable(base)
                || base.spec_u()@.len() != NUM_WINDOWS_SHORT {
                Error::FixedBase
            } else {
                Error::Synthesis
            }),
            r matches Ok((product, short)) ==> short.magnitude == magnitude_sign.0 && short.sign
                == magnitude_sign.1 && short.windows@ == crate::circuit::column_cells(
                old(layouter).regions@.len() as usize,
                self.config.advices@[4],
                0,
                window_values(value_of(magnitude_sign.0.value), NUM_WINDOWS_SHORT as nat),
            ) && exists|table: mul_fixed::FixedBaseTable|
                table.wf() && #[trigger] table.describes(base) && mul_fixed::short::Config::of(
                    self.config,
                ).laid_out(*old(layouter), *final(layouter), table, magnitude_sign, product),
    {
        let config = mul_fixed::short::Config::from(&self.config);
        let r = config.assign(layouter, magnitude_sign, base);
        match &r {
            Ok((product, _)) => {
                product.valid();
            },
            Err(_) => {},
        }
        r
    }

    /// Lays out `[base_field_elem] base` as `base_field_elem::Config::assign`
    /// does.
    fn mul_fixed_base_field_elem(
        &self,
        layouter: &mut Layouter,
        base_field_elem: CellValue,
        base: &Fixed,
    ) -> (r: Result<EccPoint, Error>)
        ensures
            r.is_ok() == (mul_fixed::usable(base) && base.spec_u()@.len() == NUM_WINDOWS && old(
                layouter,
            ).rows - old(layouter).used >= NUM_WINDOWS + 3),
            r matches Err(e) ==> *final(layouter) == *old(layouter) && e == (if !mul_fixed::usable(base)
                || base.spec_u()@.len() != NUM_WINDOWS {
                Error::FixedBase
            } else {
                Error::Synthesis
            }),
            r matches Ok(product) ==> exists|table: mul_fixed::FixedBaseTable|
                table.wf() && #[trigger] table.describes(base)
                    && mul_fixed::base_field_elem::Config::of(self.config).laid_out(
                    *old(layouter),
                    *final(layouter),
                    table,
                    base_field_elem,
                    product,
                ),
    {
        let config = mul_fixed::base_field_elem::Config::from(&self.config);
        let r = config.assign(layouter, base_field_elem, base);
        match &r {
            Ok(product) => {
                product.valid();
            },
            Err(_) => {},
        }
        r
    }
}

} // verus!
