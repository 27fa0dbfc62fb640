//! Fixed-base scalar multiplication by 3-bit windows.
//!
//! A scalar is split into windows `k_0, k_1, ..`, least significant first.
//! Window `w` stands for the point `[(k_w + 2) * 8^w] B`, except the last,
//! which stands for `[k_w * 8^w - offset] B`, where `offset` is the sum of
//! `2 * 8^j` over the windows `j` before it. Because of the `2`, no point of
//! a window but the last is the identity, and the points but the last can be
//! summed by incomplete addition; the last is added by complete addition.

use crate::circuit::{
    column_cells, column_constants, height_with, selector_rows, Added, Cell, CellValue, Column,
    Error, FixedValue, Layouter, Region, Selector,
};
use crate::constraints::{Constraint, Expression};
use crate::curve::{
    is_point, is_sum, only_multiple, pallas_add, pallas_mul, point_at, sums_multiples, AffinePoint,
};
use crate::ecc::chip::add_incomplete::add_points;
use crate::ecc::chip::add::addition;
use crate::ecc::chip::{
    add, add_incomplete, point_cells, window_values, windows_of, EccConfig, EccPoint,
};
use crate::ecc::fixed_product;
use crate::ecc::FixedPoints;
use crate::field::{scalar_modulus, Fp, Fq};
use crate::field::limbs_value;
use crate::utilities::{
    decompose_word, lemma_pow8_monotonic, lemma_pow8_positive, lemma_pow8_values, lemma_windows_of,
    lemma_windows_value_bound, pow8, window_of, windows_in_range, windows_value,
};
use vstd::prelude::*;

pub mod base_field_elem;
pub mod full_width;
pub mod short;

verus! {

/// The most windows a scalar is split into.
pub const MAX_WINDOWS: usize = 85;

/// The sum of `2 * 8^j` over `j < n`.
pub open spec fn offset_acc(n: nat) -> nat
    decreases n,
{
    if n == 0 {
        0
    } else {
        offset_acc((n - 1) as nat) + 2 * pow8((n - 1) as nat)
    }
}

/// The scalar by which the base is multiplied for window `w`.
pub open spec fn window_scalar(windows: Seq<u8>, w: int) -> nat {
    if w + 1 < windows.len() {
        (windows[w] as nat + 2) * pow8(w as nat)
    } else {
        ((windows[w] as nat * pow8(w as nat) - offset_acc(w as nat)) % (scalar_modulus() as int)) as nat
    }
}

/// The sum of the scalars of the windows up to `w`, which is not the last.
pub open spec fn acc_scalar(windows: Seq<u8>, w: int) -> nat {
    windows_value(windows.take(w + 1)) + offset_acc((w + 1) as nat)
}

/// The point of window `w`: the multiple of `g` by the window's scalar.
pub open spec fn window_point(g: AffinePoint, windows: Seq<u8>, w: int) -> AffinePoint {
    point_at(pallas_mul(g.coords().0, g.coords().1, window_scalar(windows, w)))
}

/// The sum of the points of the windows up to `w`, added one by one.
pub open spec fn running_sum(g: AffinePoint, windows: Seq<u8>, w: nat) -> AffinePoint
    decreases w,
{
    if w == 0 {
        window_point(g, windows, 0)
    } else {
        let p = window_point(g, windows, w as int);
        let acc = running_sum(g, windows, (w - 1) as nat);
        point_at(pallas_add(p.coords().0, p.coords().1, acc.coords().0, acc.coords().1))
    }
}

/// `7 * offset_acc(n) = 2 * (8^n - 1)`.
pub proof fn lemma_offset_acc(n: nat)
    ensures
        7 * offset_acc(n) + 2 == 2 * pow8(n),
    decreases n,
{
    if n > 0 {
        lemma_offset_acc((n - 1) as nat);
    }
}

/// The scalars of the windows before the last, and their sums, stay below
/// the group order; each sum is below the scalar of the next window.
pub proof fn lemma_acc_bounds(windows: Seq<u8>, w: int)
    requires
        windows_in_range(windows),
        windows.len() <= MAX_WINDOWS,
        0 <= w,
        w + 1 < windows.len(),
    ensures
        0 < window_scalar(windows, w) < scalar_modulus(),
        0 < acc_scalar(windows, w) < scalar_modulus(),
        acc_scalar(windows, w) < 2 * pow8((w + 1) as nat),
        w > 0 ==> acc_scalar(windows, w - 1) < window_scalar(windows, w),
        w > 0 ==> acc_scalar(windows, w - 1) + window_scalar(windows, w) == acc_scalar(
            windows,
            w,
        ),
        w == 0 ==> acc_scalar(windows, w) == window_scalar(windows, w),
        acc_scalar(windows, w) + window_scalar(windows, w) < scalar_modulus(),
{
    let head = windows.take(w + 1);
    assert forall|i: int| 0 <= i < head.len() implies #[trigger] head[i] < 8 by {
        assert(head[i] == windows[i]);
    }
    lemma_windows_value_bound(head);
    lemma_offset_acc((w + 1) as nat);
    lemma_offset_acc(w as nat);
    lemma_pow8_values();
    lemma_pow8_monotonic(w as nat, 83);
    lemma_pow8_monotonic((w + 1) as nat, 84);
    lemma_pow8_positive(w as nat);
    let k = windows[w] as nat;
    let pw = pow8(w as nat);
    assert(pow8((w + 1) as nat) == 8 * pw);
    assert(windows[w] < 8);
    assert((k + 2) * pw == k * pw + 2 * pw) by (nonlinear_arith);
    assert(0 <= k * pw <= 7 * pw) by (nonlinear_arith)
        requires
            0 <= k <= 7,
            pw > 0,
    ;
    assert(head.drop_last() =~= windows.take(w));
    assert(head.last() == windows[w]);
    assert(windows_value(head) == windows_value(windows.take(w)) + k * pw);
    if w > 0 {
        let before = windows.take(w);
        assert forall|i: int| 0 <= i < before.len() implies #[trigger] before[i] < 8 by {
            assert(before[i] == windows[i]);
        }
        lemma_windows_value_bound(before);
    } else {
        assert(windows.take(0).len() == 0);
    }
}

/// The sum of the scalars of all windows is the number that the windows
/// spell, modulo the group order.
pub proof fn lemma_scalars_sum(windows: Seq<u8>)
    requires
        windows_in_range(windows),
        2 <= windows.len() <= MAX_WINDOWS,
    ensures
        (acc_scalar(windows, windows.len() - 2) + window_scalar(windows, windows.len() - 1))
            % scalar_modulus() == windows_value(windows) % scalar_modulus(),
{
    let n = windows.len() as int;
    let q = scalar_modulus() as int;
    let k = windows[n - 1] as int;
    let pw = pow8((n - 1) as nat) as int;
    let off = offset_acc((n - 1) as nat) as int;
    let head = windows_value(windows.take(n - 1)) as int;
    assert(windows.drop_last() =~= windows.take(n - 1));
    assert(windows_value(windows) == head + k * pw);
    let last = window_scalar(windows, n - 1) as int;
    assert(last == (k * pw - off) % q);
    // (head + off + (k * pw - off) % q) % q == (head + k * pw) % q
    vstd::arithmetic::div_mod::lemma_add_mod_noop_right(head + off, k * pw - off, q);
    assert(head + off + (k * pw - off) == head + k * pw);
}

/// The public data of one fixed base, checked and decoded: the generator,
/// which is not the identity, and for each window its recovery values, its
/// offset and its interpolation coefficients.
#[derive(Debug, PartialEq, Eq)]
pub struct FixedBaseTable {
    generator: AffinePoint,
    /// The recovery values as they were given, and decoded.
    encoded: Vec<[[u8; 32]; 8]>,
    u: Vec<[Fp; 8]>,
    z: Vec<u64>,
    lagrange_coeffs: Vec<[Fp; 8]>,
}

/// A vector of the same elements.
fn copy_of<T: Copy>(v: &Vec<T>) -> (r: Vec<T>)
    ensures
        r@ == v@,
{
    let mut r: Vec<T> = Vec::new();
    let mut i: usize = 0;
    while i < v.len()
        invariant
            i <= v@.len(),
            r@ == v@.take(i as int),
        decreases v@.len() - i,
    {
        r.push(v[i]);
        proof {
            assert(r@ =~= v@.take(i + 1));
        }
        i = i + 1;
    }
    proof {
        assert(v@.take(v@.len() as int) =~= v@);
    }
    r
}

impl Clone for FixedBaseTable {
    fn clone(&self) -> (r: Self)
        ensures
            r.wf(),
            r.spec_base() == self.spec_base(),
            r.spec_encoded() == self.spec_encoded(),
            r.spec_recovery() == self.spec_recovery(),
            r.spec_offsets() == self.spec_offsets(),
            r.spec_coeffs() == self.spec_coeffs(),
    {
        proof {
            use_type_invariant(self);
        }
        FixedBaseTable {
            generator: self.generator,
            encoded: copy_of(&self.encoded),
            u: copy_of(&self.u),
            z: copy_of(&self.z),
            lagrange_coeffs: copy_of(&self.lagrange_coeffs),
        }
    }
}

/// A table is itself the public data of a fixed base: the data that it was
/// made of, which is usable.
impl FixedPoints for FixedBaseTable {
    closed spec fn spec_generator(&self) -> AffinePoint {
        self.generator
    }

    closed spec fn spec_u(&self) -> Vec<[[u8; 32]; 8]> {
        self.encoded
    }

    closed spec fn spec_z(&self) -> Vec<u64> {
        self.z
    }

    closed spec fn spec_lagrange_coeffs(&self) -> Vec<[Fp; 8]> {
        self.lagrange_coeffs
    }

    fn generator(&self) -> (r: AffinePoint) {
        self.generator
    }

    fn u(&self) -> (r: Vec<[[u8; 32]; 8]>) {
        copy_of(&self.encoded)
    }

    fn z(&self) -> (r: Vec<u64>) {
        copy_of(&self.z)
    }

    fn lagrange_coeffs(&self) -> (r: Vec<[Fp; 8]>) {
        copy_of(&self.lagrange_coeffs)
    }
}

/// The eight recovery values of one window decode to field elements.
pub open spec fn row_decodes(row: [[u8; 32]; 8], decoded: [Fp; 8]) -> bool {
    forall|k: int|
        0 <= k < 8 ==> (#[trigger] decoded@[k]).wf() && decoded@[k].value()
            == crate::field::le_bytes_value(row@[k]@)
}

/// The eight recovery values of one window are canonical encodings.
pub open spec fn row_canonical(row: [[u8; 32]; 8]) -> bool {
    forall|k: int|
        0 <= k < 8 ==> crate::field::le_bytes_value((#[trigger] row@[k])@)
            < crate::field::base_modulus()
}

/// What makes the data of a fixed base usable: a generator other than the
/// identity, between 2 and 85 windows, as many entries in each table as
/// there are windows, and canonical encodings of the recovery values.
pub open spec fn table_valid(
    generator: AffinePoint,
    u: Seq<[[u8; 32]; 8]>,
    z: Seq<u64>,
    lagrange_coeffs: Seq<[Fp; 8]>,
) -> bool {
    &&& !generator.is_identity_spec()
    &&& 2 <= u.len() <= MAX_WINDOWS
    &&& z.len() == u.len()
    &&& lagrange_coeffs.len() == u.len()
    &&& forall|w: int| 0 <= w < u.len() ==> row_canonical(#[trigger] u[w])
}

/// Whether the public data of a fixed base is usable.
pub open spec fn usable<Fixed: FixedPoints>(base: &Fixed) -> bool {
    table_valid(
        base.spec_generator(),
        base.spec_u()@,
        base.spec_z()@,
        base.spec_lagrange_coeffs()@,
    )
}

impl FixedBaseTable {
    pub closed spec fn spec_base(self) -> AffinePoint {
        self.generator
    }

    /// The recovery values as they were given, window by window.
    pub closed spec fn spec_encoded(self) -> Seq<[[u8; 32]; 8]> {
        self.encoded@
    }

    /// The recovery values, decoded, window by window.
    pub closed spec fn spec_recovery(self) -> Seq<[Fp; 8]> {
        self.u@
    }

    pub closed spec fn spec_offsets(self) -> Seq<u64> {
        self.z@
    }

    pub closed spec fn spec_coeffs(self) -> Seq<[Fp; 8]> {
        self.lagrange_coeffs@
    }

    /// The number of windows that the table serves.
    pub open spec fn spec_num_windows(self) -> nat {
        self.spec_recovery().len()
    }

    #[verifier::type_invariant]
    pub closed spec fn wf(self) -> bool {
        &&& self.generator.wf()
        &&& !self.generator.is_identity_spec()
        &&& 2 <= self.u@.len() <= MAX_WINDOWS
        &&& self.z@.len() == self.u@.len()
        &&& self.lagrange_coeffs@.len() == self.u@.len()
        &&& self.encoded@.len() == self.u@.len()
        &&& forall|w: int|
            0 <= w < self.u@.len() ==> row_decodes(#[trigger] self.encoded@[w], self.u@[w])
    }

    /// What well-formedness says of the tables.
    pub broadcast proof fn lemma_wf(self)
        requires
            #[trigger] self.wf(),
        ensures
            self.spec_base().wf(),
            !self.spec_base().is_identity_spec(),
            2 <= self.spec_num_windows() <= MAX_WINDOWS,
            self.spec_offsets().len() == self.spec_num_windows(),
            self.spec_coeffs().len() == self.spec_num_windows(),
            self.spec_encoded().len() == self.spec_num_windows(),
            forall|w: int|
                0 <= w < self.spec_num_windows() ==> row_decodes(
                    #[trigger] self.spec_encoded()[w],
                    self.spec_recovery()[w],
                ),
    {
    }

    /// A table is the table of itself, taken as the public data of a fixed
    /// base, and that data is usable.
    pub proof fn lemma_describes_itself(self)
        requires
            self.wf(),
        ensures
            usable(&self),
            self.describes(&self),
            self.spec_generator() == self.spec_base(),
            self.spec_u()@ == self.spec_encoded(),
            self.spec_z()@ == self.spec_offsets(),
            self.spec_lagrange_coeffs()@ == self.spec_coeffs(),
    {
        assert forall|w: int| 0 <= w < self.encoded@.len() implies row_canonical(
            #[trigger] self.encoded@[w],
        ) by {
            assert(row_decodes(self.encoded@[w], self.u@[w]));
            assert forall|k: int| 0 <= k < 8 implies crate::field::le_bytes_value(
                (#[trigger] self.encoded@[w]@[k])@,
            ) < crate::field::base_modulus() by {
                self.u@[w]@[k].lemma_canonical();
            }
        }
    }

    /// Decodes the eight recovery values of one window; `None` when one of
    /// them is no canonical encoding.
    fn decode_row(row: &[[u8; 32]; 8]) -> (r: Option<[Fp; 8]>)
        ensures
            r.is_some() == row_canonical(*row),
            r matches Some(decoded) ==> row_decodes(*row, decoded),
    {
        let u0 = Fp::from_repr(&row[0]);
        let u1 = Fp::from_repr(&row[1]);
        let u2 = Fp::from_repr(&row[2]);
        let u3 = Fp::from_repr(&row[3]);
        let u4 = Fp::from_repr(&row[4]);
        let u5 = Fp::from_repr(&row[5]);
        let u6 = Fp::from_repr(&row[6]);
        let u7 = Fp::from_repr(&row[7]);
        match (u0, u1, u2, u3, u4, u5, u6, u7) {
            (Some(a), Some(b), Some(c), Some(d), Some(e), Some(f), Some(g), Some(h)) => {
                let decoded = [a, b, c, d, e, f, g, h];
                assert(row_canonical(*row)) by {
                    assert forall|k: int| 0 <= k < 8 implies crate::field::le_bytes_value(
                        (#[trigger] row@[k])@,
                    ) < crate::field::base_modulus() by {
                        if k == 0 {
                        } else if k == 1 {
                        } else if k == 2 {
                        } else if k == 3 {
                        } else if k == 4 {
                        } else if k == 5 {
                        } else if k == 6 {
                        } else {
                            assert(k == 7);
                        }
                    }
                }
                Some(decoded)
            },
            _ => {
                assert(!row_canonical(*row)) by {
                    if row_canonical(*row) {
                        assert(crate::field::le_bytes_value(row@[0]@)
                            < crate::field::base_modulus());
                        assert(crate::field::le_bytes_value(row@[1]@)
                            < crate::field::base_modulus());
                        assert(crate::field::le_bytes_value(row@[2]@)
                            < crate::field::base_modulus());
                        assert(crate::field::le_bytes_value(row@[3]@)
                            < crate::field::base_modulus());
                        assert(crate::field::le_bytes_value(row@[4]@)
                            < crate::field::base_modulus());
                        assert(crate::field::le_bytes_value(row@[5]@)
                            < crate::field::base_modulus());
                        assert(crate::field::le_bytes_value(row@[6]@)
                            < crate::field::base_modulus());
                        assert(crate::field::le_bytes_value(row@[7]@)
                            < crate::field::base_modulus());
                    }
                }
                None
            },
        }
    }

    /// The table of a fixed base from its public data; `None` unless the
    /// data is usable.
    pub fn new(
        generator: AffinePoint,
        u: Vec<[[u8; 32]; 8]>,
        z: Vec<u64>,
        lagrange_coeffs: Vec<[Fp; 8]>,
    ) -> (r: Option<FixedBaseTable>)
        ensures
            r.is_some() == table_valid(generator, u@, z@, lagrange_coeffs@),
            r matches Some(table) ==> table.wf() && table.spec_base() == generator
                && table.spec_offsets() == z@ && table.spec_coeffs() == lagrange_coeffs@
                && table.spec_encoded() == u@ && table.spec_recovery().len() == u@.len() && forall|w: int|
                0 <= w < u@.len() ==> row_decodes(u@[w], #[trigger] table.spec_recovery()[w]),
    {
        generator.valid();
        if generator.is_identity() || u.len() < 2 || u.len() > MAX_WINDOWS || z.len() != u.len()
            || lagrange_coeffs.len() != u.len() {
            return None;
        }
        let mut decoded: Vec<[Fp; 8]> = Vec::new();
        let mut w: usize = 0;
        while w < u.len()
            invariant
                w <= u@.len(),
                decoded@.len() == w,
                forall|i: int| 0 <= i < w ==> row_canonical(#[trigger] u@[i]),
                forall|i: int| 0 <= i < w ==> row_decodes(u@[i], #[trigger] decoded@[i]),
            decreases u@.len() - w,
        {
            match Self::decode_row(&u[w]) {
                Some(row) => {
                    decoded.push(row);
                },
                None => {
                    return None;
                },
            }
            w = w + 1;
        }
        Some(FixedBaseTable { generator, encoded: u, u: decoded, z, lagrange_coeffs })
    }

    /// Whether this is the table of the fixed base `base`: the same
    /// generator, offsets and coefficients, and the recovery values decoded.
    pub open spec fn describes<Fixed: FixedPoints>(self, base: &Fixed) -> bool {
        &&& self.spec_base() == base.spec_generator()
        &&& self.spec_offsets() == base.spec_z()@
        &&& self.spec_coeffs() == base.spec_lagrange_coeffs()@
        &&& self.spec_recovery().len() == base.spec_u()@.len()
        &&& forall|w: int|
            0 <= w < self.spec_recovery().len() ==> row_decodes(
                base.spec_u()@[w],
                #[trigger] self.spec_recovery()[w],
            )
    }

    /// A fixed base has one table: two tables of the same base hold the
    /// same generator, offsets, coefficients and recovery values.
    pub proof fn lemma_described_once<Fixed: FixedPoints>(self, other: FixedBaseTable, base: &Fixed)
        requires
            self.describes(base),
            other.describes(base),
        ensures
            self.spec_base() == other.spec_base(),
            self.spec_offsets() == other.spec_offsets(),
            self.spec_coeffs() == other.spec_coeffs(),
            self.spec_num_windows() == other.spec_num_windows(),
            forall|w: int, k: int|
                0 <= w < self.spec_num_windows() && 0 <= k < 8 ==> #[trigger] self.spec_recovery()[w]@[k]
                    == other.spec_recovery()[w]@[k],
    {
        assert forall|w: int, k: int|
            0 <= w < self.spec_num_windows() && 0 <= k < 8 implies #[trigger] self.spec_recovery()[w]@[k]
            == other.spec_recovery()[w]@[k] by {
            assert(row_decodes(base.spec_u()@[w], self.spec_recovery()[w]));
            assert(row_decodes(base.spec_u()@[w], other.spec_recovery()[w]));
            Fp::lemma_value_injective(self.spec_recovery()[w]@[k], other.spec_recovery()[w]@[k]);
        }
    }

    /// The table of a fixed base; `None` unless its public data is usable.
    pub fn load<Fixed: FixedPoints>(base: &Fixed) -> (r: Option<FixedBaseTable>)
        ensures
            r.is_some() == usable(base),
            r matches Some(table) ==> table.wf() && table.describes(base),
    {
        Self::new(base.generator(), base.u(), base.z(), base.lagrange_coeffs())
    }

    pub fn generator(&self) -> (r: AffinePoint)
        ensures
            r == self.spec_base(),
            r.wf(),
            !r.is_identity_spec(),
    {
        proof {
            use_type_invariant(self);
        }
        self.generator
    }

    pub fn num_windows(&self) -> (r: usize)
        ensures
            r == self.spec_num_windows(),
            2 <= r <= MAX_WINDOWS,
    {
        proof {
            use_type_invariant(self);
        }
        self.u.len()
    }

    /// The recovery value of window `w` for the window value `k`.
    pub fn u(&self, w: usize, k: u8) -> (r: Fp)
        requires
            w < self.spec_num_windows(),
            k < 8,
        ensures
            r == self.spec_recovery()[w as int]@[k as int],
    {
        self.u[w][k as usize]
    }

    /// The offset of window `w`.
    pub fn z(&self, w: usize) -> (r: u64)
        requires
            w < self.spec_num_windows(),
        ensures
            r == self.spec_offsets()[w as int],
    {
        proof {
            use_type_invariant(self);
        }
        self.z[w]
    }

    /// The coefficient of degree `j` of the interpolation polynomial of
    /// window `w`.
    pub fn lagrange_coeff(&self, w: usize, j: usize) -> (r: Fp)
        requires
            w < self.spec_num_windows(),
            j < 8,
        ensures
            r == self.spec_coeffs()[w as int]@[j as int],
    {
        proof {
            use_type_invariant(self);
        }
        self.lagrange_coeffs[w][j]
    }
}

/// The points of all windows.
pub open spec fn spec_points(g: AffinePoint, windows: Seq<u8>) -> Seq<AffinePoint> {
    Seq::new(windows.len(), |w: int| window_point(g, windows, w))
}

/// The running sums of the points of all windows but the last.
pub open spec fn spec_sums(g: AffinePoint, windows: Seq<u8>) -> Seq<AffinePoint> {
    Seq::new((windows.len() - 1) as nat, |w: int| running_sum(g, windows, w as nat))
}

/// The points of the windows and their running sums, as the windows of a
/// known scalar determine them.
///
/// Window `w` but the last has the point `[(k_w + 2) * 8^w] g`, the last
/// window the point `[k_w * 8^w - offset] g`. Running sum `w` is the
/// multiple of `g` by the sum of the scalars of the windows up to `w`. No
/// incomplete addition on the way meets two points that it cannot add.
pub fn window_points(generator: &AffinePoint, windows: &Vec<u8>) -> (r: (
    Vec<AffinePoint>,
    Vec<AffinePoint>,
))
    requires
        !generator.is_identity_spec(),
        2 <= windows@.len() <= MAX_WINDOWS,
        windows_in_range(windows@),
    ensures
        r.0@ == spec_points(*generator, windows@),
        r.1@ == spec_sums(*generator, windows@),
        forall|w: int|
            0 <= w < windows@.len() ==> (#[trigger] r.0@[w]).wf() && r.0@[w].coords()
                == pallas_mul(
                generator.coords().0,
                generator.coords().1,
                window_scalar(windows@, w),
            ),
        forall|w: int|
            0 <= w < windows@.len() - 1 ==> (#[trigger] r.1@[w]).wf() && !r.1@[w].is_identity_spec()
                && r.1@[w].coords() == pallas_mul(
                generator.coords().0,
                generator.coords().1,
                acc_scalar(windows@, w),
            ),
{
    generator.valid();
    let n = windows.len();
    let ghost g = *generator;
    let ghost ws = windows@;
    let ghost gx = generator.coords().0;
    let ghost gy = generator.coords().1;
    let ghost q = scalar_modulus();
    let eight = Fq::from_u64(8);
    let two = Fq::from_u64(2);
    let mut h = Fq::one();
    let mut off = Fq::zero();
    let mut points: Vec<AffinePoint> = Vec::new();
    let mut sums: Vec<AffinePoint> = Vec::new();
    let mut w: usize = 0;
    proof {
        lemma_pow8_values();
    }
    while w < n
        invariant
            n == windows@.len(),
            ws == windows@,
            g == *generator,
            gx == g.coords().0,
            gy == g.coords().1,
            q == scalar_modulus(),
            is_point(gx, gy),
            !g.is_identity_spec(),
            2 <= n <= MAX_WINDOWS,
            windows_in_range(ws),
            eight.value() == 8,
            two.value() == 2,
            w <= n,
            points@.len() == w,
            sums@.len() == (if w < n {
                w
            } else {
                (n - 1) as usize
            }),
            w < n ==> h.value() == pow8(w as nat) && off.value() == offset_acc(w as nat),
            forall|i: int|
                0 <= i < w ==> (#[trigger] points@[i]).wf() && points@[i] == window_point(g, ws, i)
                    && points@[i].coords() == pallas_mul(gx, gy, window_scalar(ws, i)),
            forall|i: int|
                0 <= i < sums@.len() ==> (#[trigger] sums@[i]).wf() && !sums@[i].is_identity_spec()
                    && sums@[i] == running_sum(g, ws, i as nat) && sums@[i].coords() == pallas_mul(
                    gx,
                    gy,
                    acc_scalar(ws, i),
                ),
        decreases n - w,
    {
        let k: u8 = windows[w];
        assert(ws[w as int] < 8);
        h.canonical();
        off.canonical();
        let ghost pw = pow8(w as nat);
        proof {
            lemma_pow8_values();
            lemma_pow8_monotonic(w as nat, 84);
            lemma_pow8_positive(w as nat);
            lemma_offset_acc(w as nat);
        }
        if w + 1 < n {
            let scalar = Fq::from_u64((k + 2) as u64).mul(&h);
            proof {
                lemma_acc_bounds(ws, w as int);
                vstd::arithmetic::div_mod::lemma_small_mod(window_scalar(ws, w as int), q);
            }
            let p = generator.mul(&scalar);
            proof {
                p.lemma_point_at();
            }
            points.push(p);
            if w == 0 {
                sums.push(p);
            } else {
                let acc = sums[w - 1];
                let ghost m = acc_scalar(ws, w - 1);
                let ghost nn = window_scalar(ws, w as int);
                proof {
                    lemma_acc_bounds(ws, w - 1);
                    assert(acc.coords() == pallas_mul(gx, gy, m));
                    assert(p.coords() == pallas_mul(gx, gy, nn));
                    assert(only_multiple(gx, gy, nn, p.coords()));
                    vstd::arithmetic::div_mod::lemma_small_mod((q - m) as nat, q);
                    vstd::arithmetic::div_mod::lemma_small_mod((nn + m) as nat, q);
                }
                let sum = add_points(&p, &acc);
                proof {
                    if sum.is_none() {
                        if p == acc {
                            assert(pallas_mul(gx, gy, m) == p.coords());
                            assert(m == nn);
                        } else if crate::curve::is_negation(acc, p) {
                            assert(p.coords() == pallas_mul(gx, gy, ((q - m) % (q as int)) as nat));
                            assert(((q - m) % (q as int)) as nat == nn);
                        }
                        assert(false);
                    }
                }
                match sum {
                    Some(s) => {
                        proof {
                            assert(is_sum(p, acc, s));
                            assert(sums_multiples(p.coords(), acc.coords(), s.coords()));
                            assert(s.coords() == pallas_mul(gx, gy, ((nn + m) % q) as nat));
                            assert(nn + m == acc_scalar(ws, w as int));
                            s.lemma_point_at();
                            assert(s == running_sum(g, ws, w as nat));
                        }
                        sums.push(s);
                    },
                    None => {},
                }
            }
            let step = two.mul(&h);
            off = off.add(&step);
            h = h.mul(&eight);
            proof {
                lemma_pow8_monotonic((w + 1) as nat, 84);
                lemma_offset_acc((w + 1) as nat);
                vstd::arithmetic::div_mod::lemma_small_mod(2 * pw, q);
                vstd::arithmetic::div_mod::lemma_small_mod(offset_acc((w + 1) as nat), q);
                vstd::arithmetic::div_mod::lemma_small_mod(pow8((w + 1) as nat), q);
                assert(pw * 8 == pow8((w + 1) as nat));
            }
        } else {
            let scalar = Fq::from_u64(k as u64).mul(&h).sub(&off);
            proof {
                let x = (k as int) * (pw as int);
                let o = offset_acc(w as nat) as int;
                let qi = q as int;
                vstd::arithmetic::div_mod::lemma_add_mod_noop_right(qi - o, x, qi);
                vstd::arithmetic::div_mod::lemma_mod_add_multiples_vanish(x - o, qi);
                assert((qi - o) + x == qi + (x - o));
                assert((qi - o) + x % qi == x % qi + qi - o);
                assert(scalar.value() == window_scalar(ws, w as int));
            }
            let p = generator.mul(&scalar);
            proof {
                p.lemma_point_at();
            }
            points.push(p);
        }
        w = w + 1;
    }
    proof {
        assert(points@ =~= spec_points(g, ws));
        assert(sums@ =~= spec_sums(g, ws));
    }
    (points, sums)
}

/// The columns that fixed-base scalar multiplication uses, and the
/// configurations of the two additions it is built from.
#[derive(Clone, Copy, Debug)]
pub struct Config {
    /// The coefficients of the interpolation polynomial of a row's window,
    /// lowest degree first.
    pub lagrange_coeffs: [Column; 8],
    /// The offset `z` of a row's window.
    pub fixed_z: Column,
    /// The value of a row's window.
    pub window: Column,
    /// The point of a row's window.
    pub x_p: Column,
    pub y_p: Column,
    /// The recovery value `u` of a row's window, with `u^2 = y_p + z`.
    pub u: Column,
    pub add_config: add::Config,
    pub add_incomplete_config: add_incomplete::Config,
}

/// The x-coordinates of `n` points, or `n` unknown values.
pub open spec fn xs_of(points: Option<Seq<AffinePoint>>, n: nat) -> Seq<Option<Fp>> {
    Seq::new(
        n,
        |w: int|
            match points {
                Some(ps) => Some(ps[w].spec_x()),
                None => None,
            },
    )
}

/// The y-coordinates of `n` points, or `n` unknown values.
pub open spec fn ys_of(points: Option<Seq<AffinePoint>>, n: nat) -> Seq<Option<Fp>> {
    Seq::new(
        n,
        |w: int|
            match points {
                Some(ps) => Some(ps[w].spec_y()),
                None => None,
            },
    )
}

/// The recovery values that the table holds for the windows of a scalar.
pub open spec fn recovery_values(table: FixedBaseTable, windows: Option<Seq<u8>>) -> Seq<
    Option<Fp>,
> {
    Seq::new(
        table.spec_num_windows(),
        |w: int|
            match windows {
                Some(ws) => Some(table.spec_recovery()[w]@[ws[w] as int]),
                None => None,
            },
    )
}

/// The coefficients of degree `j` of all windows.
pub open spec fn coefficients(table: FixedBaseTable, j: int) -> Seq<Fp> {
    Seq::new(table.spec_num_windows(), |w: int| table.spec_coeffs()[w]@[j])
}

/// The offsets of all windows, as field elements.
pub open spec fn offsets(table: FixedBaseTable) -> Seq<Fp> {
    Seq::new(table.spec_num_windows(), |w: int| Fp::spec_from_u64(table.spec_offsets()[w]))
}

/// The constants of the first `j` coefficient columns at the rows of the
/// windows.
pub open spec fn coefficient_columns(
    columns: [Column; 8],
    table: FixedBaseTable,
    offset: usize,
    j: nat,
) -> Seq<FixedValue>
    decreases j,
{
    if j == 0 {
        Seq::empty()
    } else {
        coefficient_columns(columns, table, offset, (j - 1) as nat) + column_constants(
            columns@[j - 1],
            offset,
            coefficients(table, j - 1),
        )
    }
}

/// The points of the windows of a scalar, if it is known.
pub open spec fn points_of(g: AffinePoint, windows: Option<Seq<u8>>) -> Option<Seq<AffinePoint>> {
    match windows {
        Some(ws) => Some(spec_points(g, ws)),
        None => None,
    }
}

/// The running sums of the windows of a scalar, if it is known.
pub open spec fn sums_of(g: AffinePoint, windows: Option<Seq<u8>>) -> Option<Seq<AffinePoint>> {
    match windows {
        Some(ws) => Some(spec_sums(g, ws)),
        None => None,
    }
}

impl Config {
    /// What multiplying lays out in a region with index `index`, from row
    /// `offset` on, one row for each window.
    ///
    /// Every row has the selector `toggle` on, the coefficients and the
    /// offset of its window in the fixed columns, and the point and the
    /// recovery value of its window in `x_p`, `y_p` and `u`. The running sum
    /// of the windows up to `w` stands in `x_qr`, `y_qr` of row `w + 1`; the
    /// first running sum is tied to the first point, and the rows in which a
    /// running sum is added to a point have the selector of incomplete
    /// addition on.
    pub open spec fn laid_out(
        self,
        toggle: Selector,
        index: usize,
        offset: usize,
        table: FixedBaseTable,
        windows: Option<Seq<u8>>,
    ) -> Added {
        let n = table.spec_num_windows();
        let g = table.spec_base();
        let x_qr = self.add_incomplete_config.x_qr;
        let y_qr = self.add_incomplete_config.y_qr;
        let below = (offset + 1) as usize;
        Added {
            selectors: selector_rows(toggle, offset, n) + selector_rows(
                self.add_incomplete_config.q_add_incomplete,
                below,
                (n - 2) as nat,
            ),
            fixed: coefficient_columns(self.lagrange_coeffs, table, offset, 8) + column_constants(
                self.fixed_z,
                offset,
                offsets(table),
            ),
            advice: column_cells(index, self.x_p, offset, xs_of(points_of(g, windows), n))
                + column_cells(index, self.y_p, offset, ys_of(points_of(g, windows), n))
                + column_cells(index, self.u, offset, recovery_values(table, windows))
                + column_cells(index, x_qr, below, xs_of(sums_of(g, windows), (n - 1) as nat))
                + column_cells(index, y_qr, below, ys_of(sums_of(g, windows), (n - 1) as nat)),
            copies: seq![
                (
                    Cell { region: index, row: offset, column: self.x_p },
                    Cell { region: index, row: below, column: x_qr },
                ),
                (
                    Cell { region: index, row: offset, column: self.y_p },
                    Cell { region: index, row: below, column: y_qr },
                ),
            ],
        }
    }

    /// The coordinates of `n` points as two columns of values.
    fn coordinates(points: &Option<Vec<AffinePoint>>, n: usize) -> (r: (
        Vec<Option<Fp>>,
        Vec<Option<Fp>>,
    ))
        requires
            points matches Some(ps) ==> ps@.len() == n,
        ensures
            r.0@ == xs_of(
                match points {
                    Some(ps) => Some(ps@),
                    None => None,
                },
                n as nat,
            ),
            r.1@ == ys_of(
                match points {
                    Some(ps) => Some(ps@),
                    None => None,
                },
                n as nat,
            ),
    {
        let ghost view: Option<Seq<AffinePoint>> = match points {
            Some(ps) => Some(ps@),
            None => None,
        };
        let mut xs: Vec<Option<Fp>> = Vec::new();
        let mut ys: Vec<Option<Fp>> = Vec::new();
        let mut w: usize = 0;
        while w < n
            invariant
                w <= n,
                points matches Some(ps) ==> ps@.len() == n,
                view == match points {
                    Some(ps) => Some(ps@),
                    None => None,
                },
                xs@ == xs_of(view, w as nat),
                ys@ == ys_of(view, w as nat),
            decreases n - w,
        {
            match points {
                Some(ps) => {
                    xs.push(Some(ps[w].x()));
                    ys.push(Some(ps[w].y()));
                },
                None => {
                    xs.push(None);
                    ys.push(None);
                },
            }
            w = w + 1;
            proof {
                assert(xs@ =~= xs_of(view, w as nat));
                assert(ys@ =~= ys_of(view, w as nat));
            }
        }
        (xs, ys)
    }

    /// The recovery values for the windows of a scalar as a column of
    /// values.
    fn recovery_column(table: &FixedBaseTable, windows: &Option<Vec<u8>>) -> (r: Vec<Option<Fp>>)
        requires
            windows matches Some(ws) ==> ws@.len() == table.spec_num_windows() && windows_in_range(
                ws@,
            ),
        ensures
            r@ == recovery_values(
                *table,
                match windows {
                    Some(ws) => Some(ws@),
                    None => None,
                },
            ),
    {
        let ghost view: Option<Seq<u8>> = match windows {
            Some(ws) => Some(ws@),
            None => None,
        };
        let n = table.num_windows();
        let mut us: Vec<Option<Fp>> = Vec::new();
        let mut w: usize = 0;
        while w < n
            invariant
                w <= n,
                n == table.spec_num_windows(),
                windows matches Some(ws) ==> ws@.len() == n && windows_in_range(ws@),
                view == match windows {
                    Some(ws) => Some(ws@),
                    None => None,
                },
                us@.len() == w,
                forall|i: int| 0 <= i < w ==> #[trigger] us@[i] == recovery_values(*table, view)[i],
            decreases n - w,
        {
            match windows {
                Some(ws) => {
                    assert(ws@[w as int] < 8);
                    us.push(Some(table.u(w, ws[w])));
                },
                None => {
                    us.push(None);
                },
            }
            w = w + 1;
        }
        proof {
            assert(us@ =~= recovery_values(*table, view));
        }
        us
    }

    /// The coefficients of degree `j` of all windows as a column of
    /// constants.
    fn coefficient_column(table: &FixedBaseTable, j: usize) -> (r: Vec<Fp>)
        requires
            j < 8,
        ensures
            r@ == coefficients(*table, j as int),
    {
        let n = table.num_windows();
        let mut column: Vec<Fp> = Vec::new();
        let mut w: usize = 0;
        while w < n
            invariant
                w <= n,
                j < 8,
                n == table.spec_num_windows(),
                column@.len() == w,
                forall|i: int| 0 <= i < w ==> #[trigger] column@[i] == coefficients(*table, j as int)[i],
            decreases n - w,
        {
            column.push(table.lagrange_coeff(w, j));
            w = w + 1;
        }
        proof {
            assert(column@ =~= coefficients(*table, j as int));
        }
        column
    }

    /// The offsets of all windows as a column of constants.
    fn offset_column(table: &FixedBaseTable) -> (r: Vec<Fp>)
        ensures
            r@ == offsets(*table),
    {
        let n = table.num_windows();
        let mut column: Vec<Fp> = Vec::new();
        let mut w: usize = 0;
        while w < n
            invariant
                w <= n,
                n == table.spec_num_windows(),
                column@.len() == w,
                forall|i: int| 0 <= i < w ==> #[trigger] column@[i] == offsets(*table)[i],
            decreases n - w,
        {
            column.push(Fp::from_u64(table.z(w)));
            w = w + 1;
        }
        proof {
            assert(column@ =~= offsets(*table));
        }
        column
    }

    /// Loads the constants of the table into the fixed columns and switches
    /// `toggle` on, at the rows of the windows, which the region has.
    fn assign_fixed_constants(
        &self,
        region: &mut Region,
        offset: usize,
        table: &FixedBaseTable,
        toggle: Selector,
    )
        requires
            old(region).wf(),
            offset + table.spec_num_windows() <= old(region).room,
        ensures
            final(region).wf(),
            Region::extends(
                *old(region),
                *final(region),
                height_with(old(region).height, (offset + table.spec_num_windows() - 1) as usize),
                Added {
                    selectors: selector_rows(toggle, offset, table.spec_num_windows()),
                    advice: Seq::empty(),
                    fixed: coefficient_columns(self.lagrange_coeffs, *table, offset, 8)
                        + column_constants(self.fixed_z, offset, offsets(*table)),
                    copies: Seq::empty(),
                },
            ),
    {
        let n = table.num_windows();
        let ghost start = *region;
        let ghost top = height_with(start.height, (offset + n - 1) as usize);
        region.enable_rows(toggle, offset, n);
        let mut j: usize = 0;
        while j < 8
            invariant
                j <= 8,
                n == table.spec_num_windows(),
                2 <= n <= MAX_WINDOWS,
                offset + n <= region.room,
                region.wf(),
                top == height_with(start.height, (offset + n - 1) as usize),
                Region::extends(
                    start,
                    *region,
                    top,
                    Added {
                        selectors: selector_rows(toggle, offset, n as nat),
                        advice: Seq::empty(),
                        fixed: coefficient_columns(self.lagrange_coeffs, *table, offset, j as nat),
                        copies: Seq::empty(),
                    },
                ),
            decreases 8 - j,
        {
            let column = Self::coefficient_column(table, j);
            region.assign_fixed_column(self.lagrange_coeffs[j], offset, &column);
            proof {
                region.records().lemma_same(
                    start.records().followed_by(
                        Added {
                            selectors: selector_rows(toggle, offset, n as nat),
                            advice: Seq::empty(),
                            fixed: coefficient_columns(
                                self.lagrange_coeffs,
                                *table,
                                offset,
                                (j + 1) as nat,
                            ),
                            copies: Seq::empty(),
                        },
                    ),
                );
            }
            j = j + 1;
        }
        let column = Self::offset_column(table);
        region.assign_fixed_column(self.fixed_z, offset, &column);
        proof {
            region.records().lemma_same(
                start.records().followed_by(
                    Added {
                        selectors: selector_rows(toggle, offset, n as nat),
                        advice: Seq::empty(),
                        fixed: coefficient_columns(self.lagrange_coeffs, *table, offset, 8)
                            + column_constants(self.fixed_z, offset, offsets(*table)),
                        copies: Seq::empty(),
                    },
                ),
            );
        }
    }
}

/// What the two points that multiplying returns are, when the scalar is
/// known: `acc` is the running sum of all windows but the last, `last` is
/// the point of the last window, and both are the multiples of the
/// generator by the scalars that the windows give.
pub open spec fn multiplied(
    g: AffinePoint,
    windows: Seq<u8>,
    acc: AffinePoint,
    last: AffinePoint,
) -> bool {
    let n = windows.len() as int;
    &&& acc.wf()
    &&& last.wf()
    &&& acc == running_sum(g, windows, (n - 2) as nat)
    &&& last == window_point(g, windows, n - 1)
    &&& acc.coords() == pallas_mul(g.coords().0, g.coords().1, acc_scalar(windows, n - 2))
    &&& last.coords() == pallas_mul(g.coords().0, g.coords().1, window_scalar(windows, n - 1))
}

impl Config {
    /// Lays out the multiplication of the table's generator by the scalar
    /// with the given windows, from row `offset` on, and returns the running
    /// sum of all windows but the last and the point of the last window.
    /// Their sum, by complete addition, is the product.
    ///
    /// Fails only when the region lacks one of the rows, one for each
    /// window, and then changes nothing.
    pub fn assign_region_inner(
        &self,
        region: &mut Region,
        offset: usize,
        windows: &Option<Vec<u8>>,
        table: &FixedBaseTable,
        coords_check_toggle: Selector,
    ) -> (r: Result<(EccPoint, EccPoint), Error>)
        requires
            old(region).wf(),
            windows matches Some(ws) ==> ws@.len() == table.spec_num_windows() && windows_in_range(
                ws@,
            ),
        ensures
            final(region).wf(),
            r.is_ok() == (offset + table.spec_num_windows() <= old(region).room),
            r matches Err(e) ==> e == Error::Synthesis && *final(region) == *old(region),
            r matches Ok((acc, last)) ==> {
                let n = table.spec_num_windows();
                let bottom = (offset + n - 1) as usize;
                &&& Region::extends(
                    *old(region),
                    *final(region),
                    height_with(old(region).height, bottom),
                    self.laid_out(
                        coords_check_toggle,
                        old(region).index,
                        offset,
                        *table,
                        match windows {
                            Some(ws) => Some(ws@),
                            None => None,
                        },
                    ),
                )
                &&& acc.spec_x().cell == (Cell {
                    region: old(region).index,
                    row: bottom,
                    column: self.add_incomplete_config.x_qr,
                })
                &&& acc.spec_y().cell == (Cell {
                    region: old(region).index,
                    row: bottom,
                    column: self.add_incomplete_config.y_qr,
                })
                &&& last.spec_x().cell == (Cell {
                    region: old(region).index,
                    row: bottom,
                    column: self.x_p,
                })
                &&& last.spec_y().cell == (Cell {
                    region: old(region).index,
                    row: bottom,
                    column: self.y_p,
                })
                &&& match windows {
                    Some(ws) => acc.spec_point().is_some() && last.spec_point().is_some()
                        && multiplied(
                        table.spec_base(),
                        ws@,
                        acc.spec_point().unwrap(),
                        last.spec_point().unwrap(),
                    ),
                    None => acc.spec_point().is_none() && last.spec_point().is_none(),
                }
            },
    {
        let n = table.num_windows();
        if offset > usize::MAX - n || offset + n > region.room {
            return Err(Error::Synthesis);
        }
        let ghost start = *region;
        let ghost view: Option<Seq<u8>> = match windows {
            Some(ws) => Some(ws@),
            None => None,
        };
        let ghost bottom = (offset + n - 1) as usize;
        let ghost top = height_with(start.height, bottom);
        let ghost expected = self.laid_out(coords_check_toggle, start.index, offset, *table, view);
        let x_qr = self.add_incomplete_config.x_qr;
        let y_qr = self.add_incomplete_config.y_qr;
        let generator = table.generator();
        self.assign_fixed_constants(region, offset, table, coords_check_toggle);
        let (points, sums): (Option<Vec<AffinePoint>>, Option<Vec<AffinePoint>>) = match windows {
            Some(ws) => {
                let (points, sums) = window_points(&generator, ws);
                (Some(points), Some(sums))
            },
            None => (None, None),
        };
        let (xs, ys) = Self::coordinates(&points, n);
        let us = Self::recovery_column(table, windows);
        let (sum_xs, sum_ys) = Self::coordinates(&sums, n - 1);
        let _ = region.assign_column(self.x_p, offset, &xs);
        let _ = region.assign_column(self.y_p, offset, &ys);
        let _ = region.assign_column(self.u, offset, &us);
        let _ = region.assign_column(x_qr, offset + 1, &sum_xs);
        let _ = region.assign_column(y_qr, offset + 1, &sum_ys);
        if n > 2 {
            region.enable_rows(self.add_incomplete_config.q_add_incomplete, offset + 1, n - 2);
        }
        region.constrain_equal(
            Cell { region: region.index, row: offset, column: self.x_p },
            Cell { region: region.index, row: offset + 1, column: x_qr },
        );
        region.constrain_equal(
            Cell { region: region.index, row: offset, column: self.y_p },
            Cell { region: region.index, row: offset + 1, column: y_qr },
        );
        let acc_value: Option<AffinePoint> = match &sums {
            Some(sums) => Some(sums[n - 2]),
            None => None,
        };
        let last_value: Option<AffinePoint> = match &points {
            Some(points) => Some(points[n - 1]),
            None => None,
        };
        let acc = EccPoint::from_cells(
            Cell { region: region.index, row: offset + n - 1, column: x_qr },
            Cell { region: region.index, row: offset + n - 1, column: y_qr },
            acc_value,
        );
        let last = EccPoint::from_cells(
            Cell { region: region.index, row: offset + n - 1, column: self.x_p },
            Cell { region: region.index, row: offset + n - 1, column: self.y_p },
            last_value,
        );
        proof {
            region.records().lemma_same(start.records().followed_by(expected));
        }
        Ok((acc, last))
    }
}

/// The polynomial `window^j`.
pub open spec fn window_power(window: Expression, j: nat) -> Expression
    decreases j,
{
    if j == 0 {
        Expression::Constant(Fp::spec_from_u64(1))
    } else {
        Expression::Product(Box::new(window_power(window, (j - 1) as nat)), Box::new(window))
    }
}

/// The polynomial that is the sum of `window^i` times the coefficient in
/// column `i`, over `i < j`.
pub open spec fn interpolation(window: Expression, columns: [Column; 8], j: nat) -> Expression
    decreases j,
{
    if j == 0 {
        Expression::Constant(Fp::spec_from_u64(0))
    } else {
        Expression::Sum(
            Box::new(interpolation(window, columns, (j - 1) as nat)),
            Box::new(
                Expression::Product(
                    Box::new(window_power(window, (j - 1) as nat)),
                    Box::new(Expression::Fixed(columns@[j - 1])),
                ),
            ),
        )
    }
}

impl Config {
    /// The three polynomials that tie the point of a row to its window,
    /// each under the selector `q`: the interpolation polynomial of the
    /// window gives `x_p`; `u^2 = y_p + z`; and `(x_p, y_p)` is on the curve.
    pub open spec fn spec_coords_check(self, q: Expression, window: Expression) -> Seq<
        Constraint,
    > {
        let x_p = Expression::Advice(self.x_p);
        let y_p = Expression::Advice(self.y_p);
        let z = Expression::Fixed(self.fixed_z);
        let u = Expression::Advice(self.u);
        let x_check = interpolation(window, self.lagrange_coeffs, 8).spec_minus(x_p);
        let y_check = Expression::Product(Box::new(u), Box::new(u)).spec_minus(y_p).spec_minus(z);
        let on_curve = Expression::Product(Box::new(y_p), Box::new(y_p)).spec_minus(
            Expression::Product(
                Box::new(Expression::Product(Box::new(x_p), Box::new(x_p))),
                Box::new(x_p),
            ),
        ).spec_minus(Expression::Constant(Fp::spec_from_u64(5)));
        seq![
            Constraint { name: "check x", poly: Expression::Product(Box::new(q), Box::new(x_check)) },
            Constraint { name: "check y", poly: Expression::Product(Box::new(q), Box::new(y_check)) },
            Constraint {
                name: "on-curve",
                poly: Expression::Product(Box::new(q), Box::new(on_curve)),
            },
        ]
    }

    /// The polynomial `window^j`.
    fn power(window: &Expression, j: usize) -> (r: Expression)
        requires
            window.wf(),
        ensures
            r.wf(),
            r == window_power(*window, j as nat),
    {
        broadcast use Fp::lemma_from_u64;

        let mut acc = Expression::Constant(Fp::from_u64(1));
        let mut i: usize = 0;
        while i < j
            invariant
                i <= j,
                window.wf(),
                acc.wf(),
                acc == window_power(*window, i as nat),
            decreases j - i,
        {
            acc = acc.times(window.duplicate());
            i = i + 1;
        }
        acc
    }

    /// The interpolation polynomial of a row's window.
    fn interpolated_x(&self, window: &Expression) -> (r: Expression)
        requires
            window.wf(),
        ensures
            r.wf(),
            r == interpolation(*window, self.lagrange_coeffs, 8),
    {
        broadcast use Fp::lemma_from_u64;

        let mut acc = Expression::Constant(Fp::from_u64(0));
        let mut j: usize = 0;
        while j < 8
            invariant
                j <= 8,
                window.wf(),
                acc.wf(),
                acc == interpolation(*window, self.lagrange_coeffs, j as nat),
            decreases 8 - j,
        {
            let term = Self::power(window, j).times(Expression::Fixed(self.lagrange_coeffs[j]));
            proof {
                reveal_with_fuel(Expression::wf, 2);
            }
            acc = acc.plus(term);
            j = j + 1;
        }
        acc
    }

    /// The polynomials that tie the point of a row to its window, each
    /// under the selector `q_mul_fixed`.
    pub fn coords_check(&self, q_mul_fixed: Expression, window: Expression) -> (r: Vec<Constraint>)
        requires
            q_mul_fixed.wf(),
            window.wf(),
        ensures
            r@ == self.spec_coords_check(q_mul_fixed, window),
            forall|i: int| 0 <= i < r@.len() ==> (#[trigger] r@[i]).poly.wf(),
    {
        broadcast use Fp::lemma_from_u64;

        proof {
            reveal_with_fuel(Expression::wf, 6);
        }
        let interpolated_x = self.interpolated_x(&window);
        // Check interpolation of x-coordinate
        let x_check = interpolated_x.minus(Expression::Advice(self.x_p));
        // Check that `y + z = u^2`
        let y_check = Expression::Advice(self.u).square().minus(Expression::Advice(self.y_p)).minus(
            Expression::Fixed(self.fixed_z),
        );
        // Check that `(x, y)` is on the curve
        let on_curve = Expression::Advice(self.y_p).square().minus(
            Expression::Advice(self.x_p).square().times(Expression::Advice(self.x_p)),
        ).minus(Expression::Constant(Fp::from_u64(5)));
        let mut constraints: Vec<Constraint> = Vec::new();
        constraints.push(Constraint { name: "check x", poly: q_mul_fixed.duplicate().times(x_check) });
        constraints.push(Constraint { name: "check y", poly: q_mul_fixed.duplicate().times(y_check) });
        constraints.push(Constraint { name: "on-curve", poly: q_mul_fixed.times(on_curve) });
        proof {
            assert(constraints@ =~= self.spec_coords_check(q_mul_fixed, window));
        }
        constraints
    }
}

impl<'a> From<&'a EccConfig> for Config {
    /// The fixed columns of the tables, the advice columns of a window's row, and the two additions.
    fn from(config: &'a EccConfig) -> (r: Config) {
        Config {
            lagrange_coeffs: config.lagrange_coeffs,
            fixed_z: config.fixed_z,
            window: config.advices[4],
            x_p: config.advices[0],
            y_p: config.advices[1],
            u: config.advices[5],
            add_config: add::Config::from(config),
            add_incomplete_config: add_incomplete::Config::from(config),
        }
    }
}

impl<'a> vstd::std_specs::convert::FromSpecImpl<&'a EccConfig> for Config {
    open spec fn obeys_from_spec() -> bool {
        true
    }

    open spec fn from_spec(config: &'a EccConfig) -> Config {
        Config::of(*config)
    }
}

impl Config {
    /// The configuration that the configuration of the chip gives.
    pub open spec fn of(config: EccConfig) -> Config {
        Config {
            lagrange_coeffs: config.lagrange_coeffs,
            fixed_z: config.fixed_z,
            window: config.advices@[4],
            x_p: config.advices@[0],
            y_p: config.advices@[1],
            u: config.advices@[5],
            add_config: add::Config::of(config),
            add_incomplete_config: add_incomplete::Config::of(config),
        }
    }
}

/// The integer that the limbs of a word spell, if the word is known.
pub open spec fn word_value(word: Option<[u64; 4]>) -> Option<nat> {
    match word {
        Some(limbs) => Some(limbs_value(limbs@[0], limbs@[1], limbs@[2], limbs@[3])),
        None => None,
    }
}

/// The running sum of all windows but the last of a word, if it is known.
pub open spec fn accumulated(table: FixedBaseTable, word: Option<nat>) -> Option<AffinePoint> {
    match windows_of(word, table.spec_num_windows()) {
        Some(ws) => Some(
            running_sum(table.spec_base(), ws, (table.spec_num_windows() - 2) as nat),
        ),
        None => None,
    }
}

/// The point of the last window of a word, if it is known.
pub open spec fn last_window(table: FixedBaseTable, word: Option<nat>) -> Option<AffinePoint> {
    match windows_of(word, table.spec_num_windows()) {
        Some(ws) => Some(window_point(table.spec_base(), ws, table.spec_num_windows() - 1)),
        None => None,
    }
}

/// The scalar that the windows of a word stand for: the word modulo
/// `8^n`, for `n` windows, modulo the group order.
pub open spec fn windowed_scalar(word: Option<nat>, n: nat) -> Option<nat> {
    match word {
        Some(v) => Some((v % pow8(n)) % scalar_modulus()),
        None => None,
    }
}

impl Config {
    /// What the region of the windows of a word holds, in a region with
    /// index `index`: the values of the windows, then the rows of the
    /// multiplication.
    pub open spec fn windows_region(
        self,
        toggle: Selector,
        index: usize,
        table: FixedBaseTable,
        word: Option<nat>,
    ) -> Added {
        Added {
            selectors: Seq::empty(),
            advice: column_cells(
                index,
                self.window,
                0,
                window_values(word, table.spec_num_windows()),
            ),
            fixed: Seq::empty(),
            copies: Seq::empty(),
        }.followed_by(
            self.laid_out(toggle, index, 0, table, windows_of(word, table.spec_num_windows())),
        )
    }

    /// What the region of the last addition holds, in a region with index
    /// `index` that follows the region of the windows: the point of the last
    /// window and the running sum, copied in from the last row of that
    /// region, and their sum `product`.
    pub open spec fn last_region(
        self,
        index: usize,
        table: FixedBaseTable,
        word: Option<nat>,
        product: (CellValue, CellValue),
    ) -> Added {
        let bottom = (table.spec_num_windows() - 1) as usize;
        let before = (index - 1) as usize;
        addition(
            self.add_config.q_add,
            self.add_config.columns(),
            index,
            0,
            point_cells(before, bottom, (self.x_p, self.y_p), last_window(table, word)),
            point_cells(
                before,
                bottom,
                (self.add_incomplete_config.x_qr, self.add_incomplete_config.y_qr),
                accumulated(table, word),
            ),
            product,
        )
    }

    /// Lays out the multiple of the table's generator by the number that
    /// the windows of `word` spell, one window for each window of the table,
    /// and returns the product with the cells of the windows.
    ///
    /// Two regions are added, with the given names: one with a row for each
    /// window, in which the points of the windows but the last are summed by
    /// incomplete addition, and one in which the point of the last window is
    /// added by complete addition.
    ///
    /// Fails only when the circuit has fewer free rows than the table has
    /// windows, and two more; and then changes nothing.
    pub fn multiply(
        &self,
        layouter: &mut Layouter,
        names: (&'static str, &'static str),
        toggle: Selector,
        word: Option<[u64; 4]>,
        table: &FixedBaseTable,
    ) -> (r: Result<(EccPoint, Vec<CellValue>), Error>)
        requires
            old(layouter).wf(),
        ensures
            final(layouter).wf(),
            r.is_ok() == (old(layouter).rows - old(layouter).used >= table.spec_num_windows() + 2),
            r matches Err(e) ==> e == Error::Synthesis && *final(layouter) == *old(layouter),
            r matches Ok((product, cells)) ==> {
                let count = old(layouter).regions@.len() as int;
                let free = (old(layouter).rows - old(layouter).used) as usize;
                let n = table.spec_num_windows();
                let v = word_value(word);
                &&& cells@ == column_cells(count as usize, self.window, 0, window_values(v, n))
                &&& fixed_product(
                    table.spec_base(),
                    windowed_scalar(v, n),
                    product.spec_point(),
                )
                &&& product.spec_x().cell == (Cell {
                    region: (count + 1) as usize,
                    row: 1,
                    column: self.add_config.x_qr,
                })
                &&& product.spec_y().cell == (Cell {
                    region: (count + 1) as usize,
                    row: 1,
                    column: self.add_config.y_qr,
                })
                &&& final(layouter).rows == old(layouter).rows
                &&& final(layouter).used == old(layouter).used + n + 2
                &&& final(layouter).regions@.len() == count + 2
                &&& final(layouter).regions@.take(count) == old(layouter).regions@
                &&& final(layouter).regions@[count].holds(
                    names.0,
                    count as usize,
                    free,
                    n as usize,
                    self.windows_region(toggle, count as usize, *table, v),
                )
                &&& final(layouter).regions@[count + 1].holds(
                    names.1,
                    (count + 1) as usize,
                    (free - n) as usize,
                    2,
                    self.last_region(
                        (count + 1) as usize,
                        *table,
                        v,
                        (product.spec_x(), product.spec_y()),
                    ),
                )
            },
    {
        let n = table.num_windows();
        if layouter.rows - layouter.used < n + 2 {
            return Err(Error::Synthesis);
        }
        let generator = table.generator();
        let ghost start = *layouter;
        let ghost count = start.regions@.len();
        let ghost g = table.spec_base();
        let ghost v = word_value(word);
        let mut region = layouter.open_region(names.0);
        let ghost opened = region;
        let windows: Option<Vec<u8>> = match word {
            Some(limbs) => Some(decompose_word(limbs, n)),
            None => None,
        };
        let mut values: Vec<Option<Fp>> = Vec::new();
        let mut idx: usize = 0;
        while idx < n
            invariant
                idx <= n,
                windows.is_some() == word.is_some(),
                v == word_value(word),
                windows matches Some(ws) ==> ws@.len() == n && forall|i: int|
                    0 <= i < n ==> #[trigger] ws@[i] == window_of(v.unwrap(), i as nat),
                values@.len() == idx,
                forall|i: int| 0 <= i < idx ==> #[trigger] values@[i] == window_values(v, n as nat)[i],
            decreases n - idx,
        {
            match &windows {
                Some(ws) => {
                    values.push(Some(Fp::from_u64(ws[idx] as u64)));
                },
                None => {
                    values.push(None);
                },
            }
            idx = idx + 1;
        }
        proof {
            assert(values@ =~= window_values(v, n as nat));
            if windows.is_some() {
                let ws = windows.unwrap()@;
                assert(ws =~= windows_of(v, n as nat).unwrap());
                lemma_windows_of(v.unwrap(), ws);
            }
        }
        let cells = region.assign_column(self.window, 0, &values);
        let ghost witnessed = region;
        let (acc, last) = match self.assign_region_inner(&mut region, 0, &windows, table, toggle) {
            Ok(points) => points,
            Err(e) => {
                return Err(e);
            },
        };
        proof {
            let expected = self.windows_region(toggle, count as usize, *table, v);
            region.records().lemma_same(expected);
        }
        layouter.close_region(region);
        let mut region = layouter.open_region(names.1);
        let product = match self.add_config.assign_region(&last, &acc, 0, &mut region) {
            Ok(product) => product,
            Err(e) => {
                return Err(e);
            },
        };
        proof {
            use_type_invariant(&acc);
            use_type_invariant(&last);
            acc.lemma_coordinates();
            last.lemma_coordinates();
            let expected = self.last_region(
                (count + 1) as usize,
                *table,
                v,
                (product.spec_x(), product.spec_y()),
            );
            region.records().lemma_same(expected);
            if windows.is_some() {
                let ws = windows.unwrap()@;
                let a = acc.spec_point().unwrap();
                let l = last.spec_point().unwrap();
                let q = scalar_modulus();
                let m = window_scalar(ws, n - 1);
                let k = acc_scalar(ws, n - 2);
                lemma_acc_bounds(ws, n - 2);
                lemma_scalars_sum(ws);
                g.lemma_wf();
                assert(multiplied(g, ws, a, l));
                assert(l.coords() == pallas_mul(g.coords().0, g.coords().1, m));
                assert(a.coords() == pallas_mul(g.coords().0, g.coords().1, k));
                assert(m < q);
                assert((m + k) % q == (k + m) % q);
            }
        }
        layouter.close_region(region);
        proof {
            assert(layouter.regions@.take(count as int) =~= start.regions@);
        }
        Ok((product, cells))
    }
}

} // verus!
