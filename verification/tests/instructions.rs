use ecc_gadgets::circuit::{Cell, CellValue, Column, Enabled, Error, Layouter, Selector};
use ecc_gadgets::curve::AffinePoint;
use ecc_gadgets::ecc::chip::mul_fixed::{window_points, FixedBaseTable};
use ecc_gadgets::ecc::chip::mul_fixed::{base_field_elem, full_width, short};
use ecc_gadgets::ecc::chip::{
    add, add_incomplete, mul, witness_point, EccChip, EccConfig, EccPoint, EccScalarFixed,
    NonIdentityEccPoint, NUM_WINDOWS, NUM_WINDOWS_SHORT,
};
use ecc_gadgets::ecc::{
    same_chip, EccInstructions, FixedPoint, FixedPoints, NonIdentityPoint, Point, ScalarFixed,
    ScalarFixedShort, ScalarVar,
};
use ecc_gadgets::field::{Fp, Fq};
use ff::{Field, PrimeField};
use group::{Curve, Group};
use pasta_curves::arithmetic::CurveAffine;
use pasta_curves::pallas;

fn limbs(bytes: [u8; 32]) -> [u64; 4] {
    let mut out = [0u64; 4];
    for i in 0..4 {
        let mut limb = [0u8; 8];
        limb.copy_from_slice(&bytes[8 * i..8 * i + 8]);
        out[i] = u64::from_le_bytes(limb);
    }
    out
}

fn base_elem(x: pallas::Base) -> Fp {
    Fp::from_raw(limbs(x.to_repr())).unwrap()
}

fn scalar_elem(x: pallas::Scalar) -> Fq {
    Fq::from_raw(limbs(x.to_repr())).unwrap()
}

fn point(p: pallas::Affine) -> AffinePoint {
    let c: Option<pasta_curves::arithmetic::Coordinates<pallas::Affine>> =
        p.coordinates().into();
    match c {
        Some(c) => AffinePoint::from_xy(base_elem(*c.x()), base_elem(*c.y())).unwrap(),
        None => AffinePoint::identity(),
    }
}

fn generator() -> pallas::Affine {
    pallas::Point::generator().to_affine()
}

fn column(index: usize) -> Column {
    Column { index }
}

fn configure() -> EccConfig {
    let selector = |index: usize| Selector { index };
    EccConfig {
        advices: [
            column(0),
            column(1),
            column(2),
            column(3),
            column(4),
            column(5),
            column(6),
            column(7),
            column(8),
            column(9),
        ],
        lagrange_coeffs: [
            column(10),
            column(11),
            column(12),
            column(13),
            column(14),
            column(15),
            column(16),
            column(17),
        ],
        fixed_z: column(18),
        q_add_incomplete: selector(0),
        q_add: selector(1),
        q_mul: selector(2),
        q_mul_fixed_full: selector(3),
        q_mul_fixed_short: selector(4),
        q_mul_fixed_base_field: selector(5),
        q_point: selector(6),
        q_point_non_id: selector(7),
    }
}

/// A fixed base whose tables hold the window number and the window value
/// where a real base holds what recovers the point of the window.
#[derive(Debug, Clone, PartialEq, Eq)]
struct PlainBase {
    generator: pallas::Affine,
    windows: usize,
}

fn marker(w: usize, k: usize) -> u64 {
    (100 * w + k) as u64
}

impl FixedPoints for PlainBase {
    fn spec_generator(&self) -> AffinePoint {
        self.generator()
    }

    fn spec_u(&self) -> Vec<[[u8; 32]; 8]> {
        self.u()
    }

    fn spec_z(&self) -> Vec<u64> {
        self.z()
    }

    fn spec_lagrange_coeffs(&self) -> Vec<[Fp; 8]> {
        self.lagrange_coeffs()
    }

    fn generator(&self) -> AffinePoint {
        point(self.generator)
    }

    fn u(&self) -> Vec<[[u8; 32]; 8]> {
        (0..self.windows)
            .map(|w| {
                let mut row = [[0u8; 32]; 8];
                for k in 0..8 {
                    row[k][..8].copy_from_slice(&marker(w, k).to_le_bytes());
                }
                row
            })
            .collect()
    }

    fn z(&self) -> Vec<u64> {
        (0..self.windows).map(|w| 1000 + w as u64).collect()
    }

    fn lagrange_coeffs(&self) -> Vec<[Fp; 8]> {
        (0..self.windows)
            .map(|w| {
                let mut row = [Fp::zero(); 8];
                for j in 0..8 {
                    row[j] = Fp::from_u64(5000 + marker(w, j));
                }
                row
            })
            .collect()
    }
}

fn full_base() -> PlainBase {
    PlainBase { generator: generator(), windows: NUM_WINDOWS }
}

fn short_base() -> PlainBase {
    PlainBase { generator: generator(), windows: NUM_WINDOWS_SHORT }
}

type Chip = EccChip<PlainBase>;

fn chip() -> Chip {
    Chip::construct(configure())
}

fn var(layouter: &mut Layouter, value: Option<Fp>) -> CellValue {
    let mut region = layouter.open_region("load private");
    let cell = region.assign_advice(column(9), 0, value).unwrap();
    layouter.close_region(region);
    cell
}

#[test]
fn the_identity_is_witnessed_as_a_point_only() {
    let mut layouter = Layouter::new(8);
    let p = chip().witness_point(&mut layouter, Some(AffinePoint::identity())).unwrap();
    assert_eq!(p.point(), Some(AffinePoint::identity()));
    assert_eq!(p.is_identity(), Some(true));
    assert_eq!(p.x().value, Some(Fp::zero()));
    assert_eq!(p.y().value, Some(Fp::zero()));
    assert_eq!(layouter.regions.len(), 1);
    let before = layouter.clone();
    let r = chip().witness_point_non_id(&mut layouter, Some(AffinePoint::identity()));
    assert!(matches!(r, Err(Error::IdentityWitness)));
    assert_eq!(layouter.regions.len(), before.regions.len());
    assert_eq!(layouter.used, before.used);
    // The identity is refused even where there is no room left.
    let mut full = Layouter::new(0);
    let r = chip().witness_point_non_id(&mut full, Some(AffinePoint::identity()));
    assert!(matches!(r, Err(Error::IdentityWitness)));
    // Through the gadgets.
    let r = NonIdentityPoint::new(chip(), &mut layouter, Some(AffinePoint::identity()));
    assert!(matches!(r, Err(Error::IdentityWitness)));
    let p = Point::new(chip(), &mut layouter, Some(AffinePoint::identity())).unwrap();
    assert_eq!(p.inner().point(), Some(AffinePoint::identity()));
}

#[test]
fn witnessing_lays_out_one_row() {
    let g = point(generator());
    let mut layouter = Layouter::new(3);
    let p = chip().witness_point_non_id(&mut layouter, Some(g)).unwrap();
    assert_eq!(p.point(), Some(g));
    assert_eq!(p.x(), CellValue { cell: Cell { region: 0, row: 0, column: column(0) }, value: Some(g.x()) });
    assert_eq!(p.y(), CellValue { cell: Cell { region: 0, row: 0, column: column(1) }, value: Some(g.y()) });
    let region = &layouter.regions[0];
    assert_eq!(region.name, "witness non-identity point");
    assert_eq!(region.index, 0);
    assert_eq!(region.room, 3);
    assert_eq!(region.height, 1);
    assert_eq!(region.selectors, vec![Enabled { selector: Selector { index: 7 }, row: 0 }]);
    assert_eq!(region.advice, vec![p.x(), p.y()]);
    assert!(region.fixed.is_empty());
    assert!(region.copies.is_empty());
    assert_eq!(layouter.used, 1);

    let q = chip().witness_point(&mut layouter, None).unwrap();
    assert_eq!(q.point(), None);
    assert_eq!(q.is_identity(), None);
    assert_eq!(q.x().cell, Cell { region: 1, row: 0, column: column(0) });
    assert_eq!(layouter.regions[1].name, "witness point");
    assert_eq!(layouter.regions[1].room, 2);
    assert_eq!(layouter.regions[1].selectors, vec![Enabled { selector: Selector { index: 6 }, row: 0 }]);
    let unknown = chip().witness_point_non_id(&mut layouter, None).unwrap();
    assert_eq!(unknown.point(), None);
    assert_eq!(layouter.used, 3);

    // No row is left.
    let before = layouter.clone();
    assert!(matches!(chip().witness_point(&mut layouter, Some(g)), Err(Error::Synthesis)));
    assert!(matches!(chip().witness_point_non_id(&mut layouter, Some(g)), Err(Error::Synthesis)));
    assert_eq!(layouter.regions.len(), before.regions.len());
    assert_eq!(layouter.used, 3);
}

#[test]
fn conversions_between_the_two_kinds_of_point() {
    let g = point(generator());
    let mut layouter = Layouter::new(8);
    let p = chip().witness_point_non_id(&mut layouter, Some(g)).unwrap();
    let as_point = EccPoint::from_non_identity(p);
    assert_eq!(as_point.point(), Some(g));
    assert_eq!(as_point.x(), p.x());
    assert_eq!(as_point.y(), p.y());
    let back = NonIdentityEccPoint::from_point(as_point).unwrap();
    assert_eq!(back.x(), p.x());
    let zero = chip().witness_point(&mut layouter, Some(AffinePoint::identity())).unwrap();
    assert!(NonIdentityEccPoint::from_point(zero).is_none());
    let unknown = chip().witness_point(&mut layouter, None).unwrap();
    assert!(NonIdentityEccPoint::from_point(unknown).is_some());
    let made = EccPoint::from_cells(p.x().cell, p.y().cell, Some(g));
    assert_eq!(made.x(), p.x());
    assert!(NonIdentityEccPoint::from_cells(p.x().cell, p.y().cell, Some(AffinePoint::identity()))
        .is_none());
    assert_eq!(Chip::to_point(&p).x(), p.x());
    assert_eq!(Chip::extract_p(&as_point), p.x());
    // Through the gadgets.
    let typed = NonIdentityPoint::from_inner(chip(), p);
    assert_eq!(typed.to_point().inner().x(), p.x());
    assert_eq!(Point::from(typed.clone()).inner().y(), p.y());
    assert_eq!(*typed.extract_p().inner(), p.x());
    assert_eq!(*typed.to_point().extract_p().inner(), p.x());
    assert_eq!(typed.inner().x(), p.x());
}

#[test]
fn tying_points_together_adds_two_copies() {
    let g = point(generator());
    let mut layouter = Layouter::new(8);
    let a = chip().witness_point(&mut layouter, Some(g)).unwrap();
    let b = chip().witness_point(&mut layouter, Some(g)).unwrap();
    chip().constrain_equal(&mut layouter, &a, &b).unwrap();
    let region = &layouter.regions[2];
    assert_eq!(region.name, "constrain equal");
    assert_eq!(region.height, 0);
    assert_eq!(region.copies, vec![(a.x().cell, b.x().cell), (a.y().cell, b.y().cell)]);
    assert!(region.advice.is_empty());
    assert_eq!(layouter.used, 2);
    assert!(Chip::equal_in_value(&a, &b));
    let c = chip().witness_point(&mut layouter, Some(g.neg())).unwrap();
    assert!(!Chip::equal_in_value(&a, &c));
    let unknown = chip().witness_point(&mut layouter, None).unwrap();
    assert!(!Chip::equal_in_value(&a, &unknown));
    assert!(Chip::equal_in_value(&unknown, &unknown));
    // Tying takes no row: it works in a full circuit.
    let mut full = Layouter::new(0);
    chip().constrain_equal(&mut full, &a, &c).unwrap();
    assert_eq!(full.regions.len(), 1);
}

#[test]
fn complete_addition_lays_out_two_rows() {
    let p_val = (generator() * pallas::Scalar::from(5u64)).to_affine();
    let q_val = (generator() * pallas::Scalar::from(9u64)).to_affine();
    let mut layouter = Layouter::new(64);
    let p = chip().witness_point(&mut layouter, Some(point(p_val))).unwrap();
    let q = chip().witness_point(&mut layouter, Some(point(q_val))).unwrap();
    let sum = chip().add(&mut layouter, &p, &q).unwrap();
    let expected = point((generator() * pallas::Scalar::from(14u64)).to_affine());
    assert_eq!(sum.point(), Some(expected));
    let at = |row: usize, c: usize| Cell { region: 2, row, column: column(c) };
    assert_eq!(sum.x(), CellValue { cell: at(1, 2), value: Some(expected.x()) });
    assert_eq!(sum.y(), CellValue { cell: at(1, 3), value: Some(expected.y()) });
    let region = &layouter.regions[2];
    assert_eq!(region.name, "complete point addition");
    assert_eq!(region.height, 2);
    assert_eq!(region.selectors, vec![Enabled { selector: Selector { index: 1 }, row: 0 }]);
    assert_eq!(
        region.advice,
        vec![
            CellValue { cell: at(0, 0), value: p.x().value },
            CellValue { cell: at(0, 1), value: p.y().value },
            CellValue { cell: at(0, 2), value: q.x().value },
            CellValue { cell: at(0, 3), value: q.y().value },
            sum.x(),
            sum.y(),
        ]
    );
    assert_eq!(
        region.copies,
        vec![
            (p.x().cell, at(0, 0)),
            (p.y().cell, at(0, 1)),
            (q.x().cell, at(0, 2)),
            (q.y().cell, at(0, 3)),
        ]
    );
    assert_eq!(layouter.used, 4);
    // Doubling, inverse points and the identity are all handled.
    let neg = chip().witness_point(&mut layouter, Some(point(-p_val))).unwrap();
    let zero = chip().witness_point(&mut layouter, Some(AffinePoint::identity())).unwrap();
    assert_eq!(
        chip().add(&mut layouter, &p, &p).unwrap().point(),
        Some(point((p_val + p_val).to_affine()))
    );
    assert_eq!(chip().add(&mut layouter, &p, &neg).unwrap().is_identity(), Some(true));
    assert_eq!(chip().add(&mut layouter, &zero, &p).unwrap().point(), p.point());
    assert_eq!(chip().add(&mut layouter, &p, &zero).unwrap().point(), p.point());
    assert_eq!(chip().add(&mut layouter, &zero, &zero).unwrap().is_identity(), Some(true));
    // An unknown operand gives an unknown sum.
    let unknown = chip().witness_point(&mut layouter, None).unwrap();
    assert_eq!(chip().add(&mut layouter, &p, &unknown).unwrap().point(), None);
    // One free row is not enough.
    let mut tight = Layouter::new(1);
    assert!(matches!(chip().add(&mut tight, &p, &q), Err(Error::Synthesis)));
    assert!(tight.regions.is_empty());
    assert_eq!(tight.used, 0);
}

#[test]
fn incomplete_addition_refuses_equal_and_inverse_points() {
    let p_val = (generator() * pallas::Scalar::from(5u64)).to_affine();
    let q_val = (generator() * pallas::Scalar::from(9u64)).to_affine();
    let mut layouter = Layouter::new(32);
    let p = chip().witness_point_non_id(&mut layouter, Some(point(p_val))).unwrap();
    let q = chip().witness_point_non_id(&mut layouter, Some(point(q_val))).unwrap();
    let neg = chip().witness_point_non_id(&mut layouter, Some(point(-p_val))).unwrap();
    let again = chip().witness_point_non_id(&mut layouter, Some(point(p_val))).unwrap();
    let sum = chip().add_incomplete(&mut layouter, &p, &q).unwrap();
    assert_eq!(sum.point(), Some(point((p_val + q_val).to_affine())));
    let region = layouter.regions.last().unwrap();
    assert_eq!(region.name, "incomplete point addition");
    assert_eq!(region.selectors, vec![Enabled { selector: Selector { index: 0 }, row: 0 }]);
    assert_eq!(region.advice.len(), 6);
    assert_eq!(region.advice[4], sum.x());
    assert_eq!(region.copies.len(), 4);
    let before = layouter.clone();
    assert!(matches!(chip().add_incomplete(&mut layouter, &p, &p), Err(Error::Synthesis)));
    assert!(matches!(chip().add_incomplete(&mut layouter, &p, &again), Err(Error::Synthesis)));
    assert!(matches!(chip().add_incomplete(&mut layouter, &p, &neg), Err(Error::Synthesis)));
    assert!(matches!(chip().add_incomplete(&mut layouter, &neg, &p), Err(Error::Synthesis)));
    assert_eq!(layouter.regions.len(), before.regions.len());
    assert_eq!(layouter.used, before.used);
    // Unknown points are laid out; nothing is known of their sum.
    let unknown = chip().witness_point_non_id(&mut layouter, None).unwrap();
    assert_eq!(chip().add_incomplete(&mut layouter, &p, &unknown).unwrap().point(), None);
    // The points themselves.
    assert_eq!(
        add_incomplete::add_points(&point(p_val), &point(q_val)),
        Some(point((p_val + q_val).to_affine()))
    );
    assert_eq!(add_incomplete::add_points(&point(p_val), &point(p_val)), None);
    assert_eq!(add_incomplete::add_points(&point(p_val), &point(-p_val)), None);
    assert_eq!(add_incomplete::add_points(&point(p_val), &AffinePoint::identity()), None);
    assert_eq!(add_incomplete::add_points(&AffinePoint::identity(), &point(p_val)), None);
}

#[test]
fn configurations_take_their_columns_from_the_chip() {
    let config = configure();
    let a = add::Config::from(&config);
    assert_eq!((a.q_add, a.x_p, a.y_p, a.x_qr, a.y_qr), (config.q_add, column(0), column(1), column(2), column(3)));
    let i = add_incomplete::Config::from(&config);
    assert_eq!(i.q_add_incomplete, config.q_add_incomplete);
    assert_eq!((i.x_p, i.y_p, i.x_qr, i.y_qr), (column(0), column(1), column(2), column(3)));
    let w = witness_point::Config::from(&config);
    assert_eq!((w.q_point, w.q_point_non_id, w.x, w.y), (config.q_point, config.q_point_non_id, column(0), column(1)));
    let m = mul::Config::from(&config);
    assert_eq!((m.q_mul, m.scalar, m.x_p, m.y_p, m.x_r, m.y_r), (config.q_mul, column(4), column(0), column(1), column(2), column(3)));
    let s = short::Config::from(&config);
    assert_eq!(s.q_mul_fixed_short, config.q_mul_fixed_short);
    assert_eq!(s.super_config.window, column(4));
    let b = base_field_elem::Config::from(&config);
    assert_eq!(b.q_mul_fixed_base_field, config.q_mul_fixed_base_field);
    assert_eq!(b.canon, column(6));
    assert_eq!(b.super_config.u, column(5));
    assert_eq!(chip().clone(), chip());
}

#[test]
fn variable_base_multiplication() {
    let p_val = pallas::Point::random(rand::rngs::OsRng).to_affine();
    let mut layouter = Layouter::new(64);
    let p = chip().witness_point_non_id(&mut layouter, Some(point(p_val))).unwrap();
    let minus_one = Fp::zero().sub(&Fp::one());
    let cases = [
        (Fp::from_u64(0), pallas::Scalar::zero()),
        (Fp::from_u64(1), pallas::Scalar::one()),
        (Fp::from_u64(12345), pallas::Scalar::from(12345u64)),
        (minus_one, pallas::Scalar::from_repr((-pallas::Base::one()).to_repr()).unwrap()),
    ];
    for (elem, scalar) in cases {
        let alpha = var(&mut layouter, Some(elem));
        let count = layouter.regions.len();
        let (product, copied) = chip().mul(&mut layouter, &alpha, &p).unwrap();
        assert_eq!(product.point(), Some(point((p_val * scalar).to_affine())));
        assert_eq!(copied.value, Some(elem));
        assert_eq!(copied.cell, Cell { region: count, row: 0, column: column(4) });
        let region = &layouter.regions[count];
        assert_eq!(region.name, "variable-base scalar mul");
        assert_eq!(region.height, 2);
        assert_eq!(region.selectors, vec![Enabled { selector: Selector { index: 2 }, row: 0 }]);
        assert_eq!(region.advice.len(), 5);
        assert_eq!(region.advice[3], product.x());
        assert_eq!(region.copies[0], (alpha.cell, copied.cell));
        assert_eq!(product.x().cell, Cell { region: count, row: 1, column: column(2) });
    }
    let unknown = var(&mut layouter, None);
    assert_eq!(chip().mul(&mut layouter, &unknown, &p).unwrap().0.point(), None);
    let known = var(&mut layouter, Some(Fp::from_u64(2)));
    let mut tight = Layouter::new(1);
    assert!(matches!(chip().mul(&mut tight, &known, &p), Err(Error::Synthesis)));
    // Through the gadget.
    let typed = NonIdentityPoint::from_inner(chip(), p);
    let (product, scalar) = typed.mul(&mut layouter, &known).unwrap();
    assert_eq!(product.inner().point(), Some(point((p_val + p_val).to_affine())));
    assert_eq!(scalar.inner().value, Some(Fp::from_u64(2)));
}

#[test]
fn a_scalar_is_witnessed_window_by_window() {
    let config = full_width::Config::from(&configure());
    let layouter = Layouter::new(200);
    let mut region = layouter.open_region("windows");
    let scalar = Fq::from_u64(0o7654321);
    let fixed = config.witness(&mut region, 2, Some(scalar)).unwrap();
    assert_eq!(fixed.value, Some(scalar));
    assert_eq!(fixed.windows.len(), NUM_WINDOWS);
    let expected = [1u64, 2, 3, 4, 5, 6, 7, 0, 0];
    for (i, k) in expected.iter().enumerate() {
        assert_eq!(
            fixed.windows[i],
            CellValue {
                cell: Cell { region: 0, row: 2 + i, column: column(4) },
                value: Some(Fp::from_u64(*k)),
            }
        );
    }
    assert!(fixed.windows[9..].iter().all(|c| c.value == Some(Fp::zero())));
    assert_eq!(region.height, 2 + NUM_WINDOWS);
    assert_eq!(region.selectors.len(), NUM_WINDOWS);
    assert_eq!(region.selectors[0], Enabled { selector: Selector { index: 3 }, row: 2 });
    assert_eq!(region.selectors[84], Enabled { selector: Selector { index: 3 }, row: 86 });
    assert_eq!(region.advice.len(), NUM_WINDOWS);
    assert_eq!(region.advice[5], fixed.windows[5]);
    let mut windows: Vec<u8> = vec![0; NUM_WINDOWS];
    windows[..7].copy_from_slice(&[1, 2, 3, 4, 5, 6, 7]);
    assert_eq!(fixed.windows_usize(), Some(windows));
    assert_eq!(fixed.clone().windows.len(), NUM_WINDOWS);

    // An unknown scalar gives cells without values.
    let cells = config.decompose_scalar_fixed(None, 100, &mut region).unwrap();
    assert_eq!(cells.len(), NUM_WINDOWS);
    assert!(cells.iter().all(|c| c.value.is_none()));
    assert_eq!(cells[84].cell, Cell { region: 0, row: 184, column: column(4) });
    let unknown = EccScalarFixed { value: None, windows: cells };
    assert_eq!(unknown.windows_usize(), None);

    // The region has 200 rows: 85 windows do not fit from row 116 on.
    let advice = region.advice.len();
    assert!(matches!(config.witness(&mut region, 116, Some(scalar)), Err(Error::Synthesis)));
    assert!(matches!(
        config.decompose_scalar_fixed(Some(scalar), usize::MAX, &mut region),
        Err(Error::Synthesis)
    ));
    assert_eq!(region.advice.len(), advice);
    assert!(config.witness(&mut region, 115, Some(scalar)).is_ok());

    // Cells that hold no window values.
    let mut odd = EccScalarFixed::collect(&vec![
        CellValue { cell: Cell { region: 0, row: 0, column: column(4) }, value: Some(Fp::from_u64(7)) },
        CellValue { cell: Cell { region: 0, row: 1, column: column(4) }, value: Some(Fp::from_u64(8)) },
    ]);
    assert_eq!(odd.len(), 2);
    assert_eq!(EccScalarFixed { value: None, windows: odd.clone() }.windows_usize(), None);
    odd[1].value = Some(Fp::from_u64(3));
    assert_eq!(EccScalarFixed { value: None, windows: odd }.windows_usize(), Some(vec![7, 3]));
}

#[test]
fn a_table_is_checked_when_it_is_loaded() {
    let base = full_base();
    let table = FixedBaseTable::load(&base).unwrap();
    assert_eq!(table.num_windows(), NUM_WINDOWS);
    assert_eq!(table.generator(), point(generator()));
    assert_eq!(table.u(3, 5), Fp::from_u64(marker(3, 5)));
    assert_eq!(table.u(84, 7), Fp::from_u64(marker(84, 7)));
    assert_eq!(table.z(84), 1084);
    assert_eq!(table.lagrange_coeff(2, 6), Fp::from_u64(5000 + marker(2, 6)));
    let g = point(generator());
    let ok = |n: usize| (vec![[[0u8; 32]; 8]; n], vec![0u64; n], vec![[Fp::zero(); 8]; n]);
    let (u, z, c) = ok(2);
    assert!(FixedBaseTable::new(g, u, z, c).is_some());
    let (u, z, c) = ok(85);
    assert!(FixedBaseTable::new(g, u, z, c).is_some());
    let (u, z, c) = ok(86);
    assert!(FixedBaseTable::new(g, u, z, c).is_none());
    let (u, z, c) = ok(1);
    assert!(FixedBaseTable::new(g, u, z, c).is_none());
    let (u, z, c) = ok(0);
    assert!(FixedBaseTable::new(g, u, z, c).is_none());
    let (u, z, c) = ok(22);
    assert!(FixedBaseTable::new(AffinePoint::identity(), u, z, c).is_none());
    let (u, mut z, c) = ok(22);
    z.pop();
    assert!(FixedBaseTable::new(g, u, z, c).is_none());
    let (u, z, mut c) = ok(22);
    c.push([Fp::zero(); 8]);
    assert!(FixedBaseTable::new(g, u, z, c).is_none());
    // A recovery value that is no canonical encoding.
    let (mut u, z, c) = ok(22);
    u[21][7] = [0xff; 32];
    assert!(FixedBaseTable::new(g, u, z, c).is_none());
    let (mut u, z, c) = ok(22);
    u[0][0] = [0xff; 32];
    u[0][0][31] = 0x3f;
    assert!(FixedBaseTable::new(g, u, z, c).is_some());
    assert!(FixedBaseTable::load(&PlainBase { generator: generator(), windows: 86 }).is_none());
    assert!(FixedBaseTable::load(&PlainBase {
        generator: pallas::Affine::default(),
        windows: 85
    })
    .is_none());
}

#[test]
fn the_points_of_the_windows() {
    let g = generator();
    let windows = vec![3u8, 0, 7, 5];
    let (points, sums) = window_points(&point(g), &windows);
    assert_eq!(points.len(), 4);
    assert_eq!(sums.len(), 3);
    let multiple = |k: i64| {
        let s = pallas::Scalar::from(k.unsigned_abs());
        point((g * if k < 0 { -s } else { s }).to_affine())
    };
    // (3 + 2) * 1, (0 + 2) * 8, (7 + 2) * 64, and 5 * 512 - (2 + 16 + 128).
    assert_eq!(points[0], multiple(5));
    assert_eq!(points[1], multiple(16));
    assert_eq!(points[2], multiple(576));
    assert_eq!(points[3], multiple(2560 - 146));
    assert_eq!(sums[0], multiple(5));
    assert_eq!(sums[1], multiple(21));
    assert_eq!(sums[2], multiple(597));
    // 3 + 0 * 8 + 7 * 64 + 5 * 512 = 3011.
    assert_eq!(sums[2].add(&points[3]), multiple(3011));
    // The last window may give a negative multiple, or the identity.
    let (points, sums) = window_points(&point(g), &vec![0, 0]);
    assert_eq!(points[1], multiple(-2));
    assert_eq!(sums[0], multiple(2));
    assert!(sums[0].add(&points[1]).is_identity());
}

#[test]
fn full_width_multiplication_lays_out_two_regions() {
    let config = full_width::Config::from(&configure());
    let table = FixedBaseTable::load(&full_base()).unwrap();
    let mut layouter = Layouter::new(100);
    let _ = chip().witness_point(&mut layouter, None).unwrap();
    let s = pallas::Scalar::random(rand::rngs::OsRng);
    let windows = ecc_gadgets::utilities::decompose_word(scalar_elem(s).to_raw(), NUM_WINDOWS);
    let (product, fixed) =
        config.assign_with_table(&mut layouter, Some(scalar_elem(s)), &table).unwrap();
    let expected = point((generator() * s).to_affine());
    assert_eq!(product.point(), Some(expected));
    assert_eq!(fixed.windows_usize(), Some(windows.clone()));
    assert_eq!(layouter.regions.len(), 3);
    assert_eq!(layouter.used, 1 + NUM_WINDOWS + 2);

    let region = &layouter.regions[1];
    assert_eq!(region.name, "Full-width fixed-base mul (incomplete addition)");
    assert_eq!((region.index, region.room, region.height), (1, 99, NUM_WINDOWS));
    // The selector of the multiplication twice in each row, and the selector
    // of incomplete addition in the rows 1 to 83.
    assert_eq!(region.selectors.len(), 2 * NUM_WINDOWS + NUM_WINDOWS - 2);
    let full = Selector { index: 3 };
    assert!(region.selectors[..2 * NUM_WINDOWS].iter().all(|e| e.selector == full));
    assert_eq!(region.selectors[NUM_WINDOWS + 4], Enabled { selector: full, row: 4 });
    assert_eq!(
        region.selectors[2 * NUM_WINDOWS],
        Enabled { selector: Selector { index: 0 }, row: 1 }
    );
    assert_eq!(
        region.selectors.last(),
        Some(&Enabled { selector: Selector { index: 0 }, row: NUM_WINDOWS - 2 })
    );
    // Eight coefficients and an offset in each row, column by column.
    assert_eq!(region.fixed.len(), 9 * NUM_WINDOWS);
    let coeff = &region.fixed[6 * NUM_WINDOWS + 2];
    assert_eq!((coeff.column, coeff.row), (column(16), 2));
    assert_eq!(coeff.value, Fp::from_u64(5000 + marker(2, 6)));
    let offset = &region.fixed[8 * NUM_WINDOWS + 84];
    assert_eq!((offset.column, offset.row, offset.value), (column(18), 84, Fp::from_u64(1084)));
    // The windows, then the points, their recovery values and the running sums.
    assert_eq!(region.advice.len(), 4 * NUM_WINDOWS + 2 * (NUM_WINDOWS - 1));
    assert_eq!(region.advice[..NUM_WINDOWS], fixed.windows[..]);
    let (points, sums) = window_points(&point(generator()), &windows);
    for w in [0usize, 1, 40, 84] {
        let at = |c: usize, row: usize| Cell { region: 1, row, column: column(c) };
        assert_eq!(
            region.advice[NUM_WINDOWS + w],
            CellValue { cell: at(0, w), value: Some(points[w].x()) }
        );
        assert_eq!(
            region.advice[2 * NUM_WINDOWS + w],
            CellValue { cell: at(1, w), value: Some(points[w].y()) }
        );
        assert_eq!(
            region.advice[3 * NUM_WINDOWS + w],
            CellValue {
                cell: at(5, w),
                value: Some(Fp::from_u64(marker(w, windows[w] as usize))),
            }
        );
        if w < 84 {
            assert_eq!(
                region.advice[4 * NUM_WINDOWS + w],
                CellValue { cell: at(2, w + 1), value: Some(sums[w].x()) }
            );
            assert_eq!(
                region.advice[4 * NUM_WINDOWS + 84 + w],
                CellValue { cell: at(3, w + 1), value: Some(sums[w].y()) }
            );
        }
    }
    let at = |c: usize, row: usize| Cell { region: 1, row, column: column(c) };
    assert_eq!(region.copies, vec![(at(0, 0), at(2, 1)), (at(1, 0), at(3, 1))]);

    let last = &layouter.regions[2];
    assert_eq!(last.name, "Full-width fixed-base mul (last window, complete addition)");
    assert_eq!((last.index, last.room, last.height), (2, 99 - NUM_WINDOWS, 2));
    assert_eq!(last.selectors, vec![Enabled { selector: Selector { index: 1 }, row: 0 }]);
    assert_eq!(last.advice.len(), 6);
    assert_eq!(last.advice[0].value, Some(points[84].x()));
    assert_eq!(last.advice[2].value, Some(sums[83].x()));
    assert_eq!(last.advice[4], product.x());
    assert_eq!(last.advice[5], product.y());
    assert_eq!(product.x().cell, Cell { region: 2, row: 1, column: column(2) });
    assert_eq!(last.copies[0], (at(0, 84), Cell { region: 2, row: 0, column: column(0) }));
    assert_eq!(last.copies[3], (at(3, 84), Cell { region: 2, row: 0, column: column(3) }));

    // Eleven rows are left, the multiplication takes 87.
    let before = layouter.clone();
    let r = config.assign_with_table(&mut layouter, Some(scalar_elem(s)), &table);
    assert!(matches!(r, Err(Error::Synthesis)));
    assert_eq!(layouter.regions.len(), before.regions.len());
    // A table of 22 windows is no table for a full-width scalar.
    let short_table = FixedBaseTable::load(&short_base()).unwrap();
    let mut roomy = Layouter::new(1000);
    let r = config.assign_with_table(&mut roomy, Some(scalar_elem(s)), &short_table);
    assert!(matches!(r, Err(Error::FixedBase)));
    assert!(roomy.regions.is_empty());
    assert!(matches!(
        config.assign(&mut roomy, Some(scalar_elem(s)), &short_base()),
        Err(Error::FixedBase)
    ));
    // Data that cannot be used is told apart from a lack of rows, and is
    // told first.
    let identity = PlainBase { generator: pallas::Affine::default(), windows: NUM_WINDOWS };
    assert!(matches!(
        config.assign(&mut roomy, Some(scalar_elem(s)), &identity),
        Err(Error::FixedBase)
    ));
    let mut tight = Layouter::new(3);
    assert!(matches!(
        config.assign(&mut tight, Some(scalar_elem(s)), &short_base()),
        Err(Error::FixedBase)
    ));
    assert!(matches!(
        config.assign(&mut tight, Some(scalar_elem(s)), &full_base()),
        Err(Error::Synthesis)
    ));
    assert!(matches!(
        chip().mul_fixed(&mut tight, Some(scalar_elem(s)), &identity),
        Err(Error::FixedBase)
    ));
    assert!(roomy.regions.is_empty());
    assert!(tight.regions.is_empty());
    // Exactly 87 rows are enough.
    let mut exact = Layouter::new(NUM_WINDOWS + 2);
    assert!(config.assign_with_table(&mut exact, None, &table).is_ok());
    assert_eq!(exact.used, NUM_WINDOWS + 2);
}

#[test]
fn short_multiplication_negates_by_the_sign() {
    let config = short::Config::from(&configure());
    let table = FixedBaseTable::load(&short_base()).unwrap();
    let minus_one = Fp::zero().sub(&Fp::one());
    let g = generator();
    let cases: [(Fp, Fp, pallas::Affine); 8] = [
        (Fp::from_u64(1), Fp::one(), g),
        (Fp::from_u64(1), minus_one, -g),
        (Fp::from_u64(0), Fp::one(), pallas::Affine::default()),
        (Fp::from_u64(0), minus_one, pallas::Affine::default()),
        (Fp::from_u64(u64::MAX), Fp::one(), (g * pallas::Scalar::from(u64::MAX)).to_affine()),
        (Fp::from_u64(u64::MAX), minus_one, (g * -pallas::Scalar::from(u64::MAX)).to_affine()),
        // A sign other than -1 counts as 1.
        (Fp::from_u64(77), Fp::from_u64(5), (g * pallas::Scalar::from(77u64)).to_affine()),
        // A magnitude of more than 66 bits counts by its low 66 bits.
        (
            Fp::from_raw([9, 0b1100, 0, 0]).unwrap(),
            Fp::one(),
            (g * pallas::Scalar::from(9u64)).to_affine(),
        ),
    ];
    for (magnitude, sign, expected) in cases {
        let mut layouter = Layouter::new(64);
        let m = var(&mut layouter, Some(magnitude));
        let s = var(&mut layouter, Some(sign));
        let (product, scalar) = config.assign_with_table(&mut layouter, (m, s), &table).unwrap();
        assert_eq!(product.point(), Some(point(expected)));
        assert_eq!((scalar.magnitude, scalar.sign), (m, s));
        assert_eq!(scalar.windows.len(), NUM_WINDOWS_SHORT);
        assert_eq!(layouter.regions.len(), 5);
        assert_eq!(layouter.used, 2 + NUM_WINDOWS_SHORT + 4);
        assert_eq!(layouter.regions[2].name, "Short fixed-base mul (incomplete addition)");
        assert_eq!(layouter.regions[3].name, "Short fixed-base mul (most significant word)");
        let region = &layouter.regions[4];
        assert_eq!(region.name, "Signed short fixed-base mul");
        assert_eq!(region.selectors, vec![Enabled { selector: Selector { index: 4 }, row: 0 }]);
        assert_eq!(region.advice.len(), 5);
        assert_eq!(region.advice[0].value, Some(sign));
        assert_eq!(region.advice[3], product.x());
        assert_eq!(region.copies[0].0, s.cell);
        assert_eq!(product.y().cell, Cell { region: 4, row: 1, column: column(1) });
        // In the rows of the windows the selector of short multiplication is on.
        assert!(layouter.regions[2].selectors[..NUM_WINDOWS_SHORT]
            .iter()
            .all(|e| e.selector == Selector { index: 4 }));
    }
    // The windows of 2^64 - 1: twenty-one sevens and a one.
    let mut layouter = Layouter::new(64);
    let m = var(&mut layouter, Some(Fp::from_u64(u64::MAX)));
    let s = var(&mut layouter, None);
    let (product, scalar) = config.assign(&mut layouter, (m, s), &short_base()).unwrap();
    assert_eq!(product.point(), None);
    assert!(scalar.windows[..21].iter().all(|c| c.value == Some(Fp::from_u64(7))));
    assert_eq!(scalar.windows[21].value, Some(Fp::one()));
    // Too few rows, or a table of another size.
    let mut tight = Layouter::new(NUM_WINDOWS_SHORT + 3);
    assert!(matches!(config.assign_with_table(&mut tight, (m, s), &table), Err(Error::Synthesis)));
    assert!(tight.regions.is_empty());
    let mut exact = Layouter::new(NUM_WINDOWS_SHORT + 4);
    assert!(config.assign_with_table(&mut exact, (m, s), &table).is_ok());
    let full = FixedBaseTable::load(&full_base()).unwrap();
    let mut roomy = Layouter::new(1000);
    assert!(matches!(config.assign_with_table(&mut roomy, (m, s), &full), Err(Error::FixedBase)));
    assert!(matches!(config.assign(&mut roomy, (m, s), &full_base()), Err(Error::FixedBase)));
    assert!(matches!(config.assign(&mut tight, (m, s), &full_base()), Err(Error::FixedBase)));
    assert!(matches!(config.assign(&mut tight, (m, s), &short_base()), Err(Error::Synthesis)));
    assert!(roomy.regions.is_empty());
}

#[test]
fn multiplication_by_a_base_field_element() {
    let config = base_field_elem::Config::from(&configure());
    let table = FixedBaseTable::load(&full_base()).unwrap();
    let g = generator();
    let cases = [
        pallas::Base::zero(),
        pallas::Base::one(),
        -pallas::Base::one(),
        pallas::Base::random(rand::rngs::OsRng),
    ];
    for elem in cases {
        let mut layouter = Layouter::new(128);
        let alpha = var(&mut layouter, Some(base_elem(elem)));
        let product = config.assign_with_table(&mut layouter, alpha, &table).unwrap();
        let scalar = pallas::Scalar::from_repr(elem.to_repr()).unwrap();
        assert_eq!(product.point(), Some(point((g * scalar).to_affine())));
        assert_eq!(layouter.regions.len(), 4);
        assert_eq!(layouter.used, 1 + NUM_WINDOWS + 3);
        assert_eq!(layouter.regions[1].name, "Base-field elem fixed-base mul (incomplete addition)");
        assert_eq!(layouter.regions[2].name, "Base-field elem fixed-base mul (complete addition)");
        let region = &layouter.regions[3];
        assert_eq!(region.name, "Canonicity checks");
        assert_eq!(region.selectors, vec![Enabled { selector: Selector { index: 5 }, row: 0 }]);
        let cell = Cell { region: 3, row: 0, column: column(6) };
        assert_eq!(region.advice, vec![CellValue { cell, value: Some(base_elem(elem)) }]);
        assert_eq!(region.copies, vec![(alpha.cell, cell)]);
    }
    let mut layouter = Layouter::new(128);
    let unknown = var(&mut layouter, None);
    assert_eq!(config.assign(&mut layouter, unknown, &full_base()).unwrap().point(), None);
    let mut tight = Layouter::new(NUM_WINDOWS + 2);
    assert!(matches!(
        config.assign_with_table(&mut tight, unknown, &table),
        Err(Error::Synthesis)
    ));
    let short_table = FixedBaseTable::load(&short_base()).unwrap();
    let mut roomy = Layouter::new(1000);
    assert!(matches!(
        config.assign_with_table(&mut roomy, unknown, &short_table),
        Err(Error::FixedBase)
    ));
    assert!(matches!(config.assign(&mut roomy, unknown, &short_base()), Err(Error::FixedBase)));
    assert!(matches!(config.assign(&mut tight, unknown, &full_base()), Err(Error::Synthesis)));
    assert!(roomy.regions.is_empty());
}

#[test]
fn the_three_multiplications_agree() {
    let minus_one = Fp::zero().sub(&Fp::one());
    for m in [0u64, 1, 7, 8, 0o1234567, u64::MAX, rand::random::<u64>()] {
        let mut layouter = Layouter::new(1 << 10);
        let reference = point((generator() * pallas::Scalar::from(m)).to_affine());
        let (full, _) = chip().mul_fixed(&mut layouter, Some(Fq::from_u64(m)), &full_base()).unwrap();
        let magnitude = var(&mut layouter, Some(Fp::from_u64(m)));
        let sign = var(&mut layouter, Some(Fp::one()));
        let (short, _) =
            chip().mul_fixed_short(&mut layouter, (magnitude, sign), &short_base()).unwrap();
        let elem = var(&mut layouter, Some(Fp::from_u64(m)));
        let base_field =
            chip().mul_fixed_base_field_elem(&mut layouter, elem, &full_base()).unwrap();
        assert_eq!(full.point(), Some(reference));
        assert_eq!(short.point(), Some(reference));
        assert_eq!(base_field.point(), Some(reference));
        let negative = var(&mut layouter, Some(minus_one));
        let (negated, _) =
            chip().mul_fixed_short(&mut layouter, (magnitude, negative), &short_base()).unwrap();
        assert_eq!(negated.point(), Some(reference.neg()));
    }
}

#[test]
fn a_product_is_handed_on_with_the_chip() {
    let g = point(generator());
    let mut layouter = Layouter::new(256);
    let p = chip().witness_point(&mut layouter, Some(g)).unwrap();
    let alpha = var(&mut layouter, Some(Fp::from_u64(3)));
    let sign = var(&mut layouter, Some(Fp::one()));

    // What the chip gave comes back, paired with the chip.
    let (product, scalar) = ScalarVar::from_product(chip(), Ok((p, alpha))).unwrap();
    assert_eq!(product.inner().x(), p.x());
    assert_eq!(product.inner().y(), p.y());
    assert_eq!(*scalar.inner(), alpha);

    let fixed = EccScalarFixed {
        value: Some(Fq::from_u64(5)),
        windows: EccScalarFixed::collect(&vec![alpha, sign]),
    };
    let (product, scalar) = ScalarFixed::from_product(chip(), Ok((p, fixed.clone()))).unwrap();
    assert_eq!(product.inner().x(), p.x());
    assert_eq!(scalar.inner().value, Some(Fq::from_u64(5)));
    assert_eq!(scalar.inner().windows[..], [alpha, sign]);
    // A clone of the record holds the same cells.
    assert_eq!(fixed.clone().windows[..], fixed.windows[..]);
    assert_eq!(fixed.clone().value, fixed.value);

    let short = ecc_gadgets::ecc::chip::EccScalarFixedShort {
        magnitude: alpha,
        sign,
        windows: vec![alpha],
    };
    let (product, scalar) = ScalarFixedShort::from_product(chip(), Ok((p, short))).unwrap();
    assert_eq!(product.inner().y(), p.y());
    assert_eq!((scalar.inner().magnitude, scalar.inner().sign), (alpha, sign));
    assert_eq!(scalar.inner().windows, vec![alpha]);

    // An error of the chip comes back as it is.
    for e in [Error::Synthesis, Error::FixedBase, Error::IdentityWitness] {
        assert_eq!(ScalarVar::from_product(chip(), Err(e)).err(), Some(e));
        assert_eq!(ScalarFixed::from_product(chip(), Err(e)).err(), Some(e));
        assert_eq!(ScalarFixedShort::from_product(chip(), Err(e)).err(), Some(e));
        assert_eq!(Point::from_witness(chip(), Err(e)).err(), Some(e));
        assert_eq!(NonIdentityPoint::from_witness(chip(), Err(e)).err(), Some(e));
    }
    assert_eq!(same_chip(&chip()), chip());

    // Through the gadgets: the product and the record are those of the chip.
    let base = FixedPoint::from_inner(chip(), full_base());
    let s = Fq::from_u64(0o777);
    let mut direct = Layouter::new(256);
    let (expected, record) = chip().mul_fixed(&mut direct, Some(s), &full_base()).unwrap();
    let mut through = Layouter::new(256);
    let (product, scalar) = base.mul(&mut through, Some(s)).unwrap();
    assert_eq!(product.inner().point(), expected.point());
    assert_eq!(product.inner().x(), expected.x());
    assert_eq!(scalar.inner().value, Some(s));
    assert_eq!(scalar.inner().windows[..], record.windows[..]);
    assert_eq!(scalar.inner().windows[0].value, Some(Fp::from_u64(7)));
    assert_eq!(scalar.inner().windows[3].value, Some(Fp::zero()));
    assert_eq!(through.regions.len(), direct.regions.len());
    assert_eq!(through.used, direct.used);
    // The base can be used again.
    assert!(base.clone().mul(&mut through, None).is_ok());
    // Where the chip fails the gadget fails alike, and lays nothing out.
    let mut tight = Layouter::new(10);
    assert_eq!(base.mul(&mut tight, Some(s)).err(), Some(Error::Synthesis));
    assert!(tight.regions.is_empty());
    let short_fixed = FixedPoint::from_inner(chip(), short_base());
    assert_eq!(short_fixed.mul(&mut through, Some(s)).err(), Some(Error::FixedBase));
    assert_eq!(short_fixed.mul_base_field(&mut through, alpha).err(), Some(Error::FixedBase));
    assert_eq!(base.mul_short(&mut through, (alpha, sign)).err(), Some(Error::FixedBase));
    assert_eq!(short_fixed.mul_short(&mut tight, (alpha, sign)).err(), Some(Error::Synthesis));
    let (product, scalar) = short_fixed.mul_short(&mut through, (alpha, sign)).unwrap();
    assert_eq!(product.inner().point(), Some(g.mul(&Fq::from_u64(3))));
    assert_eq!(scalar.inner().magnitude, alpha);
    let typed = NonIdentityPoint::new(chip(), &mut through, Some(g)).unwrap();
    let mut full = Layouter::new(1);
    assert_eq!(typed.mul(&mut full, &alpha).err(), Some(Error::Synthesis));
    assert!(full.regions.is_empty());
    let (product, scalar) = typed.mul(&mut through, &alpha).unwrap();
    assert_eq!(product.inner().point(), Some(g.mul(&Fq::from_u64(3))));
    assert_eq!(scalar.inner().value, Some(Fp::from_u64(3)));
}

#[test]
fn points_of_a_chip_and_of_its_clone_add() {
    let g = point(generator());
    let mut layouter = Layouter::new(64);
    let first = chip();
    let second = first.clone();
    let third = same_chip(&first);
    let p = Point::new(first, &mut layouter, Some(g)).unwrap();
    let q = Point::new(second, &mut layouter, Some(g.neg())).unwrap();
    let n = NonIdentityPoint::new(third, &mut layouter, Some(g)).unwrap();
    assert_eq!(p.add(&mut layouter, &q).unwrap().inner().is_identity(), Some(true));
    assert_eq!(n.add(&mut layouter, &p).unwrap().inner().point(), Some(g.add(&g)));
    let m = n.clone();
    assert!(matches!(n.add_incomplete(&mut layouter, &m), Err(Error::Synthesis)));
    // Equal points that were witnessed apart are tied; so are different
    // points, and only the values tell.
    let again = Point::new(chip(), &mut layouter, Some(g)).unwrap();
    assert!(p.constrain_equal(&mut layouter, &again).is_ok());
    assert!(p.constrain_equal(&mut layouter, &q).is_ok());
    assert!(n.constrain_equal(&mut layouter, &again).is_ok());
    assert!(Chip::equal_in_value(p.inner(), again.inner()));
    assert!(!Chip::equal_in_value(p.inner(), q.inner()));
    assert!(Chip::equal_in_value(n.to_point().inner(), again.inner()));
    let last = layouter.regions.last().unwrap();
    assert_eq!(last.name, "constrain equal");
    assert_eq!(last.copies[0], (n.inner().x().cell, again.inner().x().cell));
}

#[test]
fn a_table_is_a_fixed_base() {
    let table = FixedBaseTable::load(&full_base()).unwrap();
    assert_eq!(FixedPoints::generator(&table), point(generator()));
    assert_eq!(FixedPoints::u(&table), full_base().u());
    assert_eq!(FixedPoints::z(&table), full_base().z());
    assert_eq!(FixedPoints::lagrange_coeffs(&table), full_base().lagrange_coeffs());
    let copy = table.clone();
    assert_eq!(copy, table);
    assert_eq!(copy.num_windows(), NUM_WINDOWS);
    assert_eq!(copy.u(84, 7), Fp::from_u64(marker(84, 7)));
    // The table of a table is the table.
    assert_eq!(FixedBaseTable::load(&table), Some(copy));
    assert_ne!(FixedBaseTable::load(&short_base()).unwrap(), table);

    let table_chip = EccChip::<FixedBaseTable>::construct(configure());
    let s = Fq::from_u64(12345);
    let expected = point(generator()).mul(&s);
    let mut layouter = Layouter::new(200);
    let (product, fixed) = table_chip.mul_fixed(&mut layouter, Some(s), &table).unwrap();
    assert_eq!(product.point(), Some(expected));
    assert_eq!(fixed.value, Some(s));
    // The same rows as for the base that the table was loaded from.
    let mut other = Layouter::new(200);
    let (same, _) = chip().mul_fixed(&mut other, Some(s), &full_base()).unwrap();
    assert_eq!(same.point(), Some(expected));
    assert_eq!(other.regions[0].advice, layouter.regions[0].advice);
    assert_eq!(other.regions[0].fixed, layouter.regions[0].fixed);
    assert_eq!(other.regions[1].advice, layouter.regions[1].advice);
    // Through the gadget, with the chip's own error where rows are lacking.
    let typed = FixedPoint::from_inner(table_chip.clone(), table.clone());
    let (product, scalar) = typed.mul(&mut layouter, Some(s)).unwrap();
    assert_eq!(product.inner().point(), Some(expected));
    assert_eq!(scalar.inner().value, Some(s));
    assert_eq!(typed.mul(&mut layouter, Some(s)).err(), Some(Error::Synthesis));
    assert_eq!(layouter.regions.len(), 4);
    assert_eq!(typed.mul_short(&mut other, (fixed.windows[0], fixed.windows[1])).err(), Some(Error::FixedBase));
}
