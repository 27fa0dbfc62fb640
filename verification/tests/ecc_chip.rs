use ecc_gadgets::circuit::{Cell, CellValue, Column, Error, Layouter, Selector};
use ecc_gadgets::constraints::{ConstraintSystem, Row};
use ecc_gadgets::curve::AffinePoint;
use ecc_gadgets::ecc::chip::mul_fixed::full_width;
use ecc_gadgets::ecc::chip::{EccChip, EccConfig, NUM_WINDOWS, NUM_WINDOWS_SHORT};
use ecc_gadgets::ecc::{EccInstructions, FixedPoint, FixedPoints, NonIdentityPoint, Point};
use ecc_gadgets::field::{Fp, Fq};
use ff::{Field, PrimeField};
use group::{Curve, Group};
use pasta_curves::arithmetic::CurveAffine;
use pasta_curves::pallas;

fn limbs(bytes: [u8; 32]) -> [u64; 4] {
    let mut out = [0u64; 4];
    for i in 0..4 {
        let mut limb = [0u8; 8];
        limb.copy_from_slice(&bytes[8 * i..8 * i + 8]);
        out[i] = u64::from_le_bytes(limb);
    }
    out
}

fn base_elem(x: pallas::Base) -> Fp {
    Fp::from_raw(limbs(x.to_repr())).unwrap()
}

fn scalar_elem(x: pallas::Scalar) -> Fq {
    Fq::from_raw(limbs(x.to_repr())).unwrap()
}

fn point(p: pallas::Affine) -> AffinePoint {
    let c: Option<pasta_curves::arithmetic::Coordinates<pallas::Affine>> =
        p.coordinates().into();
    match c {
        Some(c) => AffinePoint::from_xy(base_elem(*c.x()), base_elem(*c.y())).unwrap(),
        None => AffinePoint::identity(),
    }
}

fn xy(p: pallas::Affine) -> (pallas::Base, pallas::Base) {
    let c: Option<pasta_curves::arithmetic::Coordinates<pallas::Affine>> =
        p.coordinates().into();
    match c {
        Some(c) => (*c.x(), *c.y()),
        None => (pallas::Base::zero(), pallas::Base::zero()),
    }
}

/// The points that window `w` of `num_windows` can stand for, one for each
/// window value.
fn window_table(base: pallas::Affine, num_windows: usize) -> Vec<[pallas::Affine; 8]> {
    let mut tables = Vec::new();
    // [8^w] B, and the sum of [2 * 8^j] B over the windows before w.
    let mut step = pallas::Point::from(base);
    let mut offset = pallas::Point::identity();
    for w in 0..num_windows {
        let mut row = [pallas::Affine::default(); 8];
        let mut acc = if w + 1 < num_windows { step + step } else { -offset };
        for k in 0..8 {
            row[k] = acc.to_affine();
            acc += step;
        }
        tables.push(row);
        offset += step + step;
        step = step.double().double().double();
    }
    tables
}

/// The coefficients, lowest degree first, of the polynomial of degree at
/// most seven that takes `k` to `values[k]`.
fn interpolate(values: &[pallas::Base; 8]) -> [pallas::Base; 8] {
    let mut coeffs = [pallas::Base::zero(); 8];
    for j in 0..8 {
        // The numerator of the j-th basis polynomial, as coefficients.
        let mut basis = vec![pallas::Base::one()];
        let mut denominator = pallas::Base::one();
        for m in 0..8 {
            if m == j {
                continue;
            }
            let root = pallas::Base::from(m as u64);
            let mut next = vec![pallas::Base::zero(); basis.len() + 1];
            for (i, c) in basis.iter().enumerate() {
                next[i + 1] += *c;
                next[i] -= *c * root;
            }
            basis = next;
            denominator *= pallas::Base::from(j as u64) - root;
        }
        let scale = values[j] * denominator.invert().unwrap();
        for (i, c) in basis.iter().enumerate() {
            coeffs[i] += *c * scale;
        }
    }
    coeffs
}

/// The least offsets `z`, window by window, for which `y + z` is a square for
/// the point of every window value, for the multiples 1, 3, 5, 7 and 11 of
/// the generator with 85 windows, and 1 and 13 with 22 windows.
const Z_FULL_1: [u64; 85] = [
    73, 579, 209, 7, 3, 9, 64, 23, 39, 87, 468, 513,
    109, 61, 118, 56, 525, 673, 428, 134, 705, 163, 452, 296,
    38, 152, 52, 289, 128, 28, 71, 494, 254, 62, 341, 258,
    32, 262, 262, 351, 114, 67, 106, 38, 88, 423, 170, 475,
    373, 43, 85, 555, 333, 521, 352, 17, 367, 421, 40, 46,
    601, 270, 627, 47, 57, 264, 264, 134, 58, 181, 17, 283,
    17, 51, 282, 898, 5, 489, 236, 235, 195, 104, 307, 451,
    732,
];

const Z_FULL_3: [u64; 85] = [
    197, 1076, 227, 435, 237, 207, 485, 181, 475, 432, 297, 32,
    509, 353, 128, 134, 591, 666, 437, 2, 388, 575, 37, 0,
    639, 117, 100, 34, 36, 3, 22, 69, 230, 912, 671, 667,
    48, 305, 301, 111, 76, 58, 140, 37, 167, 225, 179, 268,
    526, 411, 29, 38, 1327, 82, 20, 233, 317, 242, 33, 194,
    175, 41, 353, 6, 830, 32, 208, 44, 582, 232, 8, 13,
    17, 290, 122, 17, 213, 298, 153, 876, 13, 536, 5, 119,
    332,
];

const Z_FULL_5: [u64; 85] = [
    227, 1013, 149, 219, 162, 150, 102, 178, 44, 44, 436, 67,
    3, 350, 129, 15, 56, 213, 1128, 156, 63, 117, 115, 250,
    133, 90, 615, 108, 24, 71, 25, 208, 228, 154, 528, 95,
    192, 171, 49, 78, 871, 282, 299, 87, 95, 126, 259, 124,
    117, 375, 37, 116, 92, 66, 541, 559, 79, 21, 83, 179,
    223, 157, 121, 46, 1763, 221, 781, 726, 37, 465, 207, 139,
    31, 54, 54, 17, 558, 184, 130, 185, 1024, 289, 68, 70,
    94,
];

const Z_FULL_7: [u64; 85] = [
    93, 1275, 19, 310, 2, 16, 146, 182, 358, 89, 327, 175,
    460, 380, 94, 258, 390, 200, 410, 501, 281, 288, 214, 625,
    71, 438, 203, 44, 40, 19, 189, 338, 238, 101, 258, 17,
    99, 102, 74, 104, 90, 25, 202, 23, 43, 88, 3, 134,
    82, 158, 120, 1039, 77, 1033, 262, 64, 46, 708, 387, 150,
    191, 8, 276, 579, 446, 164, 112, 184, 361, 33, 607, 55,
    518, 347, 450, 257, 222, 147, 290, 264, 201, 105, 418, 614,
    119,
];

const Z_FULL_11: [u64; 85] = [
    155, 594, 151, 95, 19, 128, 422, 220, 89, 70, 8, 253,
    91, 25, 425, 215, 716, 104, 608, 132, 329, 178, 101, 29,
    62, 48, 57, 373, 414, 302, 158, 431, 263, 238, 374, 91,
    55, 76, 28, 452, 44, 149, 30, 195, 213, 49, 670, 1151,
    75, 233, 123, 138, 1248, 41, 399, 167, 305, 642, 394, 403,
    52, 85, 846, 184, 15, 20, 650, 218, 153, 93, 326, 274,
    112, 128, 357, 73, 10, 143, 56, 21, 248, 141, 380, 799,
    98,
];

const Z_SHORT_1: [u64; 22] = [
    73, 579, 209, 7, 3, 9, 64, 23, 39, 87, 468, 513,
    109, 61, 118, 56, 525, 673, 428, 134, 705, 117,
];

const Z_SHORT_13: [u64; 22] = [
    16, 755, 261, 160, 15, 197, 512, 53, 323, 683, 118, 89,
    539, 785, 401, 128, 857, 63, 182, 128, 100, 25,
];

/// The least offset `z` for which `y + z` is a square for every point of a
/// window.
fn find_z(row: &[pallas::Affine; 8]) -> u64 {
    let mut z = 0u64;
    loop {
        let all_squares = row.iter().all(|p| {
            let root: Option<pallas::Base> = (xy(*p).1 + pallas::Base::from(z)).sqrt().into();
            root.is_some()
        });
        if all_squares {
            return z;
        }
        z += 1;
    }
}

/// For each window value a square root `u` of `y + z`.
fn find_us(row: &[pallas::Affine; 8], z: u64) -> [[u8; 32]; 8] {
    let mut us = [[0u8; 32]; 8];
    for k in 0..8 {
        let root: Option<pallas::Base> = (xy(row[k]).1 + pallas::Base::from(z)).sqrt().into();
        us[k] = root.unwrap().to_repr();
    }
    us
}

#[derive(Debug, Clone, PartialEq, Eq)]
struct FixedBase {
    generator: pallas::Affine,
    u: Vec<[[u8; 32]; 8]>,
    z: Vec<u64>,
    lagrange_coeffs: Vec<[Fp; 8]>,
}

impl FixedBase {
    fn new(multiple: u64, zs: &[u64]) -> Self {
        let generator =
            (pallas::Point::generator() * pallas::Scalar::from(multiple)).to_affine();
        let tables = window_table(generator, zs.len());
        let lagrange_coeffs = tables
            .iter()
            .map(|row| {
                let mut xs = [pallas::Base::zero(); 8];
                for k in 0..8 {
                    xs[k] = xy(row[k]).0;
                }
                let coeffs = interpolate(&xs);
                let mut out = [Fp::zero(); 8];
                for k in 0..8 {
                    out[k] = base_elem(coeffs[k]);
                }
                out
            })
            .collect();
        FixedBase {
            generator,
            u: tables.iter().zip(zs).map(|(row, z)| find_us(row, *z)).collect(),
            z: zs.to_vec(),
            lagrange_coeffs,
        }
    }
}

impl FixedPoints for FixedBase {
    fn spec_generator(&self) -> AffinePoint {
        self.generator()
    }

    fn spec_u(&self) -> Vec<[[u8; 32]; 8]> {
        self.u()
    }

    fn spec_z(&self) -> Vec<u64> {
        self.z()
    }

    fn spec_lagrange_coeffs(&self) -> Vec<[Fp; 8]> {
        self.lagrange_coeffs()
    }

    fn generator(&self) -> AffinePoint {
        point(self.generator)
    }

    fn u(&self) -> Vec<[[u8; 32]; 8]> {
        self.u.clone()
    }

    fn z(&self) -> Vec<u64> {
        self.z.clone()
    }

    fn lagrange_coeffs(&self) -> Vec<[Fp; 8]> {
        self.lagrange_coeffs.clone()
    }
}

fn configure() -> EccConfig {
    let column = |index: usize| Column { index };
    let selector = |index: usize| Selector { index };
    EccConfig {
        advices: [
            column(0),
            column(1),
            column(2),
            column(3),
            column(4),
            column(5),
            column(6),
            column(7),
            column(8),
            column(9),
        ],
        lagrange_coeffs: [
            column(10),
            column(11),
            column(12),
            column(13),
            column(14),
            column(15),
            column(16),
            column(17),
        ],
        fixed_z: column(18),
        q_add_incomplete: selector(0),
        q_add: selector(1),
        q_mul: selector(2),
        q_mul_fixed_full: selector(3),
        q_mul_fixed_short: selector(4),
        q_mul_fixed_base_field: selector(5),
        q_point: selector(6),
        q_point_non_id: selector(7),
    }
}

type Chip = EccChip<FixedBase>;

/// The value last assigned to a cell.
fn cell_value(layouter: &Layouter, cell: Cell) -> Option<Fp> {
    layouter.regions[cell.region]
        .advice
        .iter()
        .rev()
        .find(|assigned| assigned.cell == cell)
        .and_then(|assigned| assigned.value)
}

/// Checks every polynomial of every gate on every row, and every pair of
/// cells that are tied together.
fn verify(layouter: &Layouter, meta: &ConstraintSystem) -> Result<(), String> {
    for region in &layouter.regions {
        for index in 0..region.height {
            let row = Row {
                selectors: region
                    .selectors
                    .iter()
                    .filter(|e| e.row == index)
                    .map(|e| e.selector)
                    .collect(),
                fixed: region
                    .fixed
                    .iter()
                    .filter(|f| f.row == index)
                    .map(|f| (f.column, f.value))
                    .collect(),
                advice: region
                    .advice
                    .iter()
                    .rev()
                    .filter(|a| a.cell.row == index && a.value.is_some())
                    .map(|a| (a.cell.column, a.value.unwrap()))
                    .collect(),
            };
            for gate in &meta.gates {
                for constraint in &gate.constraints {
                    if !constraint.poly.evaluate(&row).is_zero() {
                        return Err(format!(
                            "{}: {} fails in region {} ({}) at row {}",
                            gate.name, constraint.name, region.index, region.name, index
                        ));
                    }
                }
            }
        }
        for (left, right) in &region.copies {
            if cell_value(layouter, *left) != cell_value(layouter, *right) {
                return Err(format!(
                    "cells {:?} and {:?} differ in region {} ({})",
                    left, right, region.index, region.name
                ));
            }
        }
    }
    Ok(())
}

fn constrain_equal_non_id(
    chip: Chip,
    layouter: &mut Layouter,
    base_val: pallas::Affine,
    scalar_val: pallas::Scalar,
    result: Point<Chip>,
) -> Result<(), Error> {
    let expected =
        NonIdentityPoint::new(chip, layouter, Some(point((base_val * scalar_val).to_affine())))?;
    result.constrain_equal(layouter, &expected.to_point())
}

fn test_single_base(
    chip: Chip,
    layouter: &mut Layouter,
    base: FixedPoint<Chip>,
    base_val: pallas::Affine,
) -> Result<(), Error> {
    // [a]B
    {
        let scalar_fixed = pallas::Scalar::random(rand::rngs::OsRng);
        let (result, _) = base.mul(layouter, Some(scalar_elem(scalar_fixed)))?;
        constrain_equal_non_id(chip.clone(), layouter, base_val, scalar_fixed, result)?;
    }

    // There is a single canonical sequence of window values for which a doubling occurs on the last step:
    // 1333333333333333333333333333333333333333333333333333333333333333333333333333333333334 in octal.
    {
        let h = pallas::Scalar::from(8u64);
        let scalar_fixed = "1333333333333333333333333333333333333333333333333333333333333333333333333333333333334"
            .chars()
            .fold(pallas::Scalar::zero(), |acc, c| {
                acc * h + pallas::Scalar::from(c.to_digit(8).unwrap() as u64)
            });
        let (result, _) = base.mul(layouter, Some(scalar_elem(scalar_fixed)))?;
        constrain_equal_non_id(chip.clone(), layouter, base_val, scalar_fixed, result)?;
    }

    // [0]B should return (0,0) since it uses complete addition
    // on the last step.
    {
        let scalar_fixed = pallas::Scalar::zero();
        let (result, _) = base.mul(layouter, Some(scalar_elem(scalar_fixed)))?;
        assert!(result.inner().is_identity().unwrap());
    }

    // [-1]B is the largest scalar field element.
    {
        let scalar_fixed = -pallas::Scalar::one();
        let (result, _) = base.mul(layouter, Some(scalar_elem(scalar_fixed)))?;
        constrain_equal_non_id(chip, layouter, base_val, scalar_fixed, result)?;
    }

    Ok(())
}

fn test_mul_fixed(
    bases: &[FixedBase],
    chip: Chip,
    layouter: &mut Layouter,
) -> Result<(), Error> {
    for base in bases {
        test_single_base(
            chip.clone(),
            layouter,
            FixedPoint::from_inner(chip.clone(), base.clone()),
            base.generator,
        )?;
    }
    Ok(())
}

fn witness_var(layouter: &mut Layouter, value: Fp) -> CellValue {
    let mut region = layouter.open_region("load private");
    let cell = region.assign_advice(Column { index: 9 }, 0, Some(value)).unwrap();
    layouter.close_region(region);
    cell
}

fn test_mul_fixed_short(
    base: &FixedBase,
    chip: Chip,
    layouter: &mut Layouter,
) -> Result<(), Error> {
    let fixed = FixedPoint::from_inner(chip.clone(), base.clone());
    let one = pallas::Base::one();
    let cases: [(u64, pallas::Base); 6] = [
        (rand::random::<u64>(), one),
        (rand::random::<u64>(), -one),
        (0, one),
        (0, -one),
        (u64::MAX, one),
        (u64::MAX, -one),
    ];
    for (magnitude, sign) in cases {
        let m = witness_var(layouter, Fp::from_u64(magnitude));
        let s = witness_var(layouter, base_elem(sign));
        let (result, scalar) = fixed.mul_short(layouter, (m, s))?;
        assert_eq!(scalar.inner().windows.len(), NUM_WINDOWS_SHORT);
        let scalar_val = if sign == one {
            pallas::Scalar::from(magnitude)
        } else {
            -pallas::Scalar::from(magnitude)
        };
        let expected = Point::new(
            chip.clone(),
            layouter,
            Some(point((base.generator * scalar_val).to_affine())),
        )?;
        result.constrain_equal(layouter, &expected)?;
        if magnitude == 0 {
            assert!(result.inner().is_identity().unwrap());
        }
    }
    Ok(())
}

fn test_mul_fixed_base_field(
    base: &FixedBase,
    chip: Chip,
    layouter: &mut Layouter,
) -> Result<(), Error> {
    let fixed = FixedPoint::from_inner(chip.clone(), base.clone());
    let cases = [
        pallas::Base::random(rand::rngs::OsRng),
        pallas::Base::zero(),
        -pallas::Base::one(),
        pallas::Base::from(u64::MAX),
    ];
    for elem in cases {
        let var = witness_var(layouter, base_elem(elem));
        let result = fixed.mul_base_field(layouter, var)?;
        let scalar_val = pallas::Scalar::from_repr(elem.to_repr()).unwrap();
        let expected = Point::new(
            chip.clone(),
            layouter,
            Some(point((base.generator * scalar_val).to_affine())),
        )?;
        result.constrain_equal(layouter, &expected)?;
    }
    Ok(())
}

fn test_add(
    chip: Chip,
    layouter: &mut Layouter,
    p_val: pallas::Affine,
    p: &NonIdentityPoint<Chip>,
    q_val: pallas::Affine,
    q: &NonIdentityPoint<Chip>,
    p_neg: &NonIdentityPoint<Chip>,
) -> Result<(), Error> {
    let zero = Point::new(chip.clone(), layouter, Some(AffinePoint::identity()))?;
    let check = |layouter: &mut Layouter, sum: Point<Chip>, expected: pallas::Affine| {
        let witnessed = Point::new(chip.clone(), layouter, Some(point(expected))).unwrap();
        sum.constrain_equal(layouter, &witnessed).unwrap();
        assert_eq!(sum.inner().point().unwrap(), point(expected));
    };
    // P + (-P) = O
    let sum = p.add(layouter, &p_neg.to_point())?;
    assert!(sum.inner().is_identity().unwrap());
    // O + O = O
    let sum = zero.add(layouter, &zero)?;
    assert!(sum.inner().is_identity().unwrap());
    // O + P = P, P + O = P
    let sum = zero.add(layouter, &p.to_point())?;
    check(layouter, sum, p_val);
    let sum = p.add(layouter, &zero)?;
    check(layouter, sum, p_val);
    // P + P = [2]P
    let sum = p.add(layouter, &p.to_point())?;
    check(layouter, sum, (p_val + p_val).to_affine());
    // P + Q = R
    let sum = p.add(layouter, &q.to_point())?;
    check(layouter, sum, (p_val + q_val).to_affine());
    Ok(())
}

fn test_add_incomplete(
    chip: Chip,
    layouter: &mut Layouter,
    p_val: pallas::Affine,
    p: &NonIdentityPoint<Chip>,
    q_val: pallas::Affine,
    q: &NonIdentityPoint<Chip>,
    p_neg: &NonIdentityPoint<Chip>,
) -> Result<(), Error> {
    // P + Q
    let sum = p.add_incomplete(layouter, q)?;
    let expected =
        NonIdentityPoint::new(chip, layouter, Some(point((p_val + q_val).to_affine())))?;
    sum.constrain_equal(layouter, &expected.to_point())?;
    // P + P should return an error
    assert!(matches!(p.add_incomplete(layouter, p), Err(Error::Synthesis)));
    // P + (-P) should return an error
    assert!(matches!(p.add_incomplete(layouter, p_neg), Err(Error::Synthesis)));
    Ok(())
}

fn test_mul(
    chip: Chip,
    layouter: &mut Layouter,
    p: &NonIdentityPoint<Chip>,
    p_val: pallas::Affine,
) -> Result<(), Error> {
    let cases = [
        pallas::Base::random(rand::rngs::OsRng),
        pallas::Base::zero(),
        -pallas::Base::one(),
    ];
    for elem in cases {
        let var = witness_var(layouter, base_elem(elem));
        let (result, _) = p.mul(layouter, &var)?;
        let scalar_val = pallas::Scalar::from_repr(elem.to_repr()).unwrap();
        let expected =
            Point::new(chip.clone(), layouter, Some(point((p_val * scalar_val).to_affine())))?;
        result.constrain_equal(layouter, &expected)?;
        if elem == pallas::Base::zero() {
            assert!(result.inner().is_identity().unwrap());
        }
    }
    Ok(())
}

fn synthesize(
    full_width: &[FixedBase],
    short: &FixedBase,
    layouter: &mut Layouter,
) -> Result<(), Error> {
    let chip = Chip::construct(configure());

    // Generate a random non-identity point P
    let p_val = pallas::Point::random(rand::rngs::OsRng).to_affine();
    let p = NonIdentityPoint::new(chip.clone(), layouter, Some(point(p_val)))?;
    let p_neg = NonIdentityPoint::new(chip.clone(), layouter, Some(point(-p_val)))?;

    // Generate a random non-identity point Q
    let q_val = pallas::Point::random(rand::rngs::OsRng).to_affine();
    let q = NonIdentityPoint::new(chip.clone(), layouter, Some(point(q_val)))?;

    // Make sure P and Q are not the same point.
    assert_ne!(p_val, q_val);

    // Test that we can witness the identity as a point, but not as a non-identity point.
    {
        let _ = Point::new(chip.clone(), layouter, Some(AffinePoint::identity()))?;

        assert!(matches!(
            NonIdentityPoint::new(chip.clone(), layouter, Some(AffinePoint::identity())),
            Err(Error::IdentityWitness)
        ));
    }

    test_add(chip.clone(), layouter, p_val, &p, q_val, &q, &p_neg)?;
    test_add_incomplete(chip.clone(), layouter, p_val, &p, q_val, &q, &p_neg)?;
    test_mul(chip.clone(), layouter, &p, p_val)?;
    test_mul_fixed(full_width, chip.clone(), layouter)?;
    test_mul_fixed_short(short, chip.clone(), layouter)?;
    test_mul_fixed_base_field(&full_width[0], chip, layouter)?;
    Ok(())
}

fn gates() -> ConstraintSystem {
    let mut meta = ConstraintSystem::new();
    full_width::Config::from(&configure()).create_gate(&mut meta);
    meta
}

#[test]
fn ecc_chip() {
    let k = 13;
    let full_width = [
        FixedBase::new(3, &Z_FULL_3),
        FixedBase::new(5, &Z_FULL_5),
        FixedBase::new(7, &Z_FULL_7),
        FixedBase::new(11, &Z_FULL_11),
    ];
    let short = FixedBase::new(13, &Z_SHORT_13);
    let mut layouter = Layouter::new(1 << k);
    synthesize(&full_width, &short, &mut layouter).unwrap();
    assert_eq!(verify(&layouter, &gates()), Ok(()))
}

#[test]
fn ecc_ecc_chip() {
    let k = 13;
    let full_width = [FixedBase::new(1, &Z_FULL_1)];
    let short = FixedBase::new(1, &Z_SHORT_1);
    let mut layouter = Layouter::new(1 << k);
    synthesize(&full_width, &short, &mut layouter).unwrap();
    assert_eq!(verify(&layouter, &gates()), Ok(()))
}

#[test]
fn window_out_of_range_fails_the_range_check() {
    let base = FixedBase::new(1, &Z_FULL_1);
    let chip = Chip::construct(configure());
    let mut layouter = Layouter::new(1 << 13);
    let s = scalar_elem(pallas::Scalar::from(0o1234567u64));
    chip.mul_fixed(&mut layouter, Some(s), &base).unwrap();
    let meta = gates();
    assert_eq!(verify(&layouter, &meta), Ok(()));
    // Witness 8, 9 and a large value in the cell of a window instead.
    for bad in [Fp::from_u64(8), Fp::from_u64(9), base_elem(-pallas::Base::one())] {
        let mut forged = layouter.clone();
        let window = configure().advices[4];
        let cell = forged.regions[0]
            .advice
            .iter_mut()
            .find(|a| a.cell.column == window && a.cell.row == 3)
            .unwrap();
        cell.value = Some(bad);
        let failure = verify(&forged, &meta).unwrap_err();
        assert!(failure.contains("row 3"), "{}", failure);
    }
    // Every value below eight passes the range check itself.
    let range = &meta.gates[0].constraints[3];
    assert_eq!(range.name, "window range check");
    for k in 0..16u64 {
        let row = Row {
            selectors: vec![configure().q_mul_fixed_full],
            fixed: vec![],
            advice: vec![(configure().advices[4], Fp::from_u64(k))],
        };
        assert_eq!(range.poly.evaluate(&row).is_zero(), k < 8);
    }
}

#[test]
fn differing_points_are_rejected() {
    let chip: Chip = Chip::construct(configure());
    let mut layouter = Layouter::new(1 << 13);
    let p_val = pallas::Point::random(rand::rngs::OsRng).to_affine();
    let q_val = (p_val + pallas::Point::generator()).to_affine();
    let p = Point::new(chip.clone(), &mut layouter, Some(point(p_val))).unwrap();
    let again = Point::new(chip.clone(), &mut layouter, Some(point(p_val))).unwrap();
    let q = Point::new(chip.clone(), &mut layouter, Some(point(q_val))).unwrap();
    p.constrain_equal(&mut layouter, &again).unwrap();
    assert_eq!(verify(&layouter, &gates()), Ok(()));
    assert!(Chip::equal_in_value(p.inner(), again.inner()));
    p.constrain_equal(&mut layouter, &q).unwrap();
    assert!(verify(&layouter, &gates()).is_err());
    assert!(!Chip::equal_in_value(p.inner(), q.inner()));
}

#[test]
fn offsets_are_the_least_that_give_squares() {
    let generator = pallas::Point::generator().to_affine();
    let tables = window_table(generator, NUM_WINDOWS);
    for w in [0usize, 3, 4, 5, 84] {
        assert_eq!(find_z(&tables[w]), Z_FULL_1[w]);
    }
    let tables = window_table(generator, NUM_WINDOWS_SHORT);
    assert_eq!(find_z(&tables[21]), Z_SHORT_1[21]);
    assert_eq!(Z_FULL_1.len(), NUM_WINDOWS);
    assert_eq!(Z_SHORT_13.len(), NUM_WINDOWS_SHORT);
}

#[test]
fn table_points_are_the_multiples_of_the_windows() {
    let generator = pallas::Point::generator().to_affine();
    let tables = window_table(generator, NUM_WINDOWS);
    let eight = pallas::Scalar::from(8u64);
    // Window 2, value 5: [(5 + 2) * 8^2] B.
    assert_eq!(tables[2][5], (generator * pallas::Scalar::from(7 * 64u64)).to_affine());
    // The last window, value 0: [-(2 + 2 * 8 + ... + 2 * 8^83)] B.
    let mut offset = pallas::Scalar::zero();
    let mut weight = pallas::Scalar::one();
    for _ in 0..84 {
        offset += weight + weight;
        weight *= eight;
    }
    assert_eq!(tables[84][0], (generator * -offset).to_affine());
    assert_eq!(tables[84][3], (generator * (weight * pallas::Scalar::from(3u64) - offset)).to_affine());
    // The interpolation polynomial of a window gives the x-coordinates back.
    let mut xs = [pallas::Base::zero(); 8];
    for k in 0..8 {
        xs[k] = xy(tables[2][k]).0;
    }
    let coeffs = interpolate(&xs);
    for k in 0..8u64 {
        let at = pallas::Base::from(k);
        let value = coeffs.iter().rev().fold(pallas::Base::zero(), |acc, c| acc * at + c);
        assert_eq!(value, xs[k as usize]);
    }
}
