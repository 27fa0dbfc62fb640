use ecc_gadgets::circuit::{Column, Layouter, Selector};
use ecc_gadgets::curve::AffinePoint;
use ecc_gadgets::ecc::chip::mul_fixed::full_width::Config;
use ecc_gadgets::ecc::chip::mul_fixed::Config as MulFixedConfig;
use ecc_gadgets::ecc::chip::{add, add_incomplete, NUM_WINDOWS};
use ecc_gadgets::ecc::FixedPoints;
use ecc_gadgets::field::{Fp, Fq};
use ff::{Field, PrimeField};
use group::{Curve, Group};
use pasta_curves::arithmetic::CurveAffine;
use pasta_curves::pallas;

fn limbs(bytes: [u8; 32]) -> [u64; 4] {
    let mut out = [0u64; 4];
    for i in 0..4 {
        let mut limb = [0u8; 8];
        limb.copy_from_slice(&bytes[8 * i..8 * i + 8]);
        out[i] = u64::from_le_bytes(limb);
    }
    out
}

fn base_elem(x: pallas::Base) -> Fp {
    Fp::from_raw(limbs(x.to_repr())).unwrap()
}

fn scalar_elem(x: pallas::Scalar) -> Fq {
    Fq::from_raw(limbs(x.to_repr())).unwrap()
}

fn point(p: pallas::Affine) -> AffinePoint {
    let c: Option<pasta_curves::arithmetic::Coordinates<pallas::Affine>> =
        p.coordinates().into();
    match c {
        Some(c) => AffinePoint::from_xy(base_elem(*c.x()), base_elem(*c.y())).unwrap(),
        None => AffinePoint::identity(),
    }
}

#[derive(Debug, Clone, PartialEq, Eq)]
struct PlainBase(pallas::Affine);

impl FixedPoints for PlainBase {
    fn spec_generator(&self) -> AffinePoint {
        self.generator()
    }

    fn spec_u(&self) -> Vec<[[u8; 32]; 8]> {
        self.u()
    }

    fn spec_z(&self) -> Vec<u64> {
        self.z()
    }

    fn spec_lagrange_coeffs(&self) -> Vec<[Fp; 8]> {
        self.lagrange_coeffs()
    }

    fn generator(&self) -> AffinePoint {
        point(self.0)
    }

    fn u(&self) -> Vec<[[u8; 32]; 8]> {
        vec![[[0u8; 32]; 8]; NUM_WINDOWS]
    }

    fn z(&self) -> Vec<u64> {
        vec![0u64; NUM_WINDOWS]
    }

    fn lagrange_coeffs(&self) -> Vec<[Fp; 8]> {
        vec![[Fp::zero(); 8]; NUM_WINDOWS]
    }
}

fn config() -> Config {
    let column = |index: usize| Column { index };
    let selector = |index: usize| Selector { index };
    Config {
        q_mul_fixed_full: selector(3),
        super_config: MulFixedConfig {
            lagrange_coeffs: [
                column(10),
                column(11),
                column(12),
                column(13),
                column(14),
                column(15),
                column(16),
                column(17),
            ],
            fixed_z: column(18),
            window: column(4),
            x_p: column(0),
            y_p: column(1),
            u: column(5),
            add_config: add::Config {
                q_add: selector(1),
                x_p: column(0),
                y_p: column(1),
                x_qr: column(2),
                y_qr: column(3),
            },
            add_incomplete_config: add_incomplete::Config {
                q_add_incomplete: selector(0),
                x_p: column(0),
                y_p: column(1),
                x_qr: column(2),
                y_qr: column(3),
            },
        },
    }
}

fn multiply(scalar: pallas::Scalar, base: pallas::Affine) -> AffinePoint {
    let mut layouter = Layouter::new(1 << 13);
    let (product, fixed) = config()
        .assign(&mut layouter, Some(scalar_elem(scalar)), &PlainBase(base))
        .unwrap();
    assert_eq!(fixed.value, Some(scalar_elem(scalar)));
    assert_eq!(fixed.windows.len(), NUM_WINDOWS);
    assert_eq!(layouter.regions.len(), 2);
    assert_eq!(layouter.used, NUM_WINDOWS + 2);
    product.point().unwrap()
}

#[test]
fn random_scalar_matches_reference() {
    let base = pallas::Point::generator().to_affine();
    for _ in 0..4 {
        let scalar = pallas::Scalar::random(rand::rngs::OsRng);
        assert_eq!(multiply(scalar, base), point((base * scalar).to_affine()));
    }
}

#[test]
fn zero_scalar_gives_identity() {
    let base = pallas::Point::generator().to_affine();
    let product = multiply(pallas::Scalar::zero(), base);
    assert!(product.is_identity());
    assert_eq!(product, AffinePoint::identity());
}

#[test]
fn minus_one_gives_negated_base() {
    let base = pallas::Point::generator().to_affine();
    let scalar = -pallas::Scalar::one();
    assert_eq!(multiply(scalar, base), point((base * scalar).to_affine()));
    assert_eq!(multiply(scalar, base), point(-base));
}

#[test]
fn forced_doubling_sequence() {
    let base = pallas::Point::generator().to_affine();
    let h = pallas::Scalar::from(8u64);
    let scalar = "1333333333333333333333333333333333333333333333333333333333333333333333333333333333334"
        .chars()
        .fold(pallas::Scalar::zero(), |acc, c| {
            acc * h + pallas::Scalar::from(c.to_digit(8).unwrap() as u64)
        });
    assert_eq!(multiply(scalar, base), point((base * scalar).to_affine()));
}

#[test]
fn unknown_scalar_gives_unknown_product() {
    let base = pallas::Point::generator().to_affine();
    let mut layouter = Layouter::new(1 << 13);
    let (product, fixed) = config().assign(&mut layouter, None, &PlainBase(base)).unwrap();
    assert!(product.point().is_none());
    assert!(fixed.value.is_none());
    assert!(fixed.windows.iter().all(|cell| cell.value.is_none()));
}

#[test]
fn too_few_rows_is_a_synthesis_error() {
    let base = pallas::Point::generator().to_affine();
    let mut layouter = Layouter::new(NUM_WINDOWS + 1);
    let r = config().assign(&mut layouter, Some(scalar_elem(pallas::Scalar::one())), &PlainBase(base));
    assert!(matches!(r, Err(ecc_gadgets::circuit::Error::Synthesis)));
    assert_eq!(layouter.regions.len(), 0);
}
