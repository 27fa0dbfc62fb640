use ecc_gadgets::circuit::{Column, Selector};
use ecc_gadgets::constraints::{ConstraintSystem, Expression, Row};
use ecc_gadgets::ecc::chip::mul_fixed::full_width;
use ecc_gadgets::ecc::chip::mul_fixed::Config as MulFixedConfig;
use ecc_gadgets::ecc::chip::{add, add_incomplete, EccConfig};
use ecc_gadgets::field::Fp;
use ecc_gadgets::utilities::{decompose_word, range_check};

fn column(index: usize) -> Column {
    Column { index }
}

fn configure() -> EccConfig {
    let selector = |index: usize| Selector { index };
    EccConfig {
        advices: [
            column(0),
            column(1),
            column(2),
            column(3),
            column(4),
            column(5),
            column(6),
            column(7),
            column(8),
            column(9),
        ],
        lagrange_coeffs: [
            column(10),
            column(11),
            column(12),
            column(13),
            column(14),
            column(15),
            column(16),
            column(17),
        ],
        fixed_z: column(18),
        q_add_incomplete: selector(0),
        q_add: selector(1),
        q_mul: selector(2),
        q_mul_fixed_full: selector(3),
        q_mul_fixed_short: selector(4),
        q_mul_fixed_base_field: selector(5),
        q_point: selector(6),
        q_point_non_id: selector(7),
    }
}

#[test]
fn windows_are_the_octal_digits() {
    let windows = decompose_word([0o7654321, 0, 0, 0], 10);
    assert_eq!(windows, vec![1, 2, 3, 4, 5, 6, 7, 0, 0, 0]);
    assert_eq!(decompose_word([0o7654321, 0, 0, 0], 3), vec![1, 2, 3]);
    assert_eq!(decompose_word([0o7654321, 0, 0, 0], 0), Vec::<u8>::new());
    assert_eq!(decompose_word([0, 0, 0, 0], 4), vec![0, 0, 0, 0]);
}

#[test]
fn windows_cross_the_limbs() {
    // 2^64 = 2 * 8^21: window 21 holds the top bit of the first limb and
    // the two lowest bits of the second.
    let windows = decompose_word([1 << 63, 0b101, 0, 0], 24);
    let mut expected = vec![0u8; 24];
    expected[21] = 0b011;
    expected[22] = 0b001;
    assert_eq!(windows, expected);
    let windows = decompose_word([u64::MAX; 4], 86);
    assert_eq!(windows.len(), 86);
    assert!(windows[..85].iter().all(|w| *w == 7));
    // 256 bits: the last window holds one bit.
    assert_eq!(windows[85], 1);
    let windows = decompose_word([u64::MAX; 4], 90);
    assert_eq!(&windows[85..], &[1, 0, 0, 0, 0]);
}

#[test]
fn windows_spell_the_word() {
    let limbs = [0x0123_4567_89ab_cdef, 0xfedc_ba98_7654_3210, 0x0f0f_0f0f_0f0f_0f0f, 0x1234];
    let windows = decompose_word(limbs, 86);
    // Rebuild the limbs from the windows, most significant first.
    let mut acc = [0u64; 4];
    for w in windows.iter().rev() {
        assert!(*w < 8);
        acc[3] = (acc[3] << 3) | (acc[2] >> 61);
        acc[2] = (acc[2] << 3) | (acc[1] >> 61);
        acc[1] = (acc[1] << 3) | (acc[0] >> 61);
        acc[0] = (acc[0] << 3) | (*w as u64);
    }
    assert_eq!(acc, limbs);
}

fn row_with(window: u64) -> Row {
    Row {
        selectors: vec![Selector { index: 3 }],
        fixed: vec![(column(18), Fp::from_u64(11))],
        advice: vec![(column(4), Fp::from_u64(window)), (column(4), Fp::from_u64(99))],
    }
}

#[test]
fn range_check_vanishes_within_the_range_only() {
    for range in 1..=9usize {
        let poly = range_check(Expression::Advice(column(4)), range);
        for window in 0..12u64 {
            assert_eq!(
                poly.evaluate(&row_with(window)).is_zero(),
                (window as usize) < range,
                "range {} window {}",
                range,
                window
            );
        }
    }
    // w * (w - 1) * (w - 2) at w = 5 is 60.
    let poly = range_check(Expression::Advice(column(4)), 3);
    assert_eq!(poly.evaluate(&row_with(5)), Fp::from_u64(60));
    // A range of zero or one leaves the word itself.
    let poly = range_check(Expression::Advice(column(4)), 0);
    assert_eq!(poly.evaluate(&row_with(5)), Fp::from_u64(5));
    let poly = range_check(Expression::Advice(column(4)), 1);
    assert!(matches!(poly, Expression::Advice(c) if c == column(4)));
}

#[test]
fn expressions_evaluate_on_a_row() {
    let row = row_with(6);
    let window = || Expression::Advice(column(4));
    let z = || Expression::Fixed(column(18));
    assert_eq!(window().evaluate(&row), Fp::from_u64(6));
    assert_eq!(z().evaluate(&row), Fp::from_u64(11));
    assert_eq!(Expression::Advice(column(5)).evaluate(&row), Fp::zero());
    assert_eq!(Expression::Fixed(column(4)).evaluate(&row), Fp::zero());
    assert_eq!(Expression::Selector(Selector { index: 3 }).evaluate(&row), Fp::one());
    assert_eq!(Expression::Selector(Selector { index: 4 }).evaluate(&row), Fp::zero());
    assert_eq!(Expression::Constant(Fp::from_u64(9)).evaluate(&row), Fp::from_u64(9));
    assert_eq!(window().plus(z()).evaluate(&row), Fp::from_u64(17));
    assert_eq!(window().times(z()).evaluate(&row), Fp::from_u64(66));
    assert_eq!(z().minus(window()).evaluate(&row), Fp::from_u64(5));
    assert_eq!(window().square().evaluate(&row), Fp::from_u64(36));
    assert_eq!(
        window().minus(z()).evaluate(&row),
        Fp::zero().sub(&Fp::from_u64(5))
    );
    assert_eq!(
        Expression::Negated(Box::new(window())).evaluate(&row),
        Fp::zero().sub(&Fp::from_u64(6))
    );
    let copy = window().plus(z()).duplicate();
    assert_eq!(copy.evaluate(&row), Fp::from_u64(17));
    assert!(row.is_enabled(Selector { index: 3 }));
    assert!(!row.is_enabled(Selector { index: 0 }));
    assert_eq!(Row::find(&row.advice, column(4)), Fp::from_u64(6));
}

#[test]
fn full_width_gate_has_four_polynomials() {
    let config = full_width::Config::from(&configure());
    assert_eq!(config.q_mul_fixed_full, Selector { index: 3 });
    assert_eq!(config.super_config.window, column(4));
    assert_eq!(config.super_config.x_p, column(0));
    assert_eq!(config.super_config.y_p, column(1));
    assert_eq!(config.super_config.u, column(5));
    assert_eq!(config.super_config.fixed_z, column(18));
    assert_eq!(config.super_config.lagrange_coeffs[7], column(17));
    let mut meta = ConstraintSystem::new();
    assert!(meta.gates.is_empty());
    config.create_gate(&mut meta);
    assert_eq!(meta.gates.len(), 1);
    assert_eq!(meta.gates[0].name, "Full-width fixed-base scalar mul");
    let names: Vec<&str> = meta.gates[0].constraints.iter().map(|c| c.name).collect();
    assert_eq!(names, vec!["check x", "check y", "on-curve", "window range check"]);
}

#[test]
fn coordinate_checks_hold_of_a_consistent_row() {
    let config = MulFixedConfig {
        lagrange_coeffs: [
            column(10),
            column(11),
            column(12),
            column(13),
            column(14),
            column(15),
            column(16),
            column(17),
        ],
        fixed_z: column(18),
        window: column(4),
        x_p: column(0),
        y_p: column(1),
        u: column(5),
        add_config: add::Config::from(&configure()),
        add_incomplete_config: add_incomplete::Config::from(&configure()),
    };
    let q = Selector { index: 3 };
    let checks =
        config.coords_check(Expression::Selector(q), Expression::Advice(column(4)));
    assert_eq!(checks.len(), 3);
    // The point (-1, 2) is on the curve. With the polynomial 3 + 2 k - k^2
    // + ... the window k = 2 gives x = 3 + 4 - 4 - 4 = -1, and with z = 7
    // and u = 3, y + z = u^2.
    let minus = |v: u64| Fp::zero().sub(&Fp::from_u64(v));
    let row = |x: Fp, y: Fp, u: Fp| Row {
        selectors: vec![q],
        fixed: vec![
            (column(10), Fp::from_u64(3)),
            (column(11), Fp::from_u64(2)),
            (column(12), minus(1)),
            (column(12), Fp::from_u64(1000)),
            (column(13), Fp::zero()),
            (column(14), minus(1).mul(&Fp::from_u64(4)).mul(&Fp::from_u64(16)).mul(&Fp::zero())),
            (column(18), Fp::from_u64(7)),
        ],
        advice: vec![
            (column(4), Fp::from_u64(2)),
            (column(0), x),
            (column(1), y),
            (column(5), u),
        ],
    };
    let x = Fp::from_u64(3).add(&Fp::from_u64(4)).sub(&Fp::from_u64(4));
    let good = row(x, Fp::from_u64(2), Fp::from_u64(3));
    assert_eq!(checks[0].name, "check x");
    assert!(checks[0].poly.evaluate(&good).is_zero());
    assert!(checks[1].poly.evaluate(&good).is_zero());
    // (3, 2) is not on the curve: 4 - 27 - 5 = -28.
    assert_eq!(checks[2].poly.evaluate(&good), minus(28));
    let on_curve = row(minus(1), Fp::from_u64(2), Fp::from_u64(3));
    assert!(checks[2].poly.evaluate(&on_curve).is_zero());
    // x = -1 is not what the polynomial gives at k = 2: 3 - (-1) = 4.
    assert_eq!(checks[0].poly.evaluate(&on_curve), Fp::from_u64(4));
    let wrong_u = row(x, Fp::from_u64(2), Fp::from_u64(4));
    assert_eq!(checks[1].poly.evaluate(&wrong_u), Fp::from_u64(7));
    // With the selector off every polynomial vanishes.
    let mut off = row(x, Fp::from_u64(5), Fp::from_u64(4));
    off.selectors.clear();
    assert!(checks.iter().all(|c| c.poly.evaluate(&off).is_zero()));
}
