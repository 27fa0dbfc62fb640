//! Splitting a number into 3-bit windows, and the polynomial that keeps a
//! cell within a small range.

use crate::circuit::Column;
use crate::constraints::{lemma_lookup_wf, Expression, Row};
use crate::field::{base_modulus, limbs_value, Fp};
use vstd::prelude::*;

verus! {

/// `8^i`, the weight of window `i`.
pub open spec fn pow8(i: nat) -> nat
    decreases i,
{
    if i == 0 {
        1
    } else {
        8 * pow8((i - 1) as nat)
    }
}

/// The number that a sequence of windows spells, least significant first:
/// the sum of `windows[i] * 8^i`.
pub open spec fn windows_value(windows: Seq<u8>) -> nat
    decreases windows.len(),
{
    if windows.len() == 0 {
        0
    } else {
        windows_value(windows.drop_last()) + (windows.last() as nat) * pow8(
            (windows.len() - 1) as nat,
        )
    }
}

/// Window `i` of the number `v`: its base-8 digit of weight `8^i`.
pub open spec fn window_of(v: nat, i: nat) -> nat {
    (v / pow8(i)) % 8
}

/// Every window is a 3-bit value.
pub open spec fn windows_in_range(windows: Seq<u8>) -> bool {
    forall|i: int| 0 <= i < windows.len() ==> #[trigger] windows[i] < 8
}

pub proof fn lemma_pow8_positive(i: nat)
    ensures
        pow8(i) > 0,
    decreases i,
{
    if i > 0 {
        lemma_pow8_positive((i - 1) as nat);
    }
}

/// `8^(i + j) = 8^i * 8^j`.
pub proof fn lemma_pow8_adds(i: nat, j: nat)
    ensures
        pow8(i + j) == pow8(i) * pow8(j),
    decreases j,
{
    if j == 0 {
        assert(pow8(i) * 1 == pow8(i));
    } else {
        lemma_pow8_adds(i, (j - 1) as nat);
        assert(pow8(i + j) == 8 * pow8((i + j - 1) as nat));
        assert(8 * (pow8(i) * pow8((j - 1) as nat)) == pow8(i) * (8 * pow8((j - 1) as nat)))
            by (nonlinear_arith);
    }
}

/// `8^i <= 8^j` for `i <= j`.
pub proof fn lemma_pow8_monotonic(i: nat, j: nat)
    requires
        i <= j,
    ensures
        pow8(i) <= pow8(j),
    decreases j,
{
    if i < j {
        lemma_pow8_monotonic(i, (j - 1) as nat);
    }
}

/// The powers of eight that bound the scalars of the curve.
pub proof fn lemma_pow8_values()
    ensures
        pow8(1) == 8,
        pow8(2) == 0x40,
        pow8(4) == 0x1000,
        pow8(8) == 0x100_0000,
        pow8(16) == 0x1_0000_0000_0000,
        pow8(21) == 0x8000_0000_0000_0000,
        pow8(22) == 0x4_0000_0000_0000_0000nat,
        pow8(32) == 0x1_0000_0000_0000_0000_0000_0000nat,
        pow8(64) == 0x1_0000_0000_0000_0000_0000_0000_0000_0000_0000_0000_0000_0000nat,
        pow8(84) == 0x1000_0000_0000_0000_0000_0000_0000_0000_0000_0000_0000_0000_0000_0000_0000_0000nat,
        pow8(85) == 0x8000_0000_0000_0000_0000_0000_0000_0000_0000_0000_0000_0000_0000_0000_0000_0000nat,
{
    assert(pow8(1) == 8) by {
        reveal_with_fuel(pow8, 2);
    }
    lemma_pow8_product(1, 1, 8, 8);
    lemma_pow8_product(2, 2, 0x40, 0x40);
    lemma_pow8_product(4, 4, 0x1000, 0x1000);
    lemma_pow8_product(8, 8, 0x100_0000, 0x100_0000);
    lemma_pow8_product(16, 4, 0x1_0000_0000_0000, 0x1000);
    lemma_pow8_product(20, 1, 0x1000_0000_0000_0000, 8);
    lemma_pow8_product(21, 1, 0x8000_0000_0000_0000, 8);
    lemma_pow8_product(16, 16, 0x1_0000_0000_0000, 0x1_0000_0000_0000);
    lemma_pow8_product(32, 32, 0x1_0000_0000_0000_0000_0000_0000nat, 0x1_0000_0000_0000_0000_0000_0000nat);
    lemma_pow8_product(
        64,
        16,
        0x1_0000_0000_0000_0000_0000_0000_0000_0000_0000_0000_0000_0000nat,
        0x1_0000_0000_0000,
    );
    lemma_pow8_product(
        80,
        4,
        0x1_0000_0000_0000_0000_0000_0000_0000_0000_0000_0000_0000_0000_0000_0000_0000nat,
        0x1000,
    );
    lemma_pow8_product(
        84,
        1,
        0x1000_0000_0000_0000_0000_0000_0000_0000_0000_0000_0000_0000_0000_0000_0000_0000nat,
        8,
    );
}

/// `8^(i + j)` from the values of `8^i` and `8^j`.
proof fn lemma_pow8_product(i: nat, j: nat, a: nat, b: nat)
    requires
        pow8(i) == a,
        pow8(j) == b,
    ensures
        pow8(i + j) == a * b,
{
    lemma_pow8_adds(i, j);
}

/// Windows in range spell a number below `8^len`.
pub proof fn lemma_windows_value_bound(windows: Seq<u8>)
    requires
        windows_in_range(windows),
    ensures
        windows_value(windows) < pow8(windows.len()),
    decreases windows.len(),
{
    if windows.len() > 0 {
        let init = windows.drop_last();
        assert forall|i: int| 0 <= i < init.len() implies #[trigger] init[i] < 8 by {
            assert(init[i] == windows[i]);
        }
        lemma_windows_value_bound(init);
        let w = pow8(init.len());
        let k = windows.last() as nat;
        assert(windows[windows.len() - 1] < 8);
        assert(k * w <= 7 * w) by (nonlinear_arith)
            requires
                k <= 7,
        ;
    }
}

/// The value of a sequence of windows extended by one more window.
pub proof fn lemma_windows_value_push(windows: Seq<u8>, k: u8)
    ensures
        windows_value(windows.push(k)) == windows_value(windows) + (k as nat) * pow8(
            windows.len(),
        ),
{
    assert(windows.push(k).drop_last() =~= windows);
}

/// Two sequences of as many windows, all in range, that spell the same
/// number are the same sequence.
pub proof fn lemma_windows_unique(a: Seq<u8>, b: Seq<u8>)
    requires
        a.len() == b.len(),
        windows_in_range(a),
        windows_in_range(b),
        windows_value(a) == windows_value(b),
    ensures
        a == b,
    decreases a.len(),
{
    if a.len() > 0 {
        let ia = a.drop_last();
        let ib = b.drop_last();
        assert forall|i: int| 0 <= i < ia.len() implies #[trigger] ia[i] < 8 by {
            assert(ia[i] == a[i]);
        }
        assert forall|i: int| 0 <= i < ib.len() implies #[trigger] ib[i] < 8 by {
            assert(ib[i] == b[i]);
        }
        lemma_windows_value_bound(ia);
        lemma_windows_value_bound(ib);
        let w = pow8(ia.len()) as int;
        let ka = a.last() as int;
        let kb = b.last() as int;
        let va = windows_value(ia) as int;
        let vb = windows_value(ib) as int;
        assert(ka == kb && va == vb) by (nonlinear_arith)
            requires
                0 <= va < w,
                0 <= vb < w,
                0 <= ka,
                0 <= kb,
                va + ka * w == vb + kb * w,
        ;
        lemma_windows_unique(ia, ib);
        assert(a =~= ia.push(a.last()));
        assert(b =~= ib.push(b.last()));
    } else {
        assert(a =~= b);
    }
}

/// The windows of a number, taken digit by digit, are in range and spell
/// the number modulo `8^n`.
pub proof fn lemma_windows_of(v: nat, windows: Seq<u8>)
    requires
        forall|i: int| 0 <= i < windows.len() ==> #[trigger] windows[i] == window_of(v, i as nat),
    ensures
        windows_in_range(windows),
        windows_value(windows) == v % pow8(windows.len()),
    decreases windows.len(),
{
    if windows.len() == 0 {
        assert(pow8(0) == 1);
    } else {
        let init = windows.drop_last();
        let n = (windows.len() - 1) as nat;
        assert forall|i: int| 0 <= i < init.len() implies #[trigger] init[i] == window_of(
            v,
            i as nat,
        ) by {
            assert(init[i] == windows[i]);
        }
        lemma_windows_of(v, init);
        lemma_pow8_positive(n);
        assert(windows.last() == windows[windows.len() - 1]);
        assert(windows.last() == window_of(v, n));
        assert(pow8(n + 1) == 8 * pow8(n));
        vstd::arithmetic::div_mod::lemma_breakdown(v as int, pow8(n) as int, 8);
        assert(pow8(n) * 8 == 8 * pow8(n));
        assert(pow8(n) * ((v / pow8(n)) % 8) == ((v / pow8(n)) % 8) * pow8(n)) by (nonlinear_arith);
        assert forall|i: int| 0 <= i < windows.len() implies #[trigger] windows[i] < 8 by {
            assert(windows[i] == window_of(v, i as nat));
        }
    }
}

/// Splits the number spelt by four little-endian 64-bit limbs into
/// `num_windows` windows of three bits, least significant window first.
///
/// The windows spell the number modulo `8^num_windows`: all of it when it
/// is below that power.
pub fn decompose_word(limbs: [u64; 4], num_windows: usize) -> (windows: Vec<u8>)
    ensures
        windows@.len() == num_windows,
        windows_in_range(windows@),
        forall|i: int|
            0 <= i < num_windows ==> #[trigger] windows@[i] == window_of(
                limbs_value(limbs[0], limbs[1], limbs[2], limbs[3]),
                i as nat,
            ),
        windows_value(windows@) == limbs_value(limbs[0], limbs[1], limbs[2], limbs[3]) % pow8(
            num_windows as nat,
        ),
{
    let ghost word = limbs_value(limbs[0], limbs[1], limbs[2], limbs[3]);
    let mut c0: u64 = limbs[0];
    let mut c1: u64 = limbs[1];
    let mut c2: u64 = limbs[2];
    let mut c3: u64 = limbs[3];
    let mut windows: Vec<u8> = Vec::new();
    let mut i: usize = 0;
    assert(pow8(0) == 1);
    assert(word / 1 == word);
    while i < num_windows
        invariant
            i <= num_windows,
            windows@.len() == i,
            windows_in_range(windows@),
            word == limbs_value(limbs[0], limbs[1], limbs[2], limbs[3]),
            word == windows_value(windows@) + pow8(i as nat) * limbs_value(c0, c1, c2, c3),
            limbs_value(c0, c1, c2, c3) == word / pow8(i as nat),
            forall|j: int| 0 <= j < i ==> #[trigger] windows@[j] == window_of(word, j as nat),
        decreases num_windows - i,
    {
        let k: u8 = (c0 % 8) as u8;
        let ghost rest = limbs_value(c0, c1, c2, c3);
        let ghost before = windows@;
        let n0: u64 = c0 / 8 + (c1 % 8) * 0x2000_0000_0000_0000;
        let n1: u64 = c1 / 8 + (c2 % 8) * 0x2000_0000_0000_0000;
        let n2: u64 = c2 / 8 + (c3 % 8) * 0x2000_0000_0000_0000;
        let n3: u64 = c3 / 8;
        windows.push(k);
        proof {
            assert(rest == 8 * limbs_value(n0, n1, n2, n3) + k);
            lemma_windows_value_push(before, k);
            let w = pow8(i as nat);
            let next = limbs_value(n0, n1, n2, n3);
            assert(pow8((i + 1) as nat) == 8 * w);
            assert(w * (8 * next + k) == (k as nat) * w + (8 * w) * next) by (nonlinear_arith);
            assert forall|j: int| 0 <= j < windows@.len() implies #[trigger] windows@[j] < 8 by {
                if j < before.len() {
                    assert(windows@[j] == before[j]);
                }
            }
            lemma_pow8_positive(i as nat);
            vstd::arithmetic::div_mod::lemma_div_denominator(word as int, w as int, 8);
            assert(w * 8 == pow8((i + 1) as nat));
            assert(next == rest / 8);
            assert(k == rest % 8);
            assert forall|j: int| 0 <= j < i + 1 implies #[trigger] windows@[j] == window_of(
                word,
                j as nat,
            ) by {
                if j < i {
                    assert(windows@[j] == before[j]);
                }
            }
        }
        c0 = n0;
        c1 = n1;
        c2 = n2;
        c3 = n3;
        i = i + 1;
    }
    proof {
        lemma_windows_value_bound(windows@);
        lemma_pow8_positive(num_windows as nat);
        let w = pow8(num_windows as nat) as int;
        let rest = limbs_value(c0, c1, c2, c3) as int;
        assert(rest * w == w * rest) by (nonlinear_arith);
        vstd::arithmetic::div_mod::lemma_fundamental_div_mod_converse(
            word as int,
            w,
            rest,
            windows_value(windows@) as int,
        );
    }
    windows
}

/// The polynomial `word * (word - 1) * ... * (word - (range - 1))`, which
/// keeps `word` within `[0, range)`.
pub open spec fn range_expr(word: Expression, range: nat) -> Expression
    decreases range,
{
    if range <= 1 {
        word
    } else {
        Expression::Product(
            Box::new(range_expr(word, (range - 1) as nat)),
            Box::new(word.spec_minus(Expression::Constant(Fp::spec_from_u64((range - 1) as u64)))),
        )
    }
}

/// The polynomial that is zero exactly where `word` is within `[0, range)`:
/// the product of `word - i` over the `i` of that range.
pub fn range_check(word: Expression, range: usize) -> (r: Expression)
    requires
        word.wf(),
    ensures
        r.wf(),
        r == range_expr(word, range as nat),
{
    broadcast use Fp::lemma_from_u64;

    let mut acc = word.duplicate();
    let mut i: usize = 1;
    while i < range
        invariant
            1 <= i,
            i <= range || (range == 0 && i == 1),
            word.wf(),
            acc.wf(),
            acc == range_expr(word, i as nat),
        decreases range - i,
    {
        let factor = word.duplicate().minus(Expression::Constant(Fp::from_u64(i as u64)));
        proof {
            reveal_with_fuel(Expression::wf, 4);
            assert(factor.wf());
        }
        acc = acc.times(factor);
        i = i + 1;
    }
    proof {
        if range == 0 {
            assert(range_expr(word, 0) == word);
            assert(range_expr(word, 1) == word);
        }
    }
    acc
}

/// The range polynomial of a cell vanishes on a row exactly when the cell
/// holds a value within `[0, range)`.
pub proof fn lemma_range_check(column: Column, range: nat, row: Row)
    requires
        row.wf(),
        1 <= range <= usize::MAX,
    ensures
        range_expr(Expression::Advice(column), range).vanishes(row) <==> row.advice_value(
            column,
        ).value() < range,
    decreases range,
{
    broadcast use Fp::lemma_from_u64;

    let word = Expression::Advice(column);
    let w = row.advice_value(column).value() as int;
    lemma_lookup_wf(row.advice@, column);
    row.advice_value(column).lemma_canonical();
    if range > 1 {
        lemma_range_check(column, (range - 1) as nat, row);
        let k = (range - 1) as int;
        let p = base_modulus() as int;
        let constant = Expression::Constant(Fp::spec_from_u64(k as u64));
        let factor = word.spec_minus(constant);
        reveal_with_fuel(Expression::eval, 4);
        reveal_with_fuel(Expression::vanishes, 2);
        assert(constant.eval(row) == k);
        vstd::arithmetic::div_mod::lemma_small_mod((p - k) as nat, p as nat);
        assert(Expression::Negated(Box::new(constant)).eval(row) == p - k);
        assert(factor.eval(row) == (w + (p - k)) % p);
        if w >= k {
            vstd::arithmetic::div_mod::lemma_fundamental_div_mod_converse(w + (p - k), p, 1, w - k);
        } else {
            vstd::arithmetic::div_mod::lemma_fundamental_div_mod_converse(
                w + (p - k),
                p,
                0,
                w + p - k,
            );
        }
        assert(factor.vanishes(row) == (w == k));
    }
}

} // verus!
