//! The polynomial identities that gates enforce on the rows of a circuit,
//! as plain expression trees, and their values on a row.

use crate::circuit::{Column, Selector};
use crate::field::{base_modulus, Fp};
use vstd::prelude::*;

verus! {

/// A polynomial over the cells of one row.
#[derive(Debug)]
pub enum Expression {
    /// A constant.
    Constant(Fp),
    /// One on the rows where the selector is on, zero elsewhere.
    Selector(Selector),
    /// The cell of a fixed column in the row.
    Fixed(Column),
    /// The cell of an advice column in the row.
    Advice(Column),
    /// The negation of a polynomial.
    Negated(Box<Expression>),
    /// The sum of two polynomials.
    Sum(Box<Expression>, Box<Expression>),
    /// The product of two polynomials.
    Product(Box<Expression>, Box<Expression>),
}

/// The cells of one row: the selectors that are on, and the values of the
/// fixed and the advice cells. A cell that is not listed holds zero.
#[derive(Debug)]
pub struct Row {
    pub selectors: Vec<Selector>,
    pub fixed: Vec<(Column, Fp)>,
    pub advice: Vec<(Column, Fp)>,
}

/// The value listed first for `column`, or zero.
pub open spec fn lookup(entries: Seq<(Column, Fp)>, column: Column) -> Fp
    decreases entries.len(),
{
    if entries.len() == 0 {
        Fp::spec_from_u64(0)
    } else if entries[0].0 == column {
        entries[0].1
    } else {
        lookup(entries.drop_first(), column)
    }
}

impl Row {
    /// Every value in the row is a canonical field element.
    pub open spec fn wf(self) -> bool {
        &&& forall|i: int| 0 <= i < self.fixed@.len() ==> (#[trigger] self.fixed@[i]).1.wf()
        &&& forall|i: int| 0 <= i < self.advice@.len() ==> (#[trigger] self.advice@[i]).1.wf()
    }

    /// Whether `selector` is on in the row.
    pub open spec fn enabled(self, selector: Selector) -> bool {
        self.selectors@.contains(selector)
    }

    /// The value of the fixed cell of `column`.
    pub open spec fn fixed_value(self, column: Column) -> Fp {
        lookup(self.fixed@, column)
    }

    /// The value of the advice cell of `column`.
    pub open spec fn advice_value(self, column: Column) -> Fp {
        lookup(self.advice@, column)
    }

    /// Whether `selector` is on in the row.
    pub fn is_enabled(&self, selector: Selector) -> (r: bool)
        ensures
            r == self.enabled(selector),
    {
        let mut i: usize = 0;
        while i < self.selectors.len()
            invariant
                i <= self.selectors@.len(),
                forall|j: int| 0 <= j < i ==> self.selectors@[j] != selector,
            decreases self.selectors@.len() - i,
        {
            if self.selectors[i] == selector {
                return true;
            }
            i = i + 1;
        }
        false
    }

    /// The value listed first for `column` among `entries`, or zero.
    pub fn find(entries: &Vec<(Column, Fp)>, column: Column) -> (r: Fp)
        ensures
            r == lookup(entries@, column),
    {
        let mut i: usize = 0;
        assert(entries@.skip(0) =~= entries@);
        while i < entries.len()
            invariant
                i <= entries@.len(),
                lookup(entries@, column) == lookup(entries@.skip(i as int), column),
            decreases entries@.len() - i,
        {
            let ghost rest = entries@.skip(i as int);
            proof {
                assert(rest[0] == entries@[i as int]);
                assert(rest.drop_first() =~= entries@.skip(i + 1));
            }
            if entries[i].0 == column {
                return entries[i].1;
            }
            i = i + 1;
        }
        proof {
            assert(entries@.skip(i as int).len() == 0);
        }
        Fp::from_u64(0)
    }
}

/// The lookup of a column in canonical entries is canonical.
pub proof fn lemma_lookup_wf(entries: Seq<(Column, Fp)>, column: Column)
    requires
        forall|i: int| 0 <= i < entries.len() ==> (#[trigger] entries[i]).1.wf(),
    ensures
        lookup(entries, column).wf(),
    decreases entries.len(),
{
    broadcast use Fp::lemma_from_u64;

    if entries.len() > 0 && entries[0].0 != column {
        let rest = entries.drop_first();
        assert forall|i: int| 0 <= i < rest.len() implies (#[trigger] rest[i]).1.wf() by {
            assert(rest[i] == entries[i + 1]);
        }
        lemma_lookup_wf(rest, column);
    }
}

impl Expression {
    /// Every constant in the polynomial is a canonical field element.
    pub open spec fn wf(self) -> bool
        decreases self,
    {
        match self {
            Expression::Constant(c) => c.wf(),
            Expression::Negated(a) => a.wf(),
            Expression::Sum(a, b) => a.wf() && b.wf(),
            Expression::Product(a, b) => a.wf() && b.wf(),
            _ => true,
        }
    }

    /// The value of the polynomial on a row, as an integer below `p`.
    pub open spec fn eval(self, row: Row) -> nat
        decreases self,
    {
        match self {
            Expression::Constant(c) => c.value(),
            Expression::Selector(s) => if row.enabled(s) {
                1
            } else {
                0
            },
            Expression::Fixed(c) => row.fixed_value(c).value(),
            Expression::Advice(c) => row.advice_value(c).value(),
            Expression::Negated(a) => ((base_modulus() - a.eval(row)) % (base_modulus() as int)) as nat,
            Expression::Sum(a, b) => (a.eval(row) + b.eval(row)) % base_modulus(),
            Expression::Product(a, b) => (a.eval(row) * b.eval(row)) % base_modulus(),
        }
    }

    /// Whether the polynomial is zero on a row, decided factor by factor: a
    /// product is zero where one of its factors is.
    pub open spec fn vanishes(self, row: Row) -> bool
        decreases self,
    {
        match self {
            Expression::Negated(a) => a.vanishes(row),
            Expression::Product(a, b) => a.vanishes(row) || b.vanishes(row),
            _ => self.eval(row) == 0,
        }
    }

    /// A copy of the polynomial.
    pub fn duplicate(&self) -> (r: Expression)
        ensures
            r == *self,
        decreases self,
    {
        match self {
            Expression::Constant(c) => Expression::Constant(*c),
            Expression::Selector(s) => Expression::Selector(*s),
            Expression::Fixed(c) => Expression::Fixed(*c),
            Expression::Advice(c) => Expression::Advice(*c),
            Expression::Negated(a) => Expression::Negated(Box::new(a.duplicate())),
            Expression::Sum(a, b) => Expression::Sum(
                Box::new(a.duplicate()),
                Box::new(b.duplicate()),
            ),
            Expression::Product(a, b) => Expression::Product(
                Box::new(a.duplicate()),
                Box::new(b.duplicate()),
            ),
        }
    }

    /// `self + rhs`.
    pub fn plus(self, rhs: Expression) -> (r: Expression)
        ensures
            r == Expression::Sum(Box::new(self), Box::new(rhs)),
            r.wf() == (self.wf() && rhs.wf()),
    {
        Expression::Sum(Box::new(self), Box::new(rhs))
    }

    /// `self - rhs`, the sum of `self` and the negation of `rhs`.
    pub fn minus(self, rhs: Expression) -> (r: Expression)
        ensures
            r == self.spec_minus(rhs),
            r.wf() == (self.wf() && rhs.wf()),
    {
        proof {
            reveal_with_fuel(Expression::wf, 3);
        }
        Expression::Sum(Box::new(self), Box::new(Expression::Negated(Box::new(rhs))))
    }

    /// `self - rhs` as a polynomial.
    pub open spec fn spec_minus(self, rhs: Expression) -> Expression {
        Expression::Sum(Box::new(self), Box::new(Expression::Negated(Box::new(rhs))))
    }

    /// `self * rhs`.
    pub fn times(self, rhs: Expression) -> (r: Expression)
        ensures
            r == Expression::Product(Box::new(self), Box::new(rhs)),
            r.wf() == (self.wf() && rhs.wf()),
    {
        Expression::Product(Box::new(self), Box::new(rhs))
    }

    /// `self * self`.
    pub fn square(self) -> (r: Expression)
        ensures
            r == Expression::Product(Box::new(self), Box::new(self)),
            r.wf() == self.wf(),
    {
        let copy = self.duplicate();
        Expression::Product(Box::new(self), Box::new(copy))
    }

    /// The value of the polynomial on a row. It is zero exactly where the
    /// polynomial vanishes.
    pub fn evaluate(&self, row: &Row) -> (r: Fp)
        requires
            self.wf(),
            row.wf(),
        ensures
            r.wf(),
            r.value() == self.eval(*row),
            (r.value() == 0) == self.vanishes(*row),
        decreases self,
    {
        match self {
            Expression::Constant(c) => *c,
            Expression::Selector(s) => {
                if row.is_enabled(*s) {
                    Fp::from_u64(1)
                } else {
                    Fp::from_u64(0)
                }
            },
            Expression::Fixed(c) => {
                proof {
                    lemma_lookup_wf(row.fixed@, *c);
                }
                Row::find(&row.fixed, *c)
            },
            Expression::Advice(c) => {
                proof {
                    lemma_lookup_wf(row.advice@, *c);
                }
                Row::find(&row.advice, *c)
            },
            Expression::Negated(a) => {
                let v = a.evaluate(row);
                Fp::zero().sub(&v)
            },
            Expression::Sum(a, b) => {
                let x = a.evaluate(row);
                let y = b.evaluate(row);
                x.add(&y)
            },
            Expression::Product(a, b) => {
                let x = a.evaluate(row);
                let y = b.evaluate(row);
                x.mul(&y)
            },
        }
    }
}

/// One named polynomial of a gate, which must be zero on every row.
#[derive(Debug)]
pub struct Constraint {
    pub name: &'static str,
    pub poly: Expression,
}

/// A gate: the named polynomials that must be zero on every row.
#[derive(Debug)]
pub struct Gate {
    pub name: &'static str,
    pub constraints: Vec<Constraint>,
}

/// The gates of a circuit, in the order of their creation.
#[derive(Debug)]
pub struct ConstraintSystem {
    pub gates: Vec<Gate>,
}

impl ConstraintSystem {
    /// A constraint system without gates.
    pub fn new() -> (r: ConstraintSystem)
        ensures
            r.gates@ == Seq::<Gate>::empty(),
    {
        ConstraintSystem { gates: Vec::new() }
    }

    /// Adds a gate with the given name and polynomials.
    pub fn create_gate(&mut self, name: &'static str, constraints: Vec<Constraint>)
        ensures
            final(self).gates@ == old(self).gates@.push(Gate { name, constraints }),
    {
        self.gates.push(Gate { name, constraints });
    }
}

} // verus!
