//! Exact decimal amounts of money.
//!
//! An [`Amount`] holds, as plain integers, the parts of a `fraction::Decimal`:
//! a sign, a numerator, a denominator and the number of fractional digits that
//! the decimal carries. The arithmetic itself is done by `fraction`.

use crate::models::arithmetic::{
    lcm, lemma_divides_higher_pow10, lemma_divisor_is_at_most, lemma_lcm_is_common_multiple,
    lemma_pow10_positive, least_common_multiple, pow10, ratio,
};
use fraction::{Decimal, Fraction, Sign};
use std::str::FromStr;
use vstd::arithmetic::div_mod::{
    lemma_div_multiples_vanish, lemma_fundamental_div_mod, lemma_mul_mod_noop_left,
};
use vstd::prelude::*;
use vstd::std_specs::cmp::PartialEqSpecImpl;

verus! {

/// The largest denominator an [`Amount`] may have: a tenth of `u64::MAX`, so
/// that a remainder times ten still fits in a `u64`.
pub const MAX_DENOMINATOR: u64 = 1_844_674_407_370_955_161;

/// A decimal number, held as `numer / denom` with a sign, together with the
/// count of fractional digits (`precision`) that it is compared and shown with.
#[derive(Clone, Copy, Debug)]
pub struct Amount {
    pub negative: bool,
    pub numer: u64,
    pub denom: u64,
    pub precision: u8,
}

impl PartialEq for Amount {
    /// Two amounts are equal where they stand for the same number, whatever
    /// their precisions.
    fn eq(&self, other: &Self) -> (equal: bool) {
        let na: u128 = self.numer as u128;
        let nb: u128 = other.numer as u128;
        let da: u128 = self.denom as u128;
        let db: u128 = other.denom as u128;
        assert(na * db <= 0xffff_ffff_ffff_ffff * 0xffff_ffff_ffff_ffff) by (nonlinear_arith)
            requires
                na <= 0xffff_ffff_ffff_ffff,
                db <= 0xffff_ffff_ffff_ffff,
        ;
        assert(nb * da <= 0xffff_ffff_ffff_ffff * 0xffff_ffff_ffff_ffff) by (nonlinear_arith)
            requires
                nb <= 0xffff_ffff_ffff_ffff,
                da <= 0xffff_ffff_ffff_ffff,
        ;
        let left: u128 = na * db;
        let right: u128 = nb * da;
        assert(self.signed_numer() * other.denom == if self.negative {
            -(left as int)
        } else {
            left as int
        }) by (nonlinear_arith)
            requires
                left == self.numer * other.denom,
                self.signed_numer() == if self.negative {
                    -(self.numer as int)
                } else {
                    self.numer as int
                },
        ;
        assert(other.signed_numer() * self.denom == if other.negative {
            -(right as int)
        } else {
            right as int
        }) by (nonlinear_arith)
            requires
                right == other.numer * self.denom,
                other.signed_numer() == if other.negative {
                    -(other.numer as int)
                } else {
                    other.numer as int
                },
        ;
        if left == 0 && right == 0 {
            true
        } else {
            self.negative == other.negative && left == right
        }
    }
}

impl PartialEqSpecImpl for Amount {
    open spec fn obeys_eq_spec() -> bool {
        true
    }

    open spec fn eq_spec(&self, other: &Self) -> bool {
        self.same_number(*other)
    }
}

impl Amount {
    /// The numerator with the sign of the amount.
    pub open spec fn signed_numer(self) -> int {
        if self.negative {
            -(self.numer as int)
        } else {
            self.numer as int
        }
    }

    /// What `==` means on amounts: the cross products of the signed
    /// numerators and the denominators agree.
    pub open spec fn same_number(self, other: Amount) -> bool {
        self.signed_numer() * other.denom == other.signed_numer() * self.denom
    }

    /// The number that the amount stands for.
    pub open spec fn value(self) -> real {
        if self.negative {
            -ratio(self.numer as nat, self.denom as nat)
        } else {
            ratio(self.numer as nat, self.denom as nat)
        }
    }

    /// A valid amount is a finite decimal whose digits all lie within its
    /// precision: the denominator is positive, at most [`MAX_DENOMINATOR`], and
    /// divides ten to the power `precision`.
    pub open spec fn wf(self) -> bool {
        &&& 0 < self.denom <= MAX_DENOMINATOR
        &&& pow10(self.precision as nat) % (self.denom as nat) == 0
    }

    /// The count of units of ten to the minus `precision` that fit in the
    /// magnitude of the amount: its digits, without sign or decimal point, up
    /// to the last one that the precision allows.
    pub open spec fn digits(self) -> nat {
        ((self.numer as nat * pow10(self.precision as nat)) / (self.denom as nat)) as nat
    }

    /// The amount with every digit beyond its precision cut off.
    pub open spec fn truncated(self) -> real {
        if self.negative {
            -ratio(self.digits(), pow10(self.precision as nat))
        } else {
            ratio(self.digits(), pow10(self.precision as nat))
        }
    }

    /// Cutting a valid amount off at its precision loses nothing.
    pub proof fn lemma_truncated_is_value(self)
        requires
            self.wf(),
        ensures
            self.truncated() == self.value(),
    {
        let n = self.numer as nat;
        let d = self.denom as nat;
        let t = pow10(self.precision as nat);
        let e = t / d;
        lemma_pow10_positive(self.precision as nat);
        assert(t == d * e) by {
            lemma_fundamental_div_mod(t as int, d as int);
        }
        assert(n * t == d * (n * e)) by (nonlinear_arith)
            requires
                t == d * e,
        ;
        assert((n * t) / d == n * e) by {
            lemma_div_multiples_vanish((n * e) as int, d as int);
        }
        let k = self.digits();
        assert(k == n * e);
        assert(ratio(k, t) == ratio(n, d)) by (nonlinear_arith)
            requires
                k == n * e,
                t == d * e,
                d > 0,
                t > 0,
        ;
    }

    /// Whether the two amounts can be added or subtracted within `u64`: the
    /// least common multiple of their denominators stays within
    /// [`MAX_DENOMINATOR`], and their numerators, brought to that common
    /// denominator, add up to at most `u64::MAX`.
    pub open spec fn combines_with(self, other: Amount) -> bool {
        let common = lcm(self.denom as nat, other.denom as nat);
        &&& self.denom > 0
        &&& other.denom > 0
        &&& common <= MAX_DENOMINATOR
        &&& self.numer * (common / (self.denom as nat)) + other.numer * (common / (
        other.denom as nat)) <= u64::MAX
    }

    /// Amounts with positive denominators are equal under `==` exactly where
    /// they stand for the same number.
    pub proof fn lemma_equal_is_same_value(self, other: Amount)
        requires
            self.denom > 0,
            other.denom > 0,
        ensures
            self.same_number(other) <==> self.value() == other.value(),
    {
        let na = self.numer as nat;
        let da = self.denom as nat;
        let nb = other.numer as nat;
        let db = other.denom as nat;
        assert(na * db == nb * da <==> ratio(na, da) == ratio(nb, db)) by (nonlinear_arith)
            requires
                da > 0,
                db > 0,
        ;
        assert((na * db == 0 && nb * da == 0) <==> (ratio(na, da) == 0real && ratio(nb, db)
            == 0real)) by (nonlinear_arith)
            requires
                da > 0,
                db > 0,
        ;
        assert(ratio(na, da) >= 0real && ratio(nb, db) >= 0real) by (nonlinear_arith)
            requires
                da > 0,
                db > 0,
        ;
        assert(self.signed_numer() * db == if self.negative {
            -(na * db)
        } else {
            (na * db) as int
        }) by (nonlinear_arith)
            requires
                self.signed_numer() == if self.negative {
                    -(na as int)
                } else {
                    na as int
                },
        ;
        assert(other.signed_numer() * da == if other.negative {
            -(nb * da)
        } else {
            (nb * da) as int
        }) by (nonlinear_arith)
            requires
                other.signed_numer() == if other.negative {
                    -(nb as int)
                } else {
                    nb as int
                },
        ;
    }

    /// Tests whether the amount is valid.
    pub fn is_valid(&self) -> (valid: bool)
        ensures
            valid == self.wf(),
    {
        if self.denom == 0 || self.denom > MAX_DENOMINATOR {
            return false;
        }
        let denom: u64 = self.denom;
        let mut left: u64 = 1 % denom;
        let mut done: u8 = 0;
        while done < self.precision
            invariant
                0 < denom <= MAX_DENOMINATOR,
                done <= self.precision,
                left == pow10(done as nat) % (denom as nat),
            decreases self.precision - done,
        {
            proof {
                lemma_mul_mod_noop_left(
                    pow10(done as nat) as int,
                    10,
                    denom as int,
                );
                assert(pow10((done + 1) as nat) == pow10(done as nat) * 10);
            }
            left = (left * 10) % denom;
            done = done + 1;
        }
        left == 0
    }

    /// The valid amount with the given parts, if there is one.
    pub fn new(negative: bool, numer: u64, denom: u64, precision: u8) -> (made: Option<Amount>)
        ensures
            made == Amount::checked(Amount { negative, numer, denom, precision }),
    {
        Amount::keep_valid(Amount { negative, numer, denom, precision })
    }

    /// A candidate amount, kept only where it is valid.
    pub open spec fn checked(candidate: Amount) -> Option<Amount> {
        if candidate.wf() {
            Some(candidate)
        } else {
            None
        }
    }

    /// Tests whether the two amounts can be added or subtracted.
    pub fn can_combine(&self, other: &Amount) -> (fits: bool)
        ensures
            fits == self.combines_with(*other),
    {
        if self.denom == 0 || other.denom == 0 {
            return false;
        }
        let common: u128 = least_common_multiple(self.denom, other.denom);
        if common > MAX_DENOMINATOR as u128 {
            return false;
        }
        let ma: u128 = common / self.denom as u128;
        let mb: u128 = common / other.denom as u128;
        let na: u128 = self.numer as u128;
        let nb: u128 = other.numer as u128;
        assert(na * ma <= 0xffff_ffff_ffff_ffff * 0x1fff_ffff_ffff_ffff) by (nonlinear_arith)
            requires
                na <= 0xffff_ffff_ffff_ffff,
                ma <= 0x1fff_ffff_ffff_ffff,
        ;
        assert(nb * mb <= 0xffff_ffff_ffff_ffff * 0x1fff_ffff_ffff_ffff) by (nonlinear_arith)
            requires
                nb <= 0xffff_ffff_ffff_ffff,
                mb <= 0x1fff_ffff_ffff_ffff,
        ;
        na * ma + nb * mb <= u64::MAX as u128
    }

    /// Reads an amount from decimal text, as `fraction` reads it; `None` where
    /// the text is no number or the number is no valid amount.
    pub fn parse(text: &str) -> (parsed: Option<Amount>)
        ensures
            parsed == Amount::of_text(text@),
    {
        match parse_decimal(text) {
            None => None,
            Some(candidate) => Amount::keep_valid(candidate),
        }
    }

    /// The amount that a text stands for: what `fraction` reads from it, where
    /// that is a valid amount.
    pub open spec fn of_text(text: Seq<char>) -> Option<Amount> {
        match decimal_of_text(text) {
            None => None,
            Some(candidate) => Amount::checked(candidate),
        }
    }

    /// Keeps a candidate amount where it is valid.
    pub fn keep_valid(candidate: Amount) -> (kept: Option<Amount>)
        ensures
            kept == Amount::checked(candidate),
    {
        if candidate.is_valid() {
            Some(candidate)
        } else {
            None
        }
    }

    /// The sum of two amounts, exact, at the larger of their precisions.
    pub fn plus(self, other: Amount) -> (sum: Amount)
        requires
            self.wf(),
            other.wf(),
            self.combines_with(other),
        ensures
            sum.wf(),
            sum.value() == self.value() + other.value(),
            sum.precision == max_precision(self.precision, other.precision),
    {
        let sum = decimal_sum(self, other);
        proof {
            lemma_combined_is_valid(self, other, sum);
        }
        sum
    }

    /// The difference of two amounts, exact, at the larger of their precisions.
    pub fn minus(self, other: Amount) -> (difference: Amount)
        requires
            self.wf(),
            other.wf(),
            self.combines_with(other),
        ensures
            difference.wf(),
            difference.value() == self.value() - other.value(),
            difference.precision == max_precision(self.precision, other.precision),
    {
        let difference = decimal_difference(self, other);
        proof {
            lemma_combined_is_valid(self, other, difference);
        }
        difference
    }

    /// Whether this amount is strictly greater than the other.
    pub fn exceeds(self, other: Amount) -> (greater: bool)
        requires
            self.wf(),
            other.wf(),
        ensures
            greater == (self.value() > other.value()),
    {
        proof {
            self.lemma_truncated_is_value();
            other.lemma_truncated_is_value();
        }
        decimal_exceeds(self, other)
    }

    /// The amount zero.
    pub fn zero() -> (zero: Amount)
        ensures
            zero.wf(),
            zero.value() == 0real,
            zero == (Amount { negative: false, numer: 0, denom: 1, precision: 0 }),
    {
        let zero = Amount { negative: false, numer: 0, denom: 1, precision: 0 };
        assert(ratio(0, 1) == 0real) by (nonlinear_arith);
        zero
    }
}

/// Whether `d` divides every number that both `a` and `b` divide, as the
/// denominator of a sum in lowest terms does with the denominators of the
/// terms.
pub open spec fn divides_common_multiples(d: u64, a: u64, b: u64) -> bool {
    forall|m: nat| m % (a as nat) == 0 && m % (b as nat) == 0 ==> #[trigger] (m % (d as nat)) == 0
}

/// An amount at the larger precision of two valid amounts, whose denominator
/// divides every common multiple of theirs, is valid.
proof fn lemma_combined_is_valid(a: Amount, b: Amount, c: Amount)
    requires
        a.wf(),
        b.wf(),
        lcm(a.denom as nat, b.denom as nat) <= MAX_DENOMINATOR,
        c.denom > 0,
        c.precision == max_precision(a.precision, b.precision),
        divides_common_multiples(c.denom, a.denom, b.denom),
    ensures
        c.wf(),
{
    let da = a.denom as nat;
    let db = b.denom as nat;
    let top = pow10(c.precision as nat);
    lemma_divides_higher_pow10(da, a.precision as nat, c.precision as nat);
    lemma_divides_higher_pow10(db, b.precision as nat, c.precision as nat);
    assert(top % (c.denom as nat) == 0);
    lemma_lcm_is_common_multiple(da, db);
    assert(lcm(da, db) % (c.denom as nat) == 0);
    lemma_divisor_is_at_most(lcm(da, db), c.denom as nat);
}

/// The parts of the decimal that `fraction` reads from a text, or `None` where
/// it reads none. What is not a number, or infinite, has the denominator zero.
pub uninterp spec fn decimal_of_text(text: Seq<char>) -> Option<Amount>;

/// Reads a decimal with `Decimal::from_str`.
///
/// Trusted: the result depends on the text alone. An error becomes `None`; the
/// parts of a decimal are read with `sign`, `numer`, `denom` and
/// `get_precision`, and zero stands for a numerator or denominator that a
/// decimal which is not finite does not have.
#[verifier::external_body]
#[allow(deprecated)]
fn parse_decimal(text: &str) -> (parsed: Option<Amount>)
    ensures
        parsed == decimal_of_text(text@),
{
    let decimal = Decimal::from_str(text).ok()?;
    let parts = decimal.apply_ref(|f, _| f.clone());
    Some(Amount {
        negative: parts.sign() == Some(Sign::Minus),
        numer: parts.numer().copied().unwrap_or(0),
        denom: parts.denom().copied().unwrap_or(0),
        precision: decimal.get_precision(),
    })
}

/// The larger of two precisions.
pub open spec fn max_precision(a: u8, b: u8) -> u8 {
    if a >= b {
        a
    } else {
        b
    }
}

/// Adds two decimals with `+=` of `fraction::Decimal`.
///
/// The operands are built from their parts with `Fraction::new` or `new_neg`,
/// which reduce them, and `Decimal::from_fraction_with_precision`; the parts
/// of the result are read back with `sign`, `numer`, `denom` and
/// `get_precision`. Trusted: where the operands are finite and
/// [`Amount::combines_with`] holds, no step leaves `u64`, the result is the
/// exact sum in lowest terms, so its denominator divides every common multiple
/// of the two denominators, and it carries the larger precision.
#[verifier::external_body]
#[allow(deprecated)]
fn decimal_sum(a: Amount, b: Amount) -> (sum: Amount)
    requires
        a.denom > 0,
        b.denom > 0,
        a.combines_with(b),
    ensures
        sum.value() == a.value() + b.value(),
        sum.precision == max_precision(a.precision, b.precision),
        sum.denom > 0,
        divides_common_multiples(sum.denom, a.denom, b.denom),
{
    let decimal = |x: Amount| {
        let signed: fn(u64, u64) -> Fraction =
            if x.negative { Fraction::new_neg } else { Fraction::new };
        Decimal::from_fraction_with_precision(signed(x.numer, x.denom), x.precision)
    };
    let mut total = decimal(a);
    total += decimal(b);
    let parts = total.apply_ref(|f, _| f.clone());
    Amount {
        negative: parts.sign() == Some(Sign::Minus),
        numer: parts.numer().copied().unwrap_or(0),
        denom: parts.denom().copied().unwrap_or(0),
        precision: total.get_precision(),
    }
}

/// Subtracts one decimal from another with `-=` of `fraction::Decimal`.
///
/// The operands are built and the result is read as in [`decimal_sum`].
/// Trusted: where the operands are finite and [`Amount::combines_with`] holds,
/// no step leaves `u64`, the result is the exact difference in lowest terms, so
/// its denominator divides every common multiple of the two denominators, and
/// it carries the larger precision.
#[verifier::external_body]
#[allow(deprecated)]
fn decimal_difference(a: Amount, b: Amount) -> (difference: Amount)
    requires
        a.denom > 0,
        b.denom > 0,
        a.combines_with(b),
    ensures
        difference.value() == a.value() - b.value(),
        difference.precision == max_precision(a.precision, b.precision),
        difference.denom > 0,
        divides_common_multiples(difference.denom, a.denom, b.denom),
{
    let decimal = |x: Amount| {
        let signed: fn(u64, u64) -> Fraction =
            if x.negative { Fraction::new_neg } else { Fraction::new };
        Decimal::from_fraction_with_precision(signed(x.numer, x.denom), x.precision)
    };
    let mut rest = decimal(a);
    rest -= decimal(b);
    let parts = rest.apply_ref(|f, _| f.clone());
    Amount {
        negative: parts.sign() == Some(Sign::Minus),
        numer: parts.numer().copied().unwrap_or(0),
        denom: parts.denom().copied().unwrap_or(0),
        precision: rest.get_precision(),
    }
}

/// Compares two decimals with `>` of `fraction::Decimal`.
///
/// Trusted: `fraction` compares two finite decimals by their digits, each cut
/// off after its own precision and the shorter one padded with zeros, and
/// takes a cut-off negative zero for zero. With denominators of at most
/// [`MAX_DENOMINATOR`] the long division that yields the digits stays within
/// `u64`.
#[verifier::external_body]
fn decimal_exceeds(a: Amount, b: Amount) -> (greater: bool)
    requires
        0 < a.denom <= MAX_DENOMINATOR,
        0 < b.denom <= MAX_DENOMINATOR,
    ensures
        greater == (a.truncated() > b.truncated()),
{
    let decimal = |x: Amount| {
        let signed: fn(u64, u64) -> Fraction =
            if x.negative { Fraction::new_neg } else { Fraction::new };
        Decimal::from_fraction_with_precision(signed(x.numer, x.denom), x.precision)
    };
    decimal(a) > decimal(b)
}

} // verus!
