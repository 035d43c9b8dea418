//! Currency amounts and their textual form.

use std::cmp::Ordering;
use std::ops::{Add, Div, Mul, Neg, Rem, Sub};
use crate::text::{append_signed_decimal, append_three_digits, signed_decimal, three_digits};
use vstd::prelude::*;
use vstd::string::StringExecFns;
use vstd::std_specs::cmp::PartialOrdSpecImpl;
use vstd::std_specs::convert::FromSpecImpl;
use vstd::std_specs::ops::{AddSpecImpl, DivSpecImpl, MulSpecImpl, NegSpecImpl, RemSpecImpl, SubSpecImpl};

verus! {

/// An amount of currency, counted in whole minor units.
///
/// Nothing clamps an amount: it may be negative, and whoever holds one decides
/// whether a negative amount is legal.
#[derive(Debug, Clone, Copy, PartialEq, Eq, Structural, Hash, Ord)]
pub struct Money(pub i64);

impl View for Money {
    type V = int;

    open spec fn view(&self) -> int {
        self.0 as int
    }
}

/// Whether `v` can be held in an amount.
pub open spec fn fits(v: int) -> bool {
    i64::MIN <= v <= i64::MAX
}

/// The quotient of `a` by `b`, rounded toward zero.
pub open spec fn div_toward_zero(a: int, b: int) -> int {
    if a >= 0 {
        a / b
    } else {
        -((-a) / b)
    }
}

/// The remainder that goes with `div_toward_zero`. It has the sign of `a`.
pub open spec fn rem_toward_zero(a: int, b: int) -> int {
    if a >= 0 {
        a % b
    } else {
        -((-a) % b)
    }
}

impl Money {
    pub fn new(value: i64) -> (m: Self)
        ensures
            m@ == value,
    {
        Money(value)
    }

    /// The number of minor units.
    pub fn value(&self) -> (v: i64)
        ensures
            v == self@,
    {
        self.0
    }

    pub fn is_negative(&self) -> (b: bool)
        ensures
            b == (self@ < 0),
    {
        self.0 < 0
    }

    pub fn is_positive(&self) -> (b: bool)
        ensures
            b == (self@ > 0),
    {
        self.0 > 0
    }
}

/// How an amount is written: the thousands, a comma and three digits where
/// the magnitude reaches 1000, the plain number below that. The sign stands
/// before the thousands; the three digits carry none.
pub open spec fn money_text(v: int) -> Seq<char> {
    if v >= 1000 || v <= -1000 {
        let remainder = rem_toward_zero(v, 1000);
        signed_decimal(div_toward_zero(v, 1000)) + seq![','] + three_digits(
            (if remainder < 0 {
                -remainder
            } else {
                remainder
            }) as nat,
        )
    } else {
        signed_decimal(v)
    }
}

impl Money {
    /// The amount as text, with its thousands set apart.
    pub fn to_string(&self) -> (text: String)
        ensures
            text@ == money_text(self@),
    {
        let mut text = String::new();
        let v = self.0;
        if v >= 1000 || v <= -1000 {
            let remainder = v % 1000;
            append_signed_decimal(&mut text, v / 1000);
            proof {
                reveal_strlit(",");
            }
            text.append(",");
            if remainder < 0 {
                append_three_digits(&mut text, (-remainder) as u64);
            } else {
                append_three_digits(&mut text, remainder as u64);
            }
        } else {
            append_signed_decimal(&mut text, v);
        }
        text
    }
}

impl Default for Money {
    fn default() -> (m: Self)
        ensures
            m@ == 0,
    {
        Money(0)
    }
}

impl FromSpecImpl<i64> for Money {
    open spec fn obeys_from_spec() -> bool {
        true
    }

    open spec fn from_spec(value: i64) -> Self {
        Money(value)
    }
}

impl From<i64> for Money {
    fn from(value: i64) -> (m: Self) {
        Money(value)
    }
}

impl PartialOrdSpecImpl for Money {
    open spec fn obeys_partial_cmp_spec() -> bool {
        true
    }

    open spec fn partial_cmp_spec(&self, other: &Money) -> Option<Ordering> {
        if self.0 < other.0 {
            Some(Ordering::Less)
        } else if self.0 > other.0 {
            Some(Ordering::Greater)
        } else {
            Some(Ordering::Equal)
        }
    }
}

impl PartialOrd for Money {
    fn partial_cmp(&self, other: &Money) -> (r: Option<Ordering>) {
        if self.0 < other.0 {
            Some(Ordering::Less)
        } else if self.0 > other.0 {
            Some(Ordering::Greater)
        } else {
            Some(Ordering::Equal)
        }
    }
}

impl AddSpecImpl for Money {
    open spec fn obeys_add_spec() -> bool {
        true
    }

    open spec fn add_req(self, rhs: Money) -> bool {
        fits(self@ + rhs@)
    }

    open spec fn add_spec(self, rhs: Money) -> Money {
        Money((self.0 + rhs.0) as i64)
    }
}

impl Add for Money {
    type Output = Money;

    fn add(self, rhs: Money) -> (sum: Money) {
        Money(self.0 + rhs.0)
    }
}

impl SubSpecImpl for Money {
    open spec fn obeys_sub_spec() -> bool {
        true
    }

    open spec fn sub_req(self, rhs: Money) -> bool {
        fits(self@ - rhs@)
    }

    open spec fn sub_spec(self, rhs: Money) -> Money {
        Money((self.0 - rhs.0) as i64)
    }
}

impl Sub for Money {
    type Output = Money;

    fn sub(self, rhs: Money) -> (difference: Money) {
        Money(self.0 - rhs.0)
    }
}

impl NegSpecImpl for Money {
    open spec fn obeys_neg_spec() -> bool {
        true
    }

    open spec fn neg_req(self) -> bool {
        self@ != i64::MIN
    }

    open spec fn neg_spec(self) -> Money {
        Money((-self.0) as i64)
    }
}

impl Neg for Money {
    type Output = Money;

    fn neg(self) -> (negated: Money) {
        Money(-self.0)
    }
}

impl MulSpecImpl<i64> for Money {
    open spec fn obeys_mul_spec() -> bool {
        true
    }

    open spec fn mul_req(self, rhs: i64) -> bool {
        fits(self@ * rhs)
    }

    open spec fn mul_spec(self, rhs: i64) -> Money {
        Money((self.0 * rhs) as i64)
    }
}

impl Mul<i64> for Money {
    type Output = Money;

    fn mul(self, rhs: i64) -> (product: Money) {
        Money(self.0 * rhs)
    }
}

impl DivSpecImpl<i64> for Money {
    open spec fn obeys_div_spec() -> bool {
        true
    }

    open spec fn div_req(self, rhs: i64) -> bool {
        rhs != 0 && !(self@ == i64::MIN && rhs == -1)
    }

    open spec fn div_spec(self, rhs: i64) -> Money {
        Money(div_toward_zero(self@, rhs as int) as i64)
    }
}

impl Div<i64> for Money {
    type Output = Money;

    fn div(self, rhs: i64) -> (quotient: Money) {
        Money(self.0 / rhs)
    }
}

impl RemSpecImpl<i64> for Money {
    open spec fn obeys_rem_spec() -> bool {
        true
    }

    open spec fn rem_req(self, rhs: i64) -> bool {
        rhs != 0 && !(self@ == i64::MIN && rhs == -1)
    }

    open spec fn rem_spec(self, rhs: i64) -> Money {
        Money(rem_toward_zero(self@, rhs as int) as i64)
    }
}

impl Rem<i64> for Money {
    type Output = Money;

    fn rem(self, rhs: i64) -> (remainder: Money) {
        Money(self.0 % rhs)
    }
}

} // verus!
