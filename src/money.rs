use num_bigint::{BigInt, Sign};
use std::cmp::Ordering;
use vstd::prelude::*;

verus! {

/// num-bigint's sign of a `BigInt`: `Minus`, `NoSign` or `Plus`. Its three
/// variants carry no data, so Verus is shown them as they are.
#[verifier::external_type_specification]
pub struct ExSign(Sign);

/// Value of little-endian base 2^32 digits.
pub open spec fn digits_value(d: Seq<u32>) -> nat
    decreases d.len(),
{
    if d.len() == 0 {
        0
    } else {
        d[0] as nat + 0x1_0000_0000 * digits_value(d.drop_first())
    }
}

/// Value of a sign and a magnitude, as `BigInt::from_slice` reads them.
pub open spec fn signed_value(sign: Sign, magnitude: Seq<u32>) -> int {
    match sign {
        Sign::Minus => -digits_value(magnitude),
        Sign::NoSign => 0,
        Sign::Plus => digits_value(magnitude) as int,
    }
}

/// An amount of money of arbitrary size, held as a sign and base 2^32 digits.
#[derive(Debug)]
pub struct Money {
    sign: Sign,
    magnitude: Vec<u32>,
}

impl View for Money {
    type V = int;

    closed spec fn view(&self) -> int {
        signed_value(self.sign, self.magnitude@)
    }
}

/// Relies on `BigInt::from_slice`, `Add for &BigInt` and `BigInt::to_u32_digits`:
/// the digits of the exact sum.
#[verifier::external_body]
fn bigint_add(a: &Money, b: &Money) -> (r: Money)
    ensures
        r@ == a@ + b@,
{
    let x = BigInt::from_slice(a.sign, &a.magnitude);
    let y = BigInt::from_slice(b.sign, &b.magnitude);
    let (sign, magnitude) = (&x + &y).to_u32_digits();
    Money { sign, magnitude }
}

/// Relies on `BigInt::from_slice`, `Sub for &BigInt` and `BigInt::to_u32_digits`:
/// the digits of the exact difference.
#[verifier::external_body]
fn bigint_sub(a: &Money, b: &Money) -> (r: Money)
    ensures
        r@ == a@ - b@,
{
    let x = BigInt::from_slice(a.sign, &a.magnitude);
    let y = BigInt::from_slice(b.sign, &b.magnitude);
    let (sign, magnitude) = (&x - &y).to_u32_digits();
    Money { sign, magnitude }
}

/// Relies on `BigInt::from_slice`, `Neg for &BigInt` and `BigInt::to_u32_digits`:
/// the digits of the negated value.
#[verifier::external_body]
fn bigint_neg(a: &Money) -> (r: Money)
    ensures
        r@ == -a@,
{
    let x = BigInt::from_slice(a.sign, &a.magnitude);
    let (sign, magnitude) = (-&x).to_u32_digits();
    Money { sign, magnitude }
}

/// Relies on `From<i128> for BigInt` and `BigInt::to_u32_digits`: the digits of
/// the same integer.
#[verifier::external_body]
fn bigint_from_i128(value: i128) -> (r: Money)
    ensures
        r@ == value as int,
{
    let (sign, magnitude) = BigInt::from(value).to_u32_digits();
    Money { sign, magnitude }
}

/// Relies on `BigInt::from_slice` and `TryFrom<&BigInt> for i64`: the value
/// when it lies in the range of `i64`, an error otherwise.
#[verifier::external_body]
fn bigint_to_i64(a: &Money) -> (r: Option<i64>)
    ensures
        r == (if i64::MIN <= a@ <= i64::MAX { Some(a@ as i64) } else { None::<i64> }),
{
    let x = BigInt::from_slice(a.sign, &a.magnitude);
    i64::try_from(&x).ok()
}

/// Relies on `BigInt::from_slice`, `Ord for BigInt`: the numeric order.
#[verifier::external_body]
fn bigint_cmp(a: &Money, b: &Money) -> (r: Ordering)
    ensures
        (r == Ordering::Less) == (a@ < b@),
        (r == Ordering::Equal) == (a@ == b@),
        (r == Ordering::Greater) == (a@ > b@),
{
    let x = BigInt::from_slice(a.sign, &a.magnitude);
    let y = BigInt::from_slice(b.sign, &b.magnitude);
    x.cmp(&y)
}

impl Money {
    pub fn new(sign: Sign, magnitude: Vec<u32>) -> (r: Money)
        ensures
            r@ == signed_value(sign, magnitude@),
    {
        Money { sign, magnitude }
    }

    pub fn of(value: i128) -> (r: Money)
        ensures
            r@ == value as int,
    {
        bigint_from_i128(value)
    }

    pub fn add(a: &Money, b: &Money) -> (r: Money)
        ensures
            r@ == a@ + b@,
    {
        bigint_add(a, b)
    }

    pub fn substract(a: &Money, b: &Money) -> (r: Money)
        ensures
            r@ == a@ - b@,
    {
        bigint_sub(a, b)
    }

    pub fn plus(&self, money: &Money) -> (r: Money)
        ensures
            r@ == self@ + money@,
    {
        bigint_add(self, money)
    }

    pub fn minus(&self, money: &Money) -> (r: Money)
        ensures
            r@ == self@ - money@,
    {
        bigint_sub(self, money)
    }

    pub fn negate(&self) -> (r: Money)
        ensures
            r@ == -self@,
    {
        bigint_neg(self)
    }

    /// The amount as an `i64`, or `None` where it does not fit.
    pub fn to_i64(&self) -> (r: Option<i64>)
        ensures
            r == (if i64::MIN <= self@ <= i64::MAX { Some(self@ as i64) } else { None::<i64> }),
    {
        bigint_to_i64(self)
    }

    pub fn is_positive_or_zero(&self) -> (r: bool)
        ensures
            r == (self@ >= 0),
    {
        let zero = Money::of(0);
        !zero.is_greater_than(self)
    }

    pub fn is_negative(&self) -> (r: bool)
        ensures
            r == (self@ < 0),
    {
        let zero = Money::of(0);
        zero.is_greater_than(self)
    }

    pub fn is_positive(&self) -> (r: bool)
        ensures
            r == (self@ > 0),
    {
        let zero = Money::of(0);
        self.is_greater_than(&zero)
    }

    pub fn is_greater_than_or_equal_to(&self, money: &Money) -> (r: bool)
        ensures
            r == (self@ >= money@),
    {
        !money.is_greater_than(self)
    }

    pub fn is_greater_than(&self, money: &Money) -> (r: bool)
        ensures
            r == (self@ > money@),
    {
        match bigint_cmp(self, money) {
            Ordering::Greater => true,
            _ => false,
        }
    }
}

impl Clone for Money {
    fn clone(&self) -> (r: Money)
        ensures
            r@ == self@,
    {
        Money { sign: self.sign, magnitude: self.magnitude.clone() }
    }
}

impl PartialEq for Money {
    fn eq(&self, other: &Money) -> (r: bool) {
        match bigint_cmp(self, other) {
            Ordering::Equal => true,
            _ => false,
        }
    }
}

impl vstd::std_specs::cmp::PartialEqSpecImpl for Money {
    open spec fn obeys_eq_spec() -> bool {
        true
    }

    open spec fn eq_spec(&self, other: &Money) -> bool {
        self@ == other@
    }
}

impl Eq for Money {

}

} // verus!
