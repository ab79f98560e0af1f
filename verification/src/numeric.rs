//! The numeric capability that balances, nonces and block numbers share.

use vstd::prelude::*;

verus! {

/// An unsigned fixed-width quantity: it can be built as zero or from a small
/// integer, compared, and added or subtracted with a check for leaving the
/// representable range.
pub trait Numeric: Copy + Sized {
    /// The number that the value stands for.
    spec fn value(self) -> nat;

    /// The largest number that the type can hold.
    spec fn limit() -> nat;

    /// Every value lies within the type's range.
    proof fn value_is_bounded(self)
        ensures
            self.value() <= Self::limit(),
    ;

    /// The type's range holds every number that `from_small` can be asked for.
    proof fn limit_admits_small()
        ensures
            Self::limit() >= u8::MAX,
    ;

    /// Two values that stand for the same number are the same value.
    proof fn value_is_injective(self, other: Self)
        requires
            self.value() == other.value(),
        ensures
            self == other,
    ;

    /// The additive identity.
    fn zero() -> (z: Self)
        ensures
            z.value() == 0,
    ;

    /// The value that stands for `n`.
    fn from_small(n: u8) -> (r: Self)
        ensures
            r.value() == n,
    ;

    /// The sum, or `None` where it exceeds the type's range.
    fn checked_add(&self, v: &Self) -> (r: Option<Self>)
        ensures
            match r {
                Some(s) => s.value() == self.value() + v.value(),
                None => self.value() + v.value() > Self::limit(),
            },
    ;

    /// The difference, or `None` where `v` is the larger.
    fn checked_sub(&self, v: &Self) -> (r: Option<Self>)
        ensures
            match r {
                Some(d) => d.value() + v.value() == self.value(),
                None => self.value() < v.value(),
            },
    ;

    /// Whether `self` is at least `v`.
    fn at_least(&self, v: &Self) -> (r: bool)
        ensures
            r == (self.value() >= v.value()),
    ;
}

/// `num::Zero::zero` for `u8`, which returns the literal `0`.
#[verifier::external_body]
fn zero_u8() -> (z: u8)
    ensures
        z == 0,
{
    num::Zero::zero()
}

/// `num::CheckedAdd::checked_add` for `u8`, which forwards to
/// `u8::checked_add`: the sum where it fits in 8 bits, `None` otherwise.
#[verifier::external_body]
fn checked_add_u8(a: &u8, b: &u8) -> (r: Option<u8>)
    ensures
        r == (if *a + *b <= u8::MAX {
            Some((*a + *b) as u8)
        } else {
            None::<u8>
        }),
{
    num::CheckedAdd::checked_add(a, b)
}

/// `num::CheckedSub::checked_sub` for `u8`, which forwards to
/// `u8::checked_sub`: the difference where `b` is not the larger, `None`
/// otherwise.
#[verifier::external_body]
fn checked_sub_u8(a: &u8, b: &u8) -> (r: Option<u8>)
    ensures
        r == (if *a >= *b {
            Some((*a - *b) as u8)
        } else {
            None::<u8>
        }),
{
    num::CheckedSub::checked_sub(a, b)
}

impl Numeric for u8 {
    open spec fn value(self) -> nat {
        self as nat
    }

    open spec fn limit() -> nat {
        u8::MAX as nat
    }

    proof fn value_is_bounded(self) {
    }

    proof fn limit_admits_small() {
    }

    proof fn value_is_injective(self, other: Self) {
    }

    fn zero() -> (z: Self) {
        zero_u8()
    }

    fn from_small(n: u8) -> (r: Self) {
        n
    }

    fn checked_add(&self, v: &Self) -> (r: Option<Self>) {
        checked_add_u8(self, v)
    }

    fn checked_sub(&self, v: &Self) -> (r: Option<Self>) {
        checked_sub_u8(self, v)
    }

    fn at_least(&self, v: &Self) -> (r: bool) {
        *self >= *v
    }
}

/// `num::Zero::zero` for `u32`, which returns the literal `0`.
#[verifier::external_body]
fn zero_u32() -> (z: u32)
    ensures
        z == 0,
{
    num::Zero::zero()
}

/// `num::CheckedAdd::checked_add` for `u32`, which forwards to
/// `u32::checked_add`: the sum where it fits in 32 bits, `None` otherwise.
#[verifier::external_body]
fn checked_add_u32(a: &u32, b: &u32) -> (r: Option<u32>)
    ensures
        r == (if *a + *b <= u32::MAX {
            Some((*a + *b) as u32)
        } else {
            None::<u32>
        }),
{
    num::CheckedAdd::checked_add(a, b)
}

/// `num::CheckedSub::checked_sub` for `u32`, which forwards to
/// `u32::checked_sub`: the difference where `b` is not the larger, `None`
/// otherwise.
#[verifier::external_body]
fn checked_sub_u32(a: &u32, b: &u32) -> (r: Option<u32>)
    ensures
        r == (if *a >= *b {
            Some((*a - *b) as u32)
        } else {
            None::<u32>
        }),
{
    num::CheckedSub::checked_sub(a, b)
}

impl Numeric for u32 {
    open spec fn value(self) -> nat {
        self as nat
    }

    open spec fn limit() -> nat {
        u32::MAX as nat
    }

    proof fn value_is_bounded(self) {
    }

    proof fn limit_admits_small() {
    }

    proof fn value_is_injective(self, other: Self) {
    }

    fn zero() -> (z: Self) {
        zero_u32()
    }

    fn from_small(n: u8) -> (r: Self) {
        u32::from(n)
    }

    fn checked_add(&self, v: &Self) -> (r: Option<Self>) {
        checked_add_u32(self, v)
    }

    fn checked_sub(&self, v: &Self) -> (r: Option<Self>) {
        checked_sub_u32(self, v)
    }

    fn at_least(&self, v: &Self) -> (r: bool) {
        *self >= *v
    }
}

/// `num::Zero::zero` for `u128`, which returns the literal `0`.
#[verifier::external_body]
fn zero_u128() -> (z: u128)
    ensures
        z == 0,
{
    num::Zero::zero()
}

/// `num::CheckedAdd::checked_add` for `u128`, which forwards to
/// `u128::checked_add`: the sum where it fits in 128 bits, `None` otherwise.
#[verifier::external_body]
fn checked_add_u128(a: &u128, b: &u128) -> (r: Option<u128>)
    ensures
        r == (if *a + *b <= u128::MAX {
            Some((*a + *b) as u128)
        } else {
            None::<u128>
        }),
{
    num::CheckedAdd::checked_add(a, b)
}

/// `num::CheckedSub::checked_sub` for `u128`, which forwards to
/// `u128::checked_sub`: the difference where `b` is not the larger, `None`
/// otherwise.
#[verifier::external_body]
fn checked_sub_u128(a: &u128, b: &u128) -> (r: Option<u128>)
    ensures
        r == (if *a >= *b {
            Some((*a - *b) as u128)
        } else {
            None::<u128>
        }),
{
    num::CheckedSub::checked_sub(a, b)
}

impl Numeric for u128 {
    open spec fn value(self) -> nat {
        self as nat
    }

    open spec fn limit() -> nat {
        u128::MAX as nat
    }

    proof fn value_is_bounded(self) {
    }

    proof fn limit_admits_small() {
    }

    proof fn value_is_injective(self, other: Self) {
    }

    fn zero() -> (z: Self) {
        zero_u128()
    }

    fn from_small(n: u8) -> (r: Self) {
        u128::from(n)
    }

    fn checked_add(&self, v: &Self) -> (r: Option<Self>) {
        checked_add_u128(self, v)
    }

    fn checked_sub(&self, v: &Self) -> (r: Option<Self>) {
        checked_sub_u128(self, v)
    }

    fn at_least(&self, v: &Self) -> (r: bool) {
        *self >= *v
    }
}

} // verus!
