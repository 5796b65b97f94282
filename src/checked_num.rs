use vstd::prelude::*;

use core::cmp::Ordering;
use core::ops::{Add, BitAnd, BitOr, BitXor, Div, Mul, Neg, Rem, Shl, Shr, Sub};

use vstd::std_specs::cmp::{PartialEqSpecImpl, PartialOrdSpecImpl};
use vstd::std_specs::convert::FromSpecImpl;
use vstd::std_specs::ops::{
    AddSpecImpl, BitAndSpecImpl, BitOrSpecImpl, BitXorSpecImpl, DivSpecImpl, MulSpecImpl,
    NegSpecImpl, RemSpecImpl, ShlSpecImpl, ShrSpecImpl, SubSpecImpl,
};

use crate::builtin_int::{
    add_result, div_result, mul_result, neg_result, rem_result, shl_result, shr_result, sub_result,
    BuiltinInt, CheckedArith,
};

verus! {

/// Overflow-checked number, used like any other integer.
///
/// A value is either valid and holds one `T`, or poisoned: an overflow
/// happened somewhere in the computation that produced it. Poison spreads
/// through every later operation, as NaN does through floating-point
/// arithmetic, and a poisoned value equals nothing, itself included.
///
/// A bare integer of the same type may stand as the right-hand operand of any
/// binary operator, with the same result as if it were wrapped first.
///
/// No multiplicative inverse is offered: no built-in integer type has one that
/// is free of overflow.
#[must_use]
#[derive(Debug, Clone, Copy)]
pub struct CheckedNum<T: CheckedNumTraits>(Option<T>);

/// What a type needs to be held in a `CheckedNum`.
///
/// Kept as narrow as `BuiltinInt` on purpose, so that it can grow later
/// without breaking callers.
pub trait CheckedNumTraits: BuiltinInt {}

impl<T: BuiltinInt> CheckedNumTraits for T {}

/// The contents of a checked value made from `o` are `o`.
pub broadcast proof fn lemma_view_from_view<T: CheckedNumTraits>(o: Option<T>)
    ensures
        #[trigger] CheckedNum::<T>::from_view(o)@ == o,
{
}

/// A checked value is the one made from its contents.
pub broadcast proof fn lemma_from_view_view<T: CheckedNumTraits>(x: CheckedNum<T>)
    ensures
        #[trigger] CheckedNum::<T>::from_view(x@) == x,
{
}

/// The two facts that tie a checked value to its contents.
pub broadcast group group_checked_num {
    lemma_view_from_view,
    lemma_from_view_view,
}

/// The order of two integers.
pub open spec fn cmp_int(a: int, b: int) -> Ordering {
    if a < b {
        Ordering::Less
    } else if a > b {
        Ordering::Greater
    } else {
        Ordering::Equal
    }
}

impl<T: CheckedNumTraits> CheckedNum<T> {
    /// The value held, or `None` where poisoned.
    pub closed spec fn view(self) -> Option<T> {
        self.0
    }

    /// The checked value that holds `o`: valid where `o` is `Some`, poisoned
    /// where it is `None`.
    pub closed spec fn from_view(o: Option<T>) -> Self {
        CheckedNum(o)
    }

    /// A valid value holding `num`.
    pub fn new(num: T) -> (r: Self)
        ensures
            r@ == Some(num),
    {
        CheckedNum(Some(num))
    }

    /// The value held, or `None` where poisoned.
    pub fn as_option(self) -> (r: Option<T>)
        ensures
            r == self@,
    {
        self.0
    }

    /// Whether an overflow happened: the value is poisoned.
    pub fn did_overflow(&self) -> (r: bool)
        ensures
            r == (self@ is None),
    {
        self.as_option().is_none()
    }

    /// What drawing the next item gives: the item, and what is left.
    pub open spec fn next_spec(self) -> (Option<T>, Self) {
        (self@, Self::from_view(None))
    }

    /// Takes the value out as a sequence of at most one item: the first call
    /// yields the value held, if any, and leaves nothing behind for a second.
    pub fn next(&mut self) -> (r: Option<T>)
        ensures
            (r, *final(self)) == old(self).next_spec(),
    {
        self.0.take()
    }
}

impl<T: CheckedNumTraits> From<T> for CheckedNum<T> {
    fn from(value: T) -> (r: Self) {
        CheckedNum(Some(value))
    }
}

impl<T: CheckedNumTraits> FromSpecImpl<T> for CheckedNum<T> {
    open spec fn obeys_from_spec() -> bool {
        true
    }

    open spec fn from_spec(v: T) -> Self {
        CheckedNum::from_view(Some(v))
    }
}

impl<T: CheckedNumTraits> From<Option<T>> for CheckedNum<T> {
    fn from(maybe_num: Option<T>) -> (r: Self) {
        CheckedNum(maybe_num)
    }
}

impl<T: CheckedNumTraits> FromSpecImpl<Option<T>> for CheckedNum<T> {
    open spec fn obeys_from_spec() -> bool {
        true
    }

    open spec fn from_spec(v: Option<T>) -> Self {
        CheckedNum::from_view(v)
    }
}

impl<T: CheckedNumTraits> PartialEq<T> for CheckedNum<T> {
    fn eq(&self, rhs: &T) -> (r: bool) {
        match self.0 {
            Some(num) => num.int_eq(*rhs),
            None => false,
        }
    }
}

impl<T: CheckedNumTraits> PartialEqSpecImpl<T> for CheckedNum<T> {
    open spec fn obeys_eq_spec() -> bool {
        true
    }

    open spec fn eq_spec(&self, rhs: &T) -> bool {
        self@ is Some && self@->0.as_int() == rhs.as_int()
    }
}

impl<T: CheckedNumTraits> PartialEq<CheckedNum<T>> for CheckedNum<T> {
    fn eq(&self, rhs: &CheckedNum<T>) -> (r: bool) {
        match rhs.0 {
            Some(num) => self.eq(&num),
            None => false,
        }
    }
}

impl<T: CheckedNumTraits> PartialEqSpecImpl<CheckedNum<T>> for CheckedNum<T> {
    open spec fn obeys_eq_spec() -> bool {
        true
    }

    open spec fn eq_spec(&self, rhs: &CheckedNum<T>) -> bool {
        self@ is Some && rhs@ is Some && self@->0.as_int() == rhs@->0.as_int()
    }
}

impl<T: CheckedNumTraits> PartialOrd<T> for CheckedNum<T> {
    fn partial_cmp(&self, other: &T) -> (r: Option<Ordering>) {
        match self.0 {
            Some(num) => {
                if num.int_lt(*other) {
                    Some(Ordering::Less)
                } else if other.int_lt(num) {
                    Some(Ordering::Greater)
                } else {
                    Some(Ordering::Equal)
                }
            },
            None => None,
        }
    }
}

impl<T: CheckedNumTraits> PartialOrdSpecImpl<T> for CheckedNum<T> {
    open spec fn obeys_partial_cmp_spec() -> bool {
        true
    }

    open spec fn partial_cmp_spec(&self, other: &T) -> Option<Ordering> {
        match self@ {
            Some(num) => Some(cmp_int(num.as_int(), other.as_int())),
            None => None,
        }
    }
}

impl<T: CheckedNumTraits> PartialOrd<CheckedNum<T>> for CheckedNum<T> {
    fn partial_cmp(&self, rhs: &CheckedNum<T>) -> (r: Option<Ordering>) {
        match rhs.0 {
            Some(rhs_num) => self.partial_cmp(&rhs_num),
            None => None,
        }
    }
}

impl<T: CheckedNumTraits> PartialOrdSpecImpl<CheckedNum<T>> for CheckedNum<T> {
    open spec fn obeys_partial_cmp_spec() -> bool {
        true
    }

    open spec fn partial_cmp_spec(&self, rhs: &CheckedNum<T>) -> Option<Ordering> {
        match (self@, rhs@) {
            (Some(a), Some(b)) => Some(cmp_int(a.as_int(), b.as_int())),
            _ => None,
        }
    }
}

impl<T: CheckedNumTraits + CheckedArith> Add<T> for CheckedNum<T> {
    type Output = Self;

    fn add(self, rhs: T) -> (r: Self) {
        match self.0 {
            Some(num) => CheckedNum(num.checked_add(rhs)),
            None => CheckedNum(None),
        }
    }
}

impl<T: CheckedNumTraits + CheckedArith> AddSpecImpl<T> for CheckedNum<T> {
    open spec fn obeys_add_spec() -> bool {
        true
    }

    open spec fn add_req(self, rhs: T) -> bool {
        true
    }

    open spec fn add_spec(self, rhs: T) -> Self {
        CheckedNum::from_view(
            match self@ {
                Some(num) => add_result(num, rhs),
                None => None,
            },
        )
    }
}

impl<T: CheckedNumTraits + CheckedArith> Add<CheckedNum<T>> for CheckedNum<T> {
    type Output = Self;

    fn add(self, rhs: CheckedNum<T>) -> (r: Self) {
        match rhs.0 {
            Some(num) => self.add(num),
            None => CheckedNum(None),
        }
    }
}

impl<T: CheckedNumTraits + CheckedArith> AddSpecImpl<CheckedNum<T>> for CheckedNum<T> {
    open spec fn obeys_add_spec() -> bool {
        true
    }

    open spec fn add_req(self, rhs: CheckedNum<T>) -> bool {
        true
    }

    open spec fn add_spec(self, rhs: CheckedNum<T>) -> Self {
        CheckedNum::from_view(
            match (self@, rhs@) {
                (Some(a), Some(b)) => add_result(a, b),
                _ => None,
            },
        )
    }
}

impl<T: CheckedNumTraits + CheckedArith> Sub<T> for CheckedNum<T> {
    type Output = Self;

    fn sub(self, rhs: T) -> (r: Self) {
        match self.0 {
            Some(num) => CheckedNum(num.checked_sub(rhs)),
            None => CheckedNum(None),
        }
    }
}

impl<T: CheckedNumTraits + CheckedArith> SubSpecImpl<T> for CheckedNum<T> {
    open spec fn obeys_sub_spec() -> bool {
        true
    }

    open spec fn sub_req(self, rhs: T) -> bool {
        true
    }

    open spec fn sub_spec(self, rhs: T) -> Self {
        CheckedNum::from_view(
            match self@ {
                Some(num) => sub_result(num, rhs),
                None => None,
            },
        )
    }
}

impl<T: CheckedNumTraits + CheckedArith> Sub<CheckedNum<T>> for CheckedNum<T> {
    type Output = Self;

    fn sub(self, rhs: CheckedNum<T>) -> (r: Self) {
        match rhs.0 {
            Some(num) => self.sub(num),
            None => CheckedNum(None),
        }
    }
}

impl<T: CheckedNumTraits + CheckedArith> SubSpecImpl<CheckedNum<T>> for CheckedNum<T> {
    open spec fn obeys_sub_spec() -> bool {
        true
    }

    open spec fn sub_req(self, rhs: CheckedNum<T>) -> bool {
        true
    }

    open spec fn sub_spec(self, rhs: CheckedNum<T>) -> Self {
        CheckedNum::from_view(
            match (self@, rhs@) {
                (Some(a), Some(b)) => sub_result(a, b),
                _ => None,
            },
        )
    }
}

impl<T: CheckedNumTraits + CheckedArith> Mul<T> for CheckedNum<T> {
    type Output = Self;

    fn mul(self, rhs: T) -> (r: Self) {
        match self.0 {
            Some(num) => CheckedNum(num.checked_mul(rhs)),
            None => CheckedNum(None),
        }
    }
}

impl<T: CheckedNumTraits + CheckedArith> MulSpecImpl<T> for CheckedNum<T> {
    open spec fn obeys_mul_spec() -> bool {
        true
    }

    open spec fn mul_req(self, rhs: T) -> bool {
        true
    }

    open spec fn mul_spec(self, rhs: T) -> Self {
        CheckedNum::from_view(
            match self@ {
                Some(num) => mul_result(num, rhs),
                None => None,
            },
        )
    }
}

impl<T: CheckedNumTraits + CheckedArith> Mul<CheckedNum<T>> for CheckedNum<T> {
    type Output = Self;

    fn mul(self, rhs: CheckedNum<T>) -> (r: Self) {
        match rhs.0 {
            Some(num) => self.mul(num),
            None => CheckedNum(None),
        }
    }
}

impl<T: CheckedNumTraits + CheckedArith> MulSpecImpl<CheckedNum<T>> for CheckedNum<T> {
    open spec fn obeys_mul_spec() -> bool {
        true
    }

    open spec fn mul_req(self, rhs: CheckedNum<T>) -> bool {
        true
    }

    open spec fn mul_spec(self, rhs: CheckedNum<T>) -> Self {
        CheckedNum::from_view(
            match (self@, rhs@) {
                (Some(a), Some(b)) => mul_result(a, b),
                _ => None,
            },
        )
    }
}

impl<T: CheckedNumTraits + CheckedArith> Div<T> for CheckedNum<T> {
    type Output = Self;

    fn div(self, rhs: T) -> (r: Self) {
        match self.0 {
            Some(num) => CheckedNum(num.checked_div(rhs)),
            None => CheckedNum(None),
        }
    }
}

impl<T: CheckedNumTraits + CheckedArith> DivSpecImpl<T> for CheckedNum<T> {
    open spec fn obeys_div_spec() -> bool {
        true
    }

    open spec fn div_req(self, rhs: T) -> bool {
        true
    }

    open spec fn div_spec(self, rhs: T) -> Self {
        CheckedNum::from_view(
            match self@ {
                Some(num) => div_result(num, rhs),
                None => None,
            },
        )
    }
}

impl<T: CheckedNumTraits + CheckedArith> Div<CheckedNum<T>> for CheckedNum<T> {
    type Output = Self;

    fn div(self, rhs: CheckedNum<T>) -> (r: Self) {
        match rhs.0 {
            Some(num) => self.div(num),
            None => CheckedNum(None),
        }
    }
}

impl<T: CheckedNumTraits + CheckedArith> DivSpecImpl<CheckedNum<T>> for CheckedNum<T> {
    open spec fn obeys_div_spec() -> bool {
        true
    }

    open spec fn div_req(self, rhs: CheckedNum<T>) -> bool {
        true
    }

    open spec fn div_spec(self, rhs: CheckedNum<T>) -> Self {
        CheckedNum::from_view(
            match (self@, rhs@) {
                (Some(a), Some(b)) => div_result(a, b),
                _ => None,
            },
        )
    }
}

impl<T: CheckedNumTraits + CheckedArith> Rem<T> for CheckedNum<T> {
    type Output = Self;

    fn rem(self, rhs: T) -> (r: Self) {
        match self.0 {
            Some(num) => CheckedNum(num.checked_rem(rhs)),
            None => CheckedNum(None),
        }
    }
}

impl<T: CheckedNumTraits + CheckedArith> RemSpecImpl<T> for CheckedNum<T> {
    open spec fn obeys_rem_spec() -> bool {
        true
    }

    open spec fn rem_req(self, rhs: T) -> bool {
        true
    }

    open spec fn rem_spec(self, rhs: T) -> Self {
        CheckedNum::from_view(
            match self@ {
                Some(num) => rem_result(num, rhs),
                None => None,
            },
        )
    }
}

impl<T: CheckedNumTraits + CheckedArith> Rem<CheckedNum<T>> for CheckedNum<T> {
    type Output = Self;

    fn rem(self, rhs: CheckedNum<T>) -> (r: Self) {
        match rhs.0 {
            Some(num) => self.rem(num),
            None => CheckedNum(None),
        }
    }
}

impl<T: CheckedNumTraits + CheckedArith> RemSpecImpl<CheckedNum<T>> for CheckedNum<T> {
    open spec fn obeys_rem_spec() -> bool {
        true
    }

    open spec fn rem_req(self, rhs: CheckedNum<T>) -> bool {
        true
    }

    open spec fn rem_spec(self, rhs: CheckedNum<T>) -> Self {
        CheckedNum::from_view(
            match (self@, rhs@) {
                (Some(a), Some(b)) => rem_result(a, b),
                _ => None,
            },
        )
    }
}

impl<T: CheckedNumTraits + CheckedArith> Shl<u32> for CheckedNum<T> {
    type Output = Self;

    fn shl(self, rhs: u32) -> (r: Self) {
        match self.0 {
            Some(num) => CheckedNum(num.checked_shl(rhs)),
            None => CheckedNum(None),
        }
    }
}

impl<T: CheckedNumTraits + CheckedArith> ShlSpecImpl<u32> for CheckedNum<T> {
    open spec fn obeys_shl_spec() -> bool {
        true
    }

    open spec fn shl_req(self, rhs: u32) -> bool {
        true
    }

    open spec fn shl_spec(self, rhs: u32) -> Self {
        CheckedNum::from_view(
            match self@ {
                Some(num) => shl_result(num, rhs),
                None => None,
            },
        )
    }
}

impl<T: CheckedNumTraits + CheckedArith> Shl<CheckedNum<u32>> for CheckedNum<T> {
    type Output = Self;

    fn shl(self, rhs: CheckedNum<u32>) -> (r: Self) {
        match rhs.0 {
            Some(num) => self.shl(num),
            None => CheckedNum(None),
        }
    }
}

impl<T: CheckedNumTraits + CheckedArith> ShlSpecImpl<CheckedNum<u32>> for CheckedNum<T> {
    open spec fn obeys_shl_spec() -> bool {
        true
    }

    open spec fn shl_req(self, rhs: CheckedNum<u32>) -> bool {
        true
    }

    open spec fn shl_spec(self, rhs: CheckedNum<u32>) -> Self {
        CheckedNum::from_view(
            match (self@, rhs@) {
                (Some(a), Some(b)) => shl_result(a, b),
                _ => None,
            },
        )
    }
}

impl<T: CheckedNumTraits + CheckedArith> Shr<u32> for CheckedNum<T> {
    type Output = Self;

    fn shr(self, rhs: u32) -> (r: Self) {
        match self.0 {
            Some(num) => CheckedNum(num.checked_shr(rhs)),
            None => CheckedNum(None),
        }
    }
}

impl<T: CheckedNumTraits + CheckedArith> ShrSpecImpl<u32> for CheckedNum<T> {
    open spec fn obeys_shr_spec() -> bool {
        true
    }

    open spec fn shr_req(self, rhs: u32) -> bool {
        true
    }

    open spec fn shr_spec(self, rhs: u32) -> Self {
        CheckedNum::from_view(
            match self@ {
                Some(num) => shr_result(num, rhs),
                None => None,
            },
        )
    }
}

impl<T: CheckedNumTraits + CheckedArith> Shr<CheckedNum<u32>> for CheckedNum<T> {
    type Output = Self;

    fn shr(self, rhs: CheckedNum<u32>) -> (r: Self) {
        match rhs.0 {
            Some(num) => self.shr(num),
            None => CheckedNum(None),
        }
    }
}

impl<T: CheckedNumTraits + CheckedArith> ShrSpecImpl<CheckedNum<u32>> for CheckedNum<T> {
    open spec fn obeys_shr_spec() -> bool {
        true
    }

    open spec fn shr_req(self, rhs: CheckedNum<u32>) -> bool {
        true
    }

    open spec fn shr_spec(self, rhs: CheckedNum<u32>) -> Self {
        CheckedNum::from_view(
            match (self@, rhs@) {
                (Some(a), Some(b)) => shr_result(a, b),
                _ => None,
            },
        )
    }
}

impl<T: CheckedNumTraits> BitAnd<T> for CheckedNum<T> {
    type Output = Self;

    fn bitand(self, rhs: T) -> (r: Self) {
        match self.0 {
            Some(num) => CheckedNum(Some(num.bit_and(rhs))),
            None => CheckedNum(None),
        }
    }
}

impl<T: CheckedNumTraits> BitAndSpecImpl<T> for CheckedNum<T> {
    open spec fn obeys_bitand_spec() -> bool {
        true
    }

    open spec fn bitand_req(self, rhs: T) -> bool {
        true
    }

    open spec fn bitand_spec(self, rhs: T) -> Self {
        CheckedNum::from_view(
            match self@ {
                Some(num) => Some(num.and_bits(rhs)),
                None => None,
            },
        )
    }
}

impl<T: CheckedNumTraits> BitAnd<CheckedNum<T>> for CheckedNum<T> {
    type Output = Self;

    fn bitand(self, rhs: CheckedNum<T>) -> (r: Self) {
        match rhs.0 {
            Some(num) => self.bitand(num),
            None => CheckedNum(None),
        }
    }
}

impl<T: CheckedNumTraits> BitAndSpecImpl<CheckedNum<T>> for CheckedNum<T> {
    open spec fn obeys_bitand_spec() -> bool {
        true
    }

    open spec fn bitand_req(self, rhs: CheckedNum<T>) -> bool {
        true
    }

    open spec fn bitand_spec(self, rhs: CheckedNum<T>) -> Self {
        CheckedNum::from_view(
            match (self@, rhs@) {
                (Some(a), Some(b)) => Some(a.and_bits(b)),
                _ => None,
            },
        )
    }
}

impl<T: CheckedNumTraits> BitOr<T> for CheckedNum<T> {
    type Output = Self;

    fn bitor(self, rhs: T) -> (r: Self) {
        match self.0 {
            Some(num) => CheckedNum(Some(num.bit_or(rhs))),
            None => CheckedNum(None),
        }
    }
}

impl<T: CheckedNumTraits> BitOrSpecImpl<T> for CheckedNum<T> {
    open spec fn obeys_bitor_spec() -> bool {
        true
    }

    open spec fn bitor_req(self, rhs: T) -> bool {
        true
    }

    open spec fn bitor_spec(self, rhs: T) -> Self {
        CheckedNum::from_view(
            match self@ {
                Some(num) => Some(num.or_bits(rhs)),
                None => None,
            },
        )
    }
}

impl<T: CheckedNumTraits> BitOr<CheckedNum<T>> for CheckedNum<T> {
    type Output = Self;

    fn bitor(self, rhs: CheckedNum<T>) -> (r: Self) {
        match rhs.0 {
            Some(num) => self.bitor(num),
            None => CheckedNum(None),
        }
    }
}

impl<T: CheckedNumTraits> BitOrSpecImpl<CheckedNum<T>> for CheckedNum<T> {
    open spec fn obeys_bitor_spec() -> bool {
        true
    }

    open spec fn bitor_req(self, rhs: CheckedNum<T>) -> bool {
        true
    }

    open spec fn bitor_spec(self, rhs: CheckedNum<T>) -> Self {
        CheckedNum::from_view(
            match (self@, rhs@) {
                (Some(a), Some(b)) => Some(a.or_bits(b)),
                _ => None,
            },
        )
    }
}

impl<T: CheckedNumTraits> BitXor<T> for CheckedNum<T> {
    type Output = Self;

    fn bitxor(self, rhs: T) -> (r: Self) {
        match self.0 {
            Some(num) => CheckedNum(Some(num.bit_xor(rhs))),
            None => CheckedNum(None),
        }
    }
}

impl<T: CheckedNumTraits> BitXorSpecImpl<T> for CheckedNum<T> {
    open spec fn obeys_bitxor_spec() -> bool {
        true
    }

    open spec fn bitxor_req(self, rhs: T) -> bool {
        true
    }

    open spec fn bitxor_spec(self, rhs: T) -> Self {
        CheckedNum::from_view(
            match self@ {
                Some(num) => Some(num.xor_bits(rhs)),
                None => None,
            },
        )
    }
}

impl<T: CheckedNumTraits> BitXor<CheckedNum<T>> for CheckedNum<T> {
    type Output = Self;

    fn bitxor(self, rhs: CheckedNum<T>) -> (r: Self) {
        match rhs.0 {
            Some(num) => self.bitxor(num),
            None => CheckedNum(None),
        }
    }
}

impl<T: CheckedNumTraits> BitXorSpecImpl<CheckedNum<T>> for CheckedNum<T> {
    open spec fn obeys_bitxor_spec() -> bool {
        true
    }

    open spec fn bitxor_req(self, rhs: CheckedNum<T>) -> bool {
        true
    }

    open spec fn bitxor_spec(self, rhs: CheckedNum<T>) -> Self {
        CheckedNum::from_view(
            match (self@, rhs@) {
                (Some(a), Some(b)) => Some(a.xor_bits(b)),
                _ => None,
            },
        )
    }
}

impl<T: CheckedNumTraits + CheckedArith> Neg for CheckedNum<T> {
    type Output = Self;

    fn neg(self) -> (r: Self) {
        match self.0 {
            Some(num) => CheckedNum(num.checked_neg()),
            None => CheckedNum(None),
        }
    }
}

impl<T: CheckedNumTraits + CheckedArith> NegSpecImpl for CheckedNum<T> {
    open spec fn obeys_neg_spec() -> bool {
        true
    }

    open spec fn neg_req(self) -> bool {
        true
    }

    open spec fn neg_spec(self) -> Self {
        CheckedNum::from_view(
            match self@ {
                Some(num) => neg_result(num),
                None => None,
            },
        )
    }
}

} // verus!
