use vstd::prelude::*;

use crate::builtin_int::{BuiltinInt, CheckedArith, lemma_trunc_div_rem};

verus! {

impl BuiltinInt for u8 {
    open spec fn bits() -> u32 {
        8
    }

    open spec fn shl_bits(self, n: u32) -> u8 {
        self << n
    }

    open spec fn shr_bits(self, n: u32) -> u8 {
        self >> n
    }

    open spec fn as_int(self) -> int {
        self as int
    }

    open spec fn from_int(i: int) -> u8 {
        i as u8
    }

    open spec fn min_int() -> int {
        u8::MIN as int
    }

    open spec fn max_int() -> int {
        u8::MAX as int
    }

    open spec fn and_bits(self, rhs: u8) -> u8 {
        self & rhs
    }

    open spec fn or_bits(self, rhs: u8) -> u8 {
        self | rhs
    }

    open spec fn xor_bits(self, rhs: u8) -> u8 {
        self ^ rhs
    }

    proof fn lemma_from_int(i: int) {
    }

    fn int_eq(self, rhs: u8) -> (r: bool) {
        self == rhs
    }

    fn int_lt(self, rhs: u8) -> (r: bool) {
        self < rhs
    }

    fn bit_and(self, rhs: u8) -> (r: u8) {
        self & rhs
    }

    fn bit_or(self, rhs: u8) -> (r: u8) {
        self | rhs
    }

    fn bit_xor(self, rhs: u8) -> (r: u8) {
        self ^ rhs
    }
}

impl CheckedArith for u8 {
    fn checked_add(self, rhs: u8) -> (r: Option<u8>) {
        <u8>::checked_add(self, rhs)
    }

    fn checked_sub(self, rhs: u8) -> (r: Option<u8>) {
        <u8>::checked_sub(self, rhs)
    }

    fn checked_mul(self, rhs: u8) -> (r: Option<u8>) {
        <u8>::checked_mul(self, rhs)
    }

    fn checked_div(self, rhs: u8) -> (r: Option<u8>) {
        <u8>::checked_div(self, rhs)
    }

    fn checked_rem(self, rhs: u8) -> (r: Option<u8>) {
        if rhs != 0 {
            proof {
                lemma_trunc_div_rem(self as int, rhs as int, u8::MIN as int, u8::MAX as int);
            }
        }
        <u8>::checked_rem(self, rhs)
    }

    fn checked_neg(self) -> (r: Option<u8>) {
        if self == 0 {
            Some(0)
        } else {
            None
        }
    }

    fn checked_shl(self, n: u32) -> (r: Option<u8>) {
        if n < 8 {
            Some(self << n)
        } else {
            None
        }
    }

    fn checked_shr(self, n: u32) -> (r: Option<u8>) {
        if n < 8 {
            Some(self >> n)
        } else {
            None
        }
    }
}

impl BuiltinInt for u16 {
    open spec fn bits() -> u32 {
        16
    }

    open spec fn shl_bits(self, n: u32) -> u16 {
        self << n
    }

    open spec fn shr_bits(self, n: u32) -> u16 {
        self >> n
    }

    open spec fn as_int(self) -> int {
        self as int
    }

    open spec fn from_int(i: int) -> u16 {
        i as u16
    }

    open spec fn min_int() -> int {
        u16::MIN as int
    }

    open spec fn max_int() -> int {
        u16::MAX as int
    }

    open spec fn and_bits(self, rhs: u16) -> u16 {
        self & rhs
    }

    open spec fn or_bits(self, rhs: u16) -> u16 {
        self | rhs
    }

    open spec fn xor_bits(self, rhs: u16) -> u16 {
        self ^ rhs
    }

    proof fn lemma_from_int(i: int) {
    }

    fn int_eq(self, rhs: u16) -> (r: bool) {
        self == rhs
    }

    fn int_lt(self, rhs: u16) -> (r: bool) {
        self < rhs
    }

    fn bit_and(self, rhs: u16) -> (r: u16) {
        self & rhs
    }

    fn bit_or(self, rhs: u16) -> (r: u16) {
        self | rhs
    }

    fn bit_xor(self, rhs: u16) -> (r: u16) {
        self ^ rhs
    }
}

impl CheckedArith for u16 {
    fn checked_add(self, rhs: u16) -> (r: Option<u16>) {
        <u16>::checked_add(self, rhs)
    }

    fn checked_sub(self, rhs: u16) -> (r: Option<u16>) {
        <u16>::checked_sub(self, rhs)
    }

    fn checked_mul(self, rhs: u16) -> (r: Option<u16>) {
        <u16>::checked_mul(self, rhs)
    }

    fn checked_div(self, rhs: u16) -> (r: Option<u16>) {
        <u16>::checked_div(self, rhs)
    }

    fn checked_rem(self, rhs: u16) -> (r: Option<u16>) {
        if rhs != 0 {
            proof {
                lemma_trunc_div_rem(self as int, rhs as int, u16::MIN as int, u16::MAX as int);
            }
        }
        <u16>::checked_rem(self, rhs)
    }

    fn checked_neg(self) -> (r: Option<u16>) {
        if self == 0 {
            Some(0)
        } else {
            None
        }
    }

    fn checked_shl(self, n: u32) -> (r: Option<u16>) {
        if n < 16 {
            Some(self << n)
        } else {
            None
        }
    }

    fn checked_shr(self, n: u32) -> (r: Option<u16>) {
        if n < 16 {
            Some(self >> n)
        } else {
            None
        }
    }
}

impl BuiltinInt for u32 {
    open spec fn bits() -> u32 {
        32
    }

    open spec fn shl_bits(self, n: u32) -> u32 {
        self << n
    }

    open spec fn shr_bits(self, n: u32) -> u32 {
        self >> n
    }

    open spec fn as_int(self) -> int {
        self as int
    }

    open spec fn from_int(i: int) -> u32 {
        i as u32
    }

    open spec fn min_int() -> int {
        u32::MIN as int
    }

    open spec fn max_int() -> int {
        u32::MAX as int
    }

    open spec fn and_bits(self, rhs: u32) -> u32 {
        self & rhs
    }

    open spec fn or_bits(self, rhs: u32) -> u32 {
        self | rhs
    }

    open spec fn xor_bits(self, rhs: u32) -> u32 {
        self ^ rhs
    }

    proof fn lemma_from_int(i: int) {
    }

    fn int_eq(self, rhs: u32) -> (r: bool) {
        self == rhs
    }

    fn int_lt(self, rhs: u32) -> (r: bool) {
        self < rhs
    }

    fn bit_and(self, rhs: u32) -> (r: u32) {
        self & rhs
    }

    fn bit_or(self, rhs: u32) -> (r: u32) {
        self | rhs
    }

    fn bit_xor(self, rhs: u32) -> (r: u32) {
        self ^ rhs
    }
}

impl CheckedArith for u32 {
    fn checked_add(self, rhs: u32) -> (r: Option<u32>) {
        <u32>::checked_add(self, rhs)
    }

    fn checked_sub(self, rhs: u32) -> (r: Option<u32>) {
        <u32>::checked_sub(self, rhs)
    }

    fn checked_mul(self, rhs: u32) -> (r: Option<u32>) {
        <u32>::checked_mul(self, rhs)
    }

    fn checked_div(self, rhs: u32) -> (r: Option<u32>) {
        <u32>::checked_div(self, rhs)
    }

    fn checked_rem(self, rhs: u32) -> (r: Option<u32>) {
        if rhs != 0 {
            proof {
                lemma_trunc_div_rem(self as int, rhs as int, u32::MIN as int, u32::MAX as int);
            }
        }
        <u32>::checked_rem(self, rhs)
    }

    fn checked_neg(self) -> (r: Option<u32>) {
        if self == 0 {
            Some(0)
        } else {
            None
        }
    }

    fn checked_shl(self, n: u32) -> (r: Option<u32>) {
        if n < 32 {
            Some(self << n)
        } else {
            None
        }
    }

    fn checked_shr(self, n: u32) -> (r: Option<u32>) {
        if n < 32 {
            Some(self >> n)
        } else {
            None
        }
    }
}

impl BuiltinInt for u64 {
    open spec fn bits() -> u32 {
        64
    }

    open spec fn shl_bits(self, n: u32) -> u64 {
        self << n
    }

    open spec fn shr_bits(self, n: u32) -> u64 {
        self >> n
    }

    open spec fn as_int(self) -> int {
        self as int
    }

    open spec fn from_int(i: int) -> u64 {
        i as u64
    }

    open spec fn min_int() -> int {
        u64::MIN as int
    }

    open spec fn max_int() -> int {
        u64::MAX as int
    }

    open spec fn and_bits(self, rhs: u64) -> u64 {
        self & rhs
    }

    open spec fn or_bits(self, rhs: u64) -> u64 {
        self | rhs
    }

    open spec fn xor_bits(self, rhs: u64) -> u64 {
        self ^ rhs
    }

    proof fn lemma_from_int(i: int) {
    }

    fn int_eq(self, rhs: u64) -> (r: bool) {
        self == rhs
    }

    fn int_lt(self, rhs: u64) -> (r: bool) {
        self < rhs
    }

    fn bit_and(self, rhs: u64) -> (r: u64) {
        self & rhs
    }

    fn bit_or(self, rhs: u64) -> (r: u64) {
        self | rhs
    }

    fn bit_xor(self, rhs: u64) -> (r: u64) {
        self ^ rhs
    }
}

impl CheckedArith for u64 {
    fn checked_add(self, rhs: u64) -> (r: Option<u64>) {
        <u64>::checked_add(self, rhs)
    }

    fn checked_sub(self, rhs: u64) -> (r: Option<u64>) {
        <u64>::checked_sub(self, rhs)
    }

    fn checked_mul(self, rhs: u64) -> (r: Option<u64>) {
        <u64>::checked_mul(self, rhs)
    }

    fn checked_div(self, rhs: u64) -> (r: Option<u64>) {
        <u64>::checked_div(self, rhs)
    }

    fn checked_rem(self, rhs: u64) -> (r: Option<u64>) {
        if rhs != 0 {
            proof {
                lemma_trunc_div_rem(self as int, rhs as int, u64::MIN as int, u64::MAX as int);
            }
        }
        <u64>::checked_rem(self, rhs)
    }

    fn checked_neg(self) -> (r: Option<u64>) {
        if self == 0 {
            Some(0)
        } else {
            None
        }
    }

    fn checked_shl(self, n: u32) -> (r: Option<u64>) {
        if n < 64 {
            Some(self << n)
        } else {
            None
        }
    }

    fn checked_shr(self, n: u32) -> (r: Option<u64>) {
        if n < 64 {
            Some(self >> n)
        } else {
            None
        }
    }
}

impl BuiltinInt for u128 {
    open spec fn bits() -> u32 {
        128
    }

    open spec fn shl_bits(self, n: u32) -> u128 {
        self << n
    }

    open spec fn shr_bits(self, n: u32) -> u128 {
        self >> n
    }

    open spec fn as_int(self) -> int {
        self as int
    }

    open spec fn from_int(i: int) -> u128 {
        i as u128
    }

    open spec fn min_int() -> int {
        u128::MIN as int
    }

    open spec fn max_int() -> int {
        u128::MAX as int
    }

    open spec fn and_bits(self, rhs: u128) -> u128 {
        self & rhs
    }

    open spec fn or_bits(self, rhs: u128) -> u128 {
        self | rhs
    }

    open spec fn xor_bits(self, rhs: u128) -> u128 {
        self ^ rhs
    }

    proof fn lemma_from_int(i: int) {
    }

    fn int_eq(self, rhs: u128) -> (r: bool) {
        self == rhs
    }

    fn int_lt(self, rhs: u128) -> (r: bool) {
        self < rhs
    }

    fn bit_and(self, rhs: u128) -> (r: u128) {
        self & rhs
    }

    fn bit_or(self, rhs: u128) -> (r: u128) {
        self | rhs
    }

    fn bit_xor(self, rhs: u128) -> (r: u128) {
        self ^ rhs
    }
}

impl CheckedArith for u128 {
    fn checked_add(self, rhs: u128) -> (r: Option<u128>) {
        <u128>::checked_add(self, rhs)
    }

    fn checked_sub(self, rhs: u128) -> (r: Option<u128>) {
        <u128>::checked_sub(self, rhs)
    }

    fn checked_mul(self, rhs: u128) -> (r: Option<u128>) {
        <u128>::checked_mul(self, rhs)
    }

    fn checked_div(self, rhs: u128) -> (r: Option<u128>) {
        <u128>::checked_div(self, rhs)
    }

    fn checked_rem(self, rhs: u128) -> (r: Option<u128>) {
        if rhs != 0 {
            proof {
                lemma_trunc_div_rem(self as int, rhs as int, u128::MIN as int, u128::MAX as int);
            }
        }
        <u128>::checked_rem(self, rhs)
    }

    fn checked_neg(self) -> (r: Option<u128>) {
        if self == 0 {
            Some(0)
        } else {
            None
        }
    }

    fn checked_shl(self, n: u32) -> (r: Option<u128>) {
        if n < 128 {
            Some(self << n)
        } else {
            None
        }
    }

    fn checked_shr(self, n: u32) -> (r: Option<u128>) {
        if n < 128 {
            Some(self >> n)
        } else {
            None
        }
    }
}

impl BuiltinInt for i8 {
    open spec fn bits() -> u32 {
        8
    }

    open spec fn shl_bits(self, n: u32) -> i8 {
        self << n
    }

    open spec fn shr_bits(self, n: u32) -> i8 {
        self >> n
    }

    open spec fn as_int(self) -> int {
        self as int
    }

    open spec fn from_int(i: int) -> i8 {
        i as i8
    }

    open spec fn min_int() -> int {
        i8::MIN as int
    }

    open spec fn max_int() -> int {
        i8::MAX as int
    }

    open spec fn and_bits(self, rhs: i8) -> i8 {
        self & rhs
    }

    open spec fn or_bits(self, rhs: i8) -> i8 {
        self | rhs
    }

    open spec fn xor_bits(self, rhs: i8) -> i8 {
        self ^ rhs
    }

    proof fn lemma_from_int(i: int) {
    }

    fn int_eq(self, rhs: i8) -> (r: bool) {
        self == rhs
    }

    fn int_lt(self, rhs: i8) -> (r: bool) {
        self < rhs
    }

    fn bit_and(self, rhs: i8) -> (r: i8) {
        self & rhs
    }

    fn bit_or(self, rhs: i8) -> (r: i8) {
        self | rhs
    }

    fn bit_xor(self, rhs: i8) -> (r: i8) {
        self ^ rhs
    }
}

impl CheckedArith for i8 {
    fn checked_add(self, rhs: i8) -> (r: Option<i8>) {
        <i8>::checked_add(self, rhs)
    }

    fn checked_sub(self, rhs: i8) -> (r: Option<i8>) {
        <i8>::checked_sub(self, rhs)
    }

    fn checked_mul(self, rhs: i8) -> (r: Option<i8>) {
        <i8>::checked_mul(self, rhs)
    }

    fn checked_div(self, rhs: i8) -> (r: Option<i8>) {
        <i8>::checked_div(self, rhs)
    }

    fn checked_rem(self, rhs: i8) -> (r: Option<i8>) {
        if rhs != 0 {
            proof {
                lemma_trunc_div_rem(self as int, rhs as int, i8::MIN as int, i8::MAX as int);
            }
        }
        <i8>::checked_rem(self, rhs)
    }

    fn checked_neg(self) -> (r: Option<i8>) {
        if self == i8::MIN {
            None
        } else {
            Some(-self)
        }
    }

    fn checked_shl(self, n: u32) -> (r: Option<i8>) {
        if n < 8 {
            Some(self << n)
        } else {
            None
        }
    }

    fn checked_shr(self, n: u32) -> (r: Option<i8>) {
        if n < 8 {
            Some(self >> n)
        } else {
            None
        }
    }
}

impl BuiltinInt for i16 {
    open spec fn bits() -> u32 {
        16
    }

    open spec fn shl_bits(self, n: u32) -> i16 {
        self << n
    }

    open spec fn shr_bits(self, n: u32) -> i16 {
        self >> n
    }

    open spec fn as_int(self) -> int {
        self as int
    }

    open spec fn from_int(i: int) -> i16 {
        i as i16
    }

    open spec fn min_int() -> int {
        i16::MIN as int
    }

    open spec fn max_int() -> int {
        i16::MAX as int
    }

    open spec fn and_bits(self, rhs: i16) -> i16 {
        self & rhs
    }

    open spec fn or_bits(self, rhs: i16) -> i16 {
        self | rhs
    }

    open spec fn xor_bits(self, rhs: i16) -> i16 {
        self ^ rhs
    }

    proof fn lemma_from_int(i: int) {
    }

    fn int_eq(self, rhs: i16) -> (r: bool) {
        self == rhs
    }

    fn int_lt(self, rhs: i16) -> (r: bool) {
        self < rhs
    }

    fn bit_and(self, rhs: i16) -> (r: i16) {
        self & rhs
    }

    fn bit_or(self, rhs: i16) -> (r: i16) {
        self | rhs
    }

    fn bit_xor(self, rhs: i16) -> (r: i16) {
        self ^ rhs
    }
}

impl CheckedArith for i16 {
    fn checked_add(self, rhs: i16) -> (r: Option<i16>) {
        <i16>::checked_add(self, rhs)
    }

    fn checked_sub(self, rhs: i16) -> (r: Option<i16>) {
        <i16>::checked_sub(self, rhs)
    }

    fn checked_mul(self, rhs: i16) -> (r: Option<i16>) {
        <i16>::checked_mul(self, rhs)
    }

    fn checked_div(self, rhs: i16) -> (r: Option<i16>) {
        <i16>::checked_div(self, rhs)
    }

    fn checked_rem(self, rhs: i16) -> (r: Option<i16>) {
        if rhs != 0 {
            proof {
                lemma_trunc_div_rem(self as int, rhs as int, i16::MIN as int, i16::MAX as int);
            }
        }
        <i16>::checked_rem(self, rhs)
    }

    fn checked_neg(self) -> (r: Option<i16>) {
        if self == i16::MIN {
            None
        } else {
            Some(-self)
        }
    }

    fn checked_shl(self, n: u32) -> (r: Option<i16>) {
        if n < 16 {
            Some(self << n)
        } else {
            None
        }
    }

    fn checked_shr(self, n: u32) -> (r: Option<i16>) {
        if n < 16 {
            Some(self >> n)
        } else {
            None
        }
    }
}

impl BuiltinInt for i32 {
    open spec fn bits() -> u32 {
        32
    }

    open spec fn shl_bits(self, n: u32) -> i32 {
        self << n
    }

    open spec fn shr_bits(self, n: u32) -> i32 {
        self >> n
    }

    open spec fn as_int(self) -> int {
        self as int
    }

    open spec fn from_int(i: int) -> i32 {
        i as i32
    }

    open spec fn min_int() -> int {
        i32::MIN as int
    }

    open spec fn max_int() -> int {
        i32::MAX as int
    }

    open spec fn and_bits(self, rhs: i32) -> i32 {
        self & rhs
    }

    open spec fn or_bits(self, rhs: i32) -> i32 {
        self | rhs
    }

    open spec fn xor_bits(self, rhs: i32) -> i32 {
        self ^ rhs
    }

    proof fn lemma_from_int(i: int) {
    }

    fn int_eq(self, rhs: i32) -> (r: bool) {
        self == rhs
    }

    fn int_lt(self, rhs: i32) -> (r: bool) {
        self < rhs
    }

    fn bit_and(self, rhs: i32) -> (r: i32) {
        self & rhs
    }

    fn bit_or(self, rhs: i32) -> (r: i32) {
        self | rhs
    }

    fn bit_xor(self, rhs: i32) -> (r: i32) {
        self ^ rhs
    }
}

impl CheckedArith for i32 {
    fn checked_add(self, rhs: i32) -> (r: Option<i32>) {
        <i32>::checked_add(self, rhs)
    }

    fn checked_sub(self, rhs: i32) -> (r: Option<i32>) {
        <i32>::checked_sub(self, rhs)
    }

    fn checked_mul(self, rhs: i32) -> (r: Option<i32>) {
        <i32>::checked_mul(self, rhs)
    }

    fn checked_div(self, rhs: i32) -> (r: Option<i32>) {
        <i32>::checked_div(self, rhs)
    }

    fn checked_rem(self, rhs: i32) -> (r: Option<i32>) {
        if rhs != 0 {
            proof {
                lemma_trunc_div_rem(self as int, rhs as int, i32::MIN as int, i32::MAX as int);
            }
        }
        <i32>::checked_rem(self, rhs)
    }

    fn checked_neg(self) -> (r: Option<i32>) {
        if self == i32::MIN {
            None
        } else {
            Some(-self)
        }
    }

    fn checked_shl(self, n: u32) -> (r: Option<i32>) {
        if n < 32 {
            Some(self << n)
        } else {
            None
        }
    }

    fn checked_shr(self, n: u32) -> (r: Option<i32>) {
        if n < 32 {
            Some(self >> n)
        } else {
            None
        }
    }
}

impl BuiltinInt for i64 {
    open spec fn bits() -> u32 {
        64
    }

    open spec fn shl_bits(self, n: u32) -> i64 {
        self << n
    }

    open spec fn shr_bits(self, n: u32) -> i64 {
        self >> n
    }

    open spec fn as_int(self) -> int {
        self as int
    }

    open spec fn from_int(i: int) -> i64 {
        i as i64
    }

    open spec fn min_int() -> int {
        i64::MIN as int
    }

    open spec fn max_int() -> int {
        i64::MAX as int
    }

    open spec fn and_bits(self, rhs: i64) -> i64 {
        self & rhs
    }

    open spec fn or_bits(self, rhs: i64) -> i64 {
        self | rhs
    }

    open spec fn xor_bits(self, rhs: i64) -> i64 {
        self ^ rhs
    }

    proof fn lemma_from_int(i: int) {
    }

    fn int_eq(self, rhs: i64) -> (r: bool) {
        self == rhs
    }

    fn int_lt(self, rhs: i64) -> (r: bool) {
        self < rhs
    }

    fn bit_and(self, rhs: i64) -> (r: i64) {
        self & rhs
    }

    fn bit_or(self, rhs: i64) -> (r: i64) {
        self | rhs
    }

    fn bit_xor(self, rhs: i64) -> (r: i64) {
        self ^ rhs
    }
}

impl CheckedArith for i64 {
    fn checked_add(self, rhs: i64) -> (r: Option<i64>) {
        <i64>::checked_add(self, rhs)
    }

    fn checked_sub(self, rhs: i64) -> (r: Option<i64>) {
        <i64>::checked_sub(self, rhs)
    }

    fn checked_mul(self, rhs: i64) -> (r: Option<i64>) {
        <i64>::checked_mul(self, rhs)
    }

    fn checked_div(self, rhs: i64) -> (r: Option<i64>) {
        <i64>::checked_div(self, rhs)
    }

    fn checked_rem(self, rhs: i64) -> (r: Option<i64>) {
        if rhs != 0 {
            proof {
                lemma_trunc_div_rem(self as int, rhs as int, i64::MIN as int, i64::MAX as int);
            }
        }
        <i64>::checked_rem(self, rhs)
    }

    fn checked_neg(self) -> (r: Option<i64>) {
        if self == i64::MIN {
            None
        } else {
            Some(-self)
        }
    }

    fn checked_shl(self, n: u32) -> (r: Option<i64>) {
        if n < 64 {
            Some(self << n)
        } else {
            None
        }
    }

    fn checked_shr(self, n: u32) -> (r: Option<i64>) {
        if n < 64 {
            Some(self >> n)
        } else {
            None
        }
    }
}

impl BuiltinInt for i128 {
    open spec fn bits() -> u32 {
        128
    }

    open spec fn shl_bits(self, n: u32) -> i128 {
        self << n
    }

    open spec fn shr_bits(self, n: u32) -> i128 {
        self >> n
    }

    open spec fn as_int(self) -> int {
        self as int
    }

    open spec fn from_int(i: int) -> i128 {
        i as i128
    }

    open spec fn min_int() -> int {
        i128::MIN as int
    }

    open spec fn max_int() -> int {
        i128::MAX as int
    }

    open spec fn and_bits(self, rhs: i128) -> i128 {
        self & rhs
    }

    open spec fn or_bits(self, rhs: i128) -> i128 {
        self | rhs
    }

    open spec fn xor_bits(self, rhs: i128) -> i128 {
        self ^ rhs
    }

    proof fn lemma_from_int(i: int) {
    }

    fn int_eq(self, rhs: i128) -> (r: bool) {
        self == rhs
    }

    fn int_lt(self, rhs: i128) -> (r: bool) {
        self < rhs
    }

    fn bit_and(self, rhs: i128) -> (r: i128) {
        self & rhs
    }

    fn bit_or(self, rhs: i128) -> (r: i128) {
        self | rhs
    }

    fn bit_xor(self, rhs: i128) -> (r: i128) {
        self ^ rhs
    }
}

impl CheckedArith for i128 {
    fn checked_add(self, rhs: i128) -> (r: Option<i128>) {
        <i128>::checked_add(self, rhs)
    }

    fn checked_sub(self, rhs: i128) -> (r: Option<i128>) {
        <i128>::checked_sub(self, rhs)
    }

    fn checked_mul(self, rhs: i128) -> (r: Option<i128>) {
        <i128>::checked_mul(self, rhs)
    }

    fn checked_div(self, rhs: i128) -> (r: Option<i128>) {
        <i128>::checked_div(self, rhs)
    }

    fn checked_rem(self, rhs: i128) -> (r: Option<i128>) {
        if rhs != 0 {
            proof {
                lemma_trunc_div_rem(self as int, rhs as int, i128::MIN as int, i128::MAX as int);
            }
        }
        <i128>::checked_rem(self, rhs)
    }

    fn checked_neg(self) -> (r: Option<i128>) {
        if self == i128::MIN {
            None
        } else {
            Some(-self)
        }
    }

    fn checked_shl(self, n: u32) -> (r: Option<i128>) {
        if n < 128 {
            Some(self << n)
        } else {
            None
        }
    }

    fn checked_shr(self, n: u32) -> (r: Option<i128>) {
        if n < 128 {
            Some(self >> n)
        } else {
            None
        }
    }
}

} // verus!
