//! Overflow-checked numbers for safety without giving up ordinary infix
//! arithmetic.
//!
//! A `CheckedNum` holds a value of a built-in integer type, or is poisoned
//! once an operation overflowed. Poison spreads through everything computed
//! from it, so a chain such as `(CheckedU16::new(123) + 210) * 2` is checked
//! once, at the end, with `did_overflow` or `as_option`.
//!
//! A checked value must stand on the left of a mixed operation: `checked + 1`
//! is accepted, `1 + checked` is not.
use vstd::prelude::*;

mod builtin_int;
mod checked_num;
mod int_impls;
pub mod laws;

pub use builtin_int::{BuiltinInt, CheckedArith};
pub use checked_num::{group_checked_num, CheckedNum, CheckedNumTraits};

verus! {

pub type CheckedU128 = CheckedNum<u128>;

pub type CheckedU64 = CheckedNum<u64>;

pub type CheckedU32 = CheckedNum<u32>;

pub type CheckedU16 = CheckedNum<u16>;

pub type CheckedU8 = CheckedNum<u8>;

pub type CheckedI128 = CheckedNum<i128>;

pub type CheckedI64 = CheckedNum<i64>;

pub type CheckedI32 = CheckedNum<i32>;

pub type CheckedI16 = CheckedNum<i16>;

pub type CheckedI8 = CheckedNum<i8>;

} // verus!
