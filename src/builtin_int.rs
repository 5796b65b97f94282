use vstd::prelude::*;

verus! {

/// Quotient of `x` by `d` rounded toward zero, as integer division does on
/// built-in integers.
pub open spec fn trunc_div(x: int, d: int) -> int {
    let q = abs(x) / abs(d);
    if (x < 0) == (d < 0) {
        q
    } else {
        -q
    }
}

/// Remainder that goes with `trunc_div`: it takes the sign of `x`.
pub open spec fn trunc_rem(x: int, d: int) -> int {
    x - d * trunc_div(x, d)
}

/// The size of `x`, without its sign.
pub open spec fn abs(x: int) -> int {
    if x < 0 {
        -x
    } else {
        x
    }
}

/// The remainder of a truncated division has the sign of the dividend and is
/// smaller than the divisor in size; in a range of integers that is closed
/// under negation but for its lowest value, the quotient leaves the range only
/// for that lowest value divided by minus one.
pub proof fn lemma_trunc_div_rem(x: int, d: int, lo: int, hi: int)
    requires
        d != 0,
        lo <= x <= hi,
        lo <= d <= hi,
        0 < hi,
        lo == 0 || lo == -hi - 1,
    ensures
        trunc_rem(x, d) == (if x < 0 {
            -(abs(x) % abs(d))
        } else {
            abs(x) % abs(d)
        }),
        lo <= trunc_rem(x, d) <= hi,
        (lo <= trunc_div(x, d) <= hi) <==> !(x == lo && d == -1 && lo < 0),
{
    let ax = abs(x);
    let ad = abs(d);
    let q = ax / ad;
    let m = ax % ad;
    vstd::arithmetic::div_mod::lemma_fundamental_div_mod(ax, ad);
    assert(0 <= m < ad);
    assert(q >= 0) by {
        vstd::arithmetic::div_mod::lemma_div_pos_is_pos(ax, ad);
    }
    assert(q <= ax) by {
        vstd::arithmetic::div_mod::lemma_div_is_ordered_by_denominator(ax, 1, ad);
        vstd::arithmetic::div_mod::lemma_div_basics(ax);
    }
    let t = trunc_div(x, d);
    if x == 0 {
        assert(t == 0);
        assert(d * t == 0);
    } else if x < 0 && d < 0 {
        assert(d * t == -(ad * q)) by (nonlinear_arith)
            requires
                d == -ad,
                t == q,
        ;
    } else if x < 0 {
        assert(d * t == -(ad * q)) by (nonlinear_arith)
            requires
                d == ad,
                t == -q,
        ;
    } else if d < 0 {
        assert(d * t == ad * q) by (nonlinear_arith)
            requires
                d == -ad,
                t == -q,
        ;
    } else {
        assert(d * t == ad * q);
    }
    if x == lo && d == -1 && lo < 0 {
        assert(ad == 1);
        assert(q == ax) by {
            vstd::arithmetic::div_mod::lemma_div_basics(ax);
        }
    }
    if lo <= trunc_div(x, d) <= hi {
    } else {
        assert((x < 0) == (d < 0));
        assert(x < 0 && q == hi + 1);
        assert(ad * q + m == q);
        assert(ad == 1) by (nonlinear_arith)
            requires
                ad * q + m == q,
                q > 0,
                m >= 0,
                ad >= 1,
        ;
    }
}

/// A built-in integer type that a `CheckedNum` can hold or that can stand as
/// the right-hand operand of a mixed operation.
///
/// The set of types is closed: this library implements the trait for the
/// signed and unsigned integers of 8, 16, 32, 64 and 128 bits, and for nothing
/// else. Wrapping types are left out on purpose, since checking for overflow
/// on a value that wraps would hide the overflow the check is there to find.
pub trait BuiltinInt: Copy + Sized {
    /// The integer that a value stands for.
    spec fn as_int(self) -> int;

    /// The value of the type that stands for `i`, where `i` is in range.
    spec fn from_int(i: int) -> Self;

    /// The smallest integer the type can hold.
    spec fn min_int() -> int;

    /// The largest integer the type can hold.
    spec fn max_int() -> int;

    /// Width of the type in bits.
    spec fn bits() -> u32;

    /// The bits of `self` moved left by `n`, where `n` is below the width.
    spec fn shl_bits(self, n: u32) -> Self;

    /// The bits of `self` moved right by `n` (arithmetically on a signed
    /// type), where `n` is below the width.
    spec fn shr_bits(self, n: u32) -> Self;

    /// Bitwise and.
    spec fn and_bits(self, rhs: Self) -> Self;

    /// Bitwise or.
    spec fn or_bits(self, rhs: Self) -> Self;

    /// Bitwise exclusive or.
    spec fn xor_bits(self, rhs: Self) -> Self;

    /// Each integer in range has a value that stands for it.
    proof fn lemma_from_int(i: int)
        requires
            Self::min_int() <= i <= Self::max_int(),
        ensures
            Self::from_int(i).as_int() == i,
    ;

    /// Whether the two values are equal.
    fn int_eq(self, rhs: Self) -> (r: bool)
        ensures
            r == (self.as_int() == rhs.as_int()),
    ;

    /// Whether `self` is below `rhs`.
    fn int_lt(self, rhs: Self) -> (r: bool)
        ensures
            r == (self.as_int() < rhs.as_int()),
    ;

    /// Bitwise and, which cannot overflow.
    fn bit_and(self, rhs: Self) -> (r: Self)
        ensures
            r == self.and_bits(rhs),
    ;

    /// Bitwise or, which cannot overflow.
    fn bit_or(self, rhs: Self) -> (r: Self)
        ensures
            r == self.or_bits(rhs),
    ;

    /// Bitwise exclusive or, which cannot overflow.
    fn bit_xor(self, rhs: Self) -> (r: Self)
        ensures
            r == self.xor_bits(rhs),
    ;
}

/// `Some` of the value that stands for `i` where the type can hold `i`, and
/// `None` where it cannot.
pub open spec fn fit<T: BuiltinInt>(i: int) -> Option<T> {
    if T::min_int() <= i <= T::max_int() {
        Some(T::from_int(i))
    } else {
        None
    }
}

/// What a checked addition gives.
pub open spec fn add_result<T: BuiltinInt>(a: T, b: T) -> Option<T> {
    fit::<T>(a.as_int() + b.as_int())
}

/// What a checked subtraction gives.
pub open spec fn sub_result<T: BuiltinInt>(a: T, b: T) -> Option<T> {
    fit::<T>(a.as_int() - b.as_int())
}

/// What a checked multiplication gives.
pub open spec fn mul_result<T: BuiltinInt>(a: T, b: T) -> Option<T> {
    fit::<T>(a.as_int() * b.as_int())
}

/// What a checked negation gives.
pub open spec fn neg_result<T: BuiltinInt>(a: T) -> Option<T> {
    fit::<T>(-a.as_int())
}

/// What a checked division gives: `None` on a zero divisor or where the
/// quotient is out of range.
pub open spec fn div_result<T: BuiltinInt>(a: T, b: T) -> Option<T> {
    if b.as_int() == 0 {
        None
    } else {
        fit::<T>(trunc_div(a.as_int(), b.as_int()))
    }
}

/// What a checked remainder gives: `None` exactly where the matching
/// division gives `None`.
pub open spec fn rem_result<T: BuiltinInt>(a: T, b: T) -> Option<T> {
    if div_result(a, b) is None {
        None
    } else {
        fit::<T>(trunc_rem(a.as_int(), b.as_int()))
    }
}

/// What a checked left shift gives: `None` where the amount is not below
/// the width.
pub open spec fn shl_result<T: BuiltinInt>(a: T, n: u32) -> Option<T> {
    if n < T::bits() {
        Some(a.shl_bits(n))
    } else {
        None
    }
}

/// What a checked right shift gives: `None` where the amount is not below
/// the width.
pub open spec fn shr_result<T: BuiltinInt>(a: T, n: u32) -> Option<T> {
    if n < T::bits() {
        Some(a.shr_bits(n))
    } else {
        None
    }
}

/// The overflow-checked primitives of a built-in integer type, which report
/// overflow, a zero divisor or an out-of-range shift as `None`.
pub trait CheckedArith: BuiltinInt {
    /// Sum, or `None` where it does not fit the type.
    fn checked_add(self, rhs: Self) -> (r: Option<Self>)
        ensures
            r == add_result(self, rhs),
    ;

    /// Difference, or `None` where it does not fit the type.
    fn checked_sub(self, rhs: Self) -> (r: Option<Self>)
        ensures
            r == sub_result(self, rhs),
    ;

    /// Product, or `None` where it does not fit the type.
    fn checked_mul(self, rhs: Self) -> (r: Option<Self>)
        ensures
            r == mul_result(self, rhs),
    ;

    /// Quotient rounded toward zero, or `None` on a zero divisor or where it
    /// does not fit the type.
    fn checked_div(self, rhs: Self) -> (r: Option<Self>)
        ensures
            r == div_result(self, rhs),
    ;

    /// Remainder of the division rounded toward zero, or `None` where that
    /// division gives `None`.
    fn checked_rem(self, rhs: Self) -> (r: Option<Self>)
        ensures
            r == rem_result(self, rhs),
    ;

    /// Negation, or `None` where it does not fit the type (any nonzero
    /// value of an unsigned type).
    fn checked_neg(self) -> (r: Option<Self>)
        ensures
            r == neg_result(self),
    ;

    /// Left shift, or `None` where the amount is not below the width.
    fn checked_shl(self, n: u32) -> (r: Option<Self>)
        ensures
            r == shl_result(self, n),
    ;

    /// Right shift, or `None` where the amount is not below the width.
    fn checked_shr(self, n: u32) -> (r: Option<Self>)
        ensures
            r == shr_result(self, n),
    ;
}

} // verus!
