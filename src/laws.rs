use vstd::prelude::*;

use core::cmp::Ordering;

use vstd::std_specs::cmp::{PartialEqSpec, PartialOrdSpec};
use vstd::std_specs::ops::{
    AddSpec, BitAndSpec, BitOrSpec, BitXorSpec, DivSpec, MulSpec, RemSpec, ShlSpec, ShrSpec,
    SubSpec,
};

use crate::builtin_int::{BuiltinInt, CheckedArith};
use crate::checked_num::{group_checked_num, CheckedNum};

verus! {

broadcast use group_checked_num;

/// Where the sum of `a` and `b` fits the type, adding `b` to a checked `a`
/// gives a valid value equal to the plain sum.
pub proof fn law_add_agrees_with_plain<T: CheckedArith>(a: T, b: T)
    requires
        T::min_int() <= a.as_int() + b.as_int() <= T::max_int(),
    ensures
        CheckedNum::from_view(Some(a)).add_spec(b)@ == Some(T::from_int(a.as_int() + b.as_int())),
        CheckedNum::from_view(Some(a)).add_spec(b).eq_spec(&T::from_int(a.as_int() + b.as_int())),
        CheckedNum::from_view(Some(a)).add_spec(CheckedNum::from_view(Some(b))) == CheckedNum::from_view(Some(a)).add_spec(b),
{
    T::lemma_from_int(a.as_int() + b.as_int());
}

/// Adding one to the largest value of a type overflows.
pub proof fn law_max_plus_one_overflows<T: CheckedArith>(a: T, b: T)
    requires
        a.as_int() == T::max_int(),
        b.as_int() == 1,
    ensures
        CheckedNum::from_view(Some(a)).add_spec(b)@ is None,
{
}

/// A poisoned value is not equal to itself.
pub proof fn law_poison_irreflexive<T: CheckedArith>(x: CheckedNum<T>)
    requires
        x@ is None,
    ensures
        !x.eq_spec(&x),
{
}

/// An arithmetic or shift operation with a poisoned left operand is
/// poisoned, whatever the right operand.
pub proof fn law_poison_left_absorbs<T: CheckedArith>(
    x: CheckedNum<T>,
    y: CheckedNum<T>,
    b: T,
    s: CheckedNum<u32>,
    n: u32,
)
    requires
        x@ is None,
    ensures
        x.add_spec(y)@ is None && x.add_spec(b)@ is None,
        x.sub_spec(y)@ is None && x.sub_spec(b)@ is None,
        x.mul_spec(y)@ is None && x.mul_spec(b)@ is None,
        x.div_spec(y)@ is None && x.div_spec(b)@ is None,
        x.rem_spec(y)@ is None && x.rem_spec(b)@ is None,
        x.shl_spec(s)@ is None && x.shl_spec(n)@ is None,
        x.shr_spec(s)@ is None && x.shr_spec(n)@ is None,
{
}

/// An arithmetic or shift operation with a poisoned right operand is
/// poisoned, whatever the left operand.
pub proof fn law_poison_right_absorbs<T: CheckedArith>(
    x: CheckedNum<T>,
    y: CheckedNum<T>,
    s: CheckedNum<u32>,
)
    requires
        y@ is None,
        s@ is None,
    ensures
        x.add_spec(y)@ is None,
        x.sub_spec(y)@ is None,
        x.mul_spec(y)@ is None,
        x.div_spec(y)@ is None,
        x.rem_spec(y)@ is None,
        x.shl_spec(s)@ is None,
        x.shr_spec(s)@ is None,
{
}

/// A bare integer on the right of a binary operator gives what the same
/// integer gives once wrapped.
pub proof fn law_bare_operand_as_wrapped<T: CheckedArith>(x: CheckedNum<T>, b: T, n: u32)
    ensures
        x.add_spec(b) == x.add_spec(CheckedNum::from_view(Some(b))),
        x.sub_spec(b) == x.sub_spec(CheckedNum::from_view(Some(b))),
        x.mul_spec(b) == x.mul_spec(CheckedNum::from_view(Some(b))),
        x.div_spec(b) == x.div_spec(CheckedNum::from_view(Some(b))),
        x.rem_spec(b) == x.rem_spec(CheckedNum::from_view(Some(b))),
        x.shl_spec(n) == x.shl_spec(CheckedNum::from_view(Some(n))),
        x.shr_spec(n) == x.shr_spec(CheckedNum::from_view(Some(n))),
        x.bitand_spec(b) == x.bitand_spec(CheckedNum::from_view(Some(b))),
        x.bitor_spec(b) == x.bitor_spec(CheckedNum::from_view(Some(b))),
        x.bitxor_spec(b) == x.bitxor_spec(CheckedNum::from_view(Some(b))),
        x.eq_spec(&b) == x.eq_spec(&CheckedNum::from_view(Some(b))),
        x.partial_cmp_spec(&b) == x.partial_cmp_spec(&CheckedNum::from_view(Some(b))),
{
}

/// Bitwise operations on two valid operands are valid.
pub proof fn law_bitwise_never_poisons<T: BuiltinInt>(x: CheckedNum<T>, y: CheckedNum<T>, b: T)
    requires
        x@ is Some,
        y@ is Some,
    ensures
        x.bitand_spec(y)@ is Some && x.bitand_spec(b)@ is Some,
        x.bitor_spec(y)@ is Some && x.bitor_spec(b)@ is Some,
        x.bitxor_spec(y)@ is Some && x.bitxor_spec(b)@ is Some,
{
}

/// A poisoned value is ordered against nothing, from either side.
pub proof fn law_poison_incomparable<T: BuiltinInt>(x: CheckedNum<T>, y: CheckedNum<T>, b: T)
    requires
        x@ is None,
    ensures
        x.partial_cmp_spec(&y) is None,
        y.partial_cmp_spec(&x) is None,
        x.partial_cmp_spec(&b) is None,
        x.partial_cmp_spec(&y) != Some(Ordering::Less),
        x.partial_cmp_spec(&y) != Some(Ordering::Equal),
        x.partial_cmp_spec(&y) != Some(Ordering::Greater),
{
}

/// Drawing from a valid value yields its one item and then nothing; drawing
/// from a poisoned value yields nothing at once.
pub proof fn law_drain<T: BuiltinInt>(x: CheckedNum<T>)
    ensures
        x@ is Some ==> x.next_spec().0 == x@ && x.next_spec().1.next_spec().0 is None,
        x@ is None ==> x.next_spec().0 is None,
{
}

} // verus!
