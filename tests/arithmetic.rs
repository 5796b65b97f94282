use checked_num::{CheckedI128, CheckedI32, CheckedI8, CheckedNum, CheckedU16, CheckedU32, CheckedU64, CheckedU8};

#[test]
fn normal_add() {
    let a = CheckedU16::new(123);
    let b = 234;

    assert_eq!(a + b, 123 + b)
}

#[test]
fn overflowing_ne() {
    let a = CheckedU8::new(u8::MAX);
    let b = 1;

    // overflowed values should not be equal
    assert_ne!(a + b, a + b)
}

#[test]
fn underflow() {
    let a = CheckedI8::new(i8::MIN);
    let b = 1;

    assert!((a - b).did_overflow());
}

#[test]
fn bit_or() {
    let a = CheckedU8::new(0b11000011);

    let b_raw = 0b11110011;
    let b_wrapped = CheckedU8::new(b_raw);

    assert_eq!(a | b_raw, 0b11110011);
    assert_eq!(a | b_wrapped, 0b11110011);
}

#[test]
fn add_past_u8_max_poisons() {
    let r = CheckedU8::new(200) + 100u8;
    assert!(r.did_overflow());
    assert_eq!(r.as_option(), None);
}

#[test]
fn add_then_mul_u16() {
    let a = CheckedU16::new(123) + 210u16;
    assert_eq!(a.as_option(), Some(333));
    let b = a * 2u16;
    assert_eq!(b.as_option(), Some(666));
    assert_eq!((CheckedU16::new(123) + 210) * 2, 666);
}

#[test]
fn sub_below_i8_min_poisons() {
    let r = CheckedI8::new(i8::MIN) - 1i8;
    assert!(r.did_overflow());
}

#[test]
fn two_poisoned_results_differ() {
    let x = CheckedU8::new(255) + 1u8;
    let y = CheckedU8::new(255) + 1u8;
    assert!(!(x == y));
    assert!(!(x == x));
}

#[test]
fn chain_overflows_midway() {
    let a = CheckedI8::new(100);
    let b = CheckedI8::new(100);
    let c = CheckedI8::new(100);
    assert!((a + b - c).did_overflow());
}

#[test]
fn add_within_range_matches_plain_sum() {
    for (a, b) in [(0u64, 0u64), (1, 2), (u64::MAX - 5, 5), (40, u64::MAX - 40)] {
        let r = CheckedU64::new(a) + b;
        assert_eq!(r.as_option(), Some(a + b));
        assert_eq!(r, a + b);
        assert_eq!(CheckedU64::new(a) + CheckedU64::new(b), a + b);
    }
}

#[test]
fn max_plus_one_overflows_each_width() {
    assert!((CheckedNum::new(u8::MAX) + 1u8).did_overflow());
    assert!((CheckedNum::new(u16::MAX) + 1u16).did_overflow());
    assert!((CheckedNum::new(u32::MAX) + 1u32).did_overflow());
    assert!((CheckedNum::new(u64::MAX) + 1u64).did_overflow());
    assert!((CheckedNum::new(u128::MAX) + 1u128).did_overflow());
    assert!((CheckedNum::new(i8::MAX) + 1i8).did_overflow());
    assert!((CheckedNum::new(i16::MAX) + 1i16).did_overflow());
    assert!((CheckedNum::new(i32::MAX) + 1i32).did_overflow());
    assert!((CheckedNum::new(i64::MAX) + 1i64).did_overflow());
    assert!((CheckedNum::new(i128::MAX) + 1i128).did_overflow());
}

#[test]
fn mul_overflow_poisons() {
    assert!((CheckedU8::new(16) * 16u8).did_overflow());
    assert_eq!(CheckedU8::new(15) * 17u8, 255u8);
    assert!((CheckedI8::new(-128) * -1i8).did_overflow());
}

#[test]
fn div_truncates_toward_zero() {
    assert_eq!((CheckedI32::new(7) / 2i32).as_option(), Some(3));
    assert_eq!((CheckedI32::new(-7) / 2i32).as_option(), Some(-3));
    assert_eq!((CheckedI32::new(7) / CheckedI32::new(-2)).as_option(), Some(-3));
    assert_eq!((CheckedI32::new(-7) / -2i32).as_option(), Some(3));
    assert_eq!((CheckedU8::new(200) / 7u8).as_option(), Some(28));
}

#[test]
fn div_by_zero_poisons() {
    assert!((CheckedU32::new(5) / 0u32).did_overflow());
    assert!((CheckedI32::new(5) / CheckedI32::new(0)).did_overflow());
}

#[test]
fn div_min_by_minus_one_poisons() {
    assert!((CheckedI8::new(i8::MIN) / -1i8).did_overflow());
    assert!((CheckedI128::new(i128::MIN) / -1i128).did_overflow());
}

#[test]
fn rem_takes_sign_of_dividend() {
    assert_eq!((CheckedI32::new(7) % 3i32).as_option(), Some(1));
    assert_eq!((CheckedI32::new(-7) % 3i32).as_option(), Some(-1));
    assert_eq!((CheckedI32::new(7) % -3i32).as_option(), Some(1));
    assert_eq!((CheckedI32::new(-7) % CheckedI32::new(-3)).as_option(), Some(-1));
    assert_eq!((CheckedU8::new(200) % 7u8).as_option(), Some(4));
}

#[test]
fn rem_poisons_where_division_does() {
    assert!((CheckedU8::new(3) % 0u8).did_overflow());
    assert!((CheckedI8::new(i8::MIN) % -1i8).did_overflow());
    assert_eq!((CheckedI8::new(i8::MIN) % 1i8).as_option(), Some(0));
}

#[test]
fn neg_of_signed_and_unsigned() {
    assert_eq!((-CheckedI8::new(5)).as_option(), Some(-5));
    assert_eq!((-CheckedI8::new(i8::MAX)).as_option(), Some(-127));
    assert!((-CheckedI8::new(i8::MIN)).did_overflow());
    assert!((-CheckedU8::new(1)).did_overflow());
    assert_eq!((-CheckedU8::new(0)).as_option(), Some(0));
    assert!((-(CheckedU8::new(255) + 1u8)).did_overflow());
}
