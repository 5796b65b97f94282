use core::cmp::Ordering;

use checked_num::{CheckedI16, CheckedI8, CheckedNum, CheckedU32, CheckedU8};

fn poisoned_u8() -> CheckedU8 {
    CheckedU8::new(u8::MAX) + 1u8
}

#[test]
fn shifts_in_and_out_of_range() {
    assert_eq!((CheckedU8::new(0b0000_0011) << 3u32).as_option(), Some(0b0001_1000));
    assert_eq!((CheckedU8::new(0b1100_0000) << 1u32).as_option(), Some(0b1000_0000));
    assert_eq!((CheckedU8::new(0b1100_0000) >> CheckedU32::new(6)).as_option(), Some(0b11));
    assert_eq!((CheckedI8::new(-8) >> 1u32).as_option(), Some(-4));
    assert!((CheckedU8::new(1) << 8u32).did_overflow());
    assert!((CheckedU8::new(1) >> 8u32).did_overflow());
    assert!((CheckedI16::new(1) << CheckedU32::new(16)).did_overflow());
}

#[test]
fn shift_amount_poison_spreads() {
    let amount = CheckedU32::new(u32::MAX) + 1u32;
    assert!((CheckedU8::new(1) << amount).did_overflow());
    assert!((CheckedU8::new(1) >> amount).did_overflow());
}

#[test]
fn poison_absorbs_on_either_side() {
    let p = poisoned_u8();
    let v = CheckedU8::new(3);
    assert!((p + v).did_overflow() && (v + p).did_overflow() && (p + 0u8).did_overflow());
    assert!((p - v).did_overflow() && (v - p).did_overflow() && (p - 0u8).did_overflow());
    assert!((p * v).did_overflow() && (v * p).did_overflow() && (p * 1u8).did_overflow());
    assert!((p / v).did_overflow() && (v / p).did_overflow() && (p / 1u8).did_overflow());
    assert!((p % v).did_overflow() && (v % p).did_overflow() && (p % 1u8).did_overflow());
    assert!((p << 1u32).did_overflow() && (p >> CheckedU32::new(1)).did_overflow());
    assert!((p & v).did_overflow() && (v | p).did_overflow() && (p ^ 0u8).did_overflow());
}

#[test]
fn bitwise_on_valid_values() {
    let a = CheckedU8::new(0b1010_1100);
    let b = CheckedU8::new(0b0110_0101);
    assert_eq!((a & b).as_option(), Some(0b0010_0100));
    assert_eq!((a | b).as_option(), Some(0b1110_1101));
    assert_eq!((a ^ b).as_option(), Some(0b1100_1001));
    assert_eq!((a ^ 0b1111_1111u8).as_option(), Some(0b0101_0011));
    assert_eq!((CheckedI8::new(-1) & 0x0f_i8).as_option(), Some(0x0f));
}

#[test]
fn ordering_of_valid_values() {
    let a = CheckedI8::new(-3);
    let b = CheckedI8::new(4);
    assert_eq!(a.partial_cmp(&b), Some(Ordering::Less));
    assert_eq!(b.partial_cmp(&a), Some(Ordering::Greater));
    assert_eq!(a.partial_cmp(&-3i8), Some(Ordering::Equal));
    assert!(a < b && b > a && a <= -3i8 && a >= -3i8);
}

#[test]
fn poisoned_is_incomparable() {
    let p = poisoned_u8();
    let v = CheckedU8::new(7);
    for other in [v, p] {
        assert_eq!(p.partial_cmp(&other), None);
        assert_eq!(other.partial_cmp(&p), None);
        assert!(!(p < other) && !(p > other) && !(p == other));
        assert!(!(other < p) && !(other > p) && !(other == p));
    }
    assert_eq!(p.partial_cmp(&7u8), None);
    assert!(!(p < 7u8) && !(p > 7u8) && !(p <= 7u8) && !(p >= 7u8));
}

#[test]
fn equality_with_plain_and_checked() {
    let a = CheckedU32::new(9);
    assert!(a == 9u32);
    assert!(a != 10u32);
    assert!(a == CheckedU32::new(9));
    assert!(a != CheckedU32::new(8));
    assert!(poisoned_u8() != 0u8);
}

#[test]
fn drawing_items_drains_the_value() {
    let mut v = CheckedU8::new(42);
    assert_eq!(v.next(), Some(42));
    assert_eq!(v.next(), None);
    assert!(v.did_overflow());
    let mut p = poisoned_u8();
    assert_eq!(p.next(), None);
}

#[test]
fn construction_from_plain_and_option() {
    let a: CheckedU8 = CheckedNum::from(5u8);
    assert_eq!(a.as_option(), Some(5));
    let b: CheckedU8 = CheckedNum::from(Some(6u8));
    assert_eq!(b.as_option(), Some(6));
    let c: CheckedU8 = CheckedNum::from(None);
    assert!(c.did_overflow());
    assert!(!CheckedU8::new(0).did_overflow());
}
