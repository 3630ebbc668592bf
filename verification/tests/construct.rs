use core::mem::size_of;

use nonmax::NonMaxI128;
use nonmax::NonMaxI16;
use nonmax::NonMaxI32;
use nonmax::NonMaxI64;
use nonmax::NonMaxI8;
use nonmax::NonMaxIsize;
use nonmax::NonMaxU128;
use nonmax::NonMaxU16;
use nonmax::NonMaxU32;
use nonmax::NonMaxU64;
use nonmax::NonMaxU8;
use nonmax::NonMaxUsize;

#[test]
fn construct_unsigned_scenario() {
    let value = NonMaxU8::new(16).expect("16 should definitely fit in a u8");
    assert_eq!(value.get(), 16);

    let oops = NonMaxU8::new(255);
    assert!(oops.is_none());
}

#[test]
fn construct_signed_minimum_scenario() {
    let signed = NonMaxI16::new(i16::MIN).expect("minimum values are fine");
    assert_eq!(signed.get(), i16::MIN);
}

#[test]
fn round_trip_exhaustive_u8() {
    for value in 0u8..u8::MAX {
        assert_eq!(NonMaxU8::new(value).unwrap().get(), value);
    }
}

#[test]
fn round_trip_exhaustive_i8() {
    for value in i8::MIN..i8::MAX {
        assert_eq!(NonMaxI8::new(value).unwrap().get(), value);
    }
}

#[test]
fn round_trip_spot_checks() {
    assert_eq!(NonMaxU16::new(0).unwrap().get(), 0);
    assert_eq!(NonMaxU32::new(0xdead_beee).unwrap().get(), 0xdead_beee);
    assert_eq!(NonMaxU64::new(u64::MAX - 1).unwrap().get(), u64::MAX - 1);
    assert_eq!(NonMaxU128::new(1 << 100).unwrap().get(), 1 << 100);
    assert_eq!(NonMaxUsize::new(usize::MAX - 1).unwrap().get(), usize::MAX - 1);
    assert_eq!(NonMaxI16::new(-1).unwrap().get(), -1);
    assert_eq!(NonMaxI32::new(i32::MIN).unwrap().get(), i32::MIN);
    assert_eq!(NonMaxI64::new(i64::MIN).unwrap().get(), i64::MIN);
    assert_eq!(NonMaxI128::new(i128::MIN).unwrap().get(), i128::MIN);
    assert_eq!(NonMaxIsize::new(isize::MIN).unwrap().get(), isize::MIN);
}

#[test]
fn rejects_maximum_every_type() {
    assert!(NonMaxU8::new(u8::MAX).is_none());
    assert!(NonMaxU16::new(u16::MAX).is_none());
    assert!(NonMaxU32::new(u32::MAX).is_none());
    assert!(NonMaxU64::new(u64::MAX).is_none());
    assert!(NonMaxU128::new(u128::MAX).is_none());
    assert!(NonMaxUsize::new(usize::MAX).is_none());
    assert!(NonMaxI8::new(i8::MAX).is_none());
    assert!(NonMaxI16::new(i16::MAX).is_none());
    assert!(NonMaxI32::new(i32::MAX).is_none());
    assert!(NonMaxI64::new(i64::MAX).is_none());
    assert!(NonMaxI128::new(i128::MAX).is_none());
    assert!(NonMaxIsize::new(isize::MAX).is_none());
}

#[test]
fn new_unchecked_matches_new() {
    assert!(NonMaxU8::new_unchecked(16) == NonMaxU8::new(16).unwrap());
    assert!(NonMaxI8::new_unchecked(-7) == NonMaxI8::new(-7).unwrap());
}

#[test]
fn sizes_match_primitive() {
    assert_eq!(size_of::<u8>(), size_of::<NonMaxU8>());
    assert_eq!(size_of::<u16>(), size_of::<NonMaxU16>());
    assert_eq!(size_of::<u32>(), size_of::<NonMaxU32>());
    assert_eq!(size_of::<u64>(), size_of::<NonMaxU64>());
    assert_eq!(size_of::<u128>(), size_of::<NonMaxU128>());
    assert_eq!(size_of::<usize>(), size_of::<NonMaxUsize>());
    assert_eq!(size_of::<i8>(), size_of::<NonMaxI8>());
    assert_eq!(size_of::<i16>(), size_of::<NonMaxI16>());
    assert_eq!(size_of::<i32>(), size_of::<NonMaxI32>());
    assert_eq!(size_of::<i64>(), size_of::<NonMaxI64>());
    assert_eq!(size_of::<i128>(), size_of::<NonMaxI128>());
    assert_eq!(size_of::<isize>(), size_of::<NonMaxIsize>());
}

#[test]
fn constants_unsigned() {
    assert_eq!(NonMaxU8::zero().get(), 0);
    assert_eq!(NonMaxU8::one().get(), 1);
    assert_eq!(NonMaxU8::max().get(), u8::MAX - 1);
    assert_eq!(NonMaxU64::zero().get(), 0);
    assert_eq!(NonMaxU64::one().get(), 1);
    assert_eq!(NonMaxU64::max().get(), u64::MAX - 1);
    assert_eq!(NonMaxUsize::max().get(), usize::MAX - 1);
}

#[test]
fn constants_signed() {
    assert_eq!(NonMaxI8::zero().get(), 0);
    assert_eq!(NonMaxI8::one().get(), 1);
    assert_eq!(NonMaxI8::max().get(), i8::MAX - 1);
    assert_eq!(NonMaxI128::zero().get(), 0);
    assert_eq!(NonMaxI128::one().get(), 1);
    assert_eq!(NonMaxI128::max().get(), i128::MAX - 1);
    assert_eq!(NonMaxIsize::max().get(), isize::MAX - 1);
}

#[test]
fn default_is_zero() {
    assert_eq!(NonMaxU8::default().get(), 0);
    assert_eq!(NonMaxI64::default().get(), 0);
}

#[test]
fn equality_matches_logical_values() {
    let a = NonMaxU8::new(19).unwrap();
    let b = NonMaxU8::new(19).unwrap();
    let c = NonMaxU8::new(20).unwrap();
    assert!(a == b);
    assert!(a != c);
}
