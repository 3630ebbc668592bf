use nonmax::NonMaxI128;
use nonmax::NonMaxI16;
use nonmax::NonMaxI64;
use nonmax::NonMaxIsize;
use nonmax::NonMaxU16;
use nonmax::NonMaxU64;
use nonmax::NonMaxU8;
use nonmax::NonMaxUsize;
use nonmax::TryFromIntError;

#[test]
fn unwrap_to_primitive() {
    let zero = NonMaxU8::try_from(0u8).unwrap();
    let back = u8::from(zero);
    assert_eq!(back, 0);

    let nm = nonmax::NonMaxI32::new(-5).unwrap();
    assert_eq!(i32::from(nm), -5);
}

#[test]
fn try_from_rejects_maximum() {
    assert!(NonMaxU8::try_from(u8::MAX).is_err());
    match NonMaxU8::try_from(u8::MAX) {
        Err(error) => assert_eq!(error, TryFromIntError),
        Ok(_) => panic!("the maximum must be rejected"),
    }
    assert!(NonMaxI16::try_from(i16::MAX).is_err());
    assert!(NonMaxU8::try_from(u8::MAX - 1).is_ok());
}

#[test]
fn widen_nonmax_exhaustive_u8() {
    for value in 0u8..u8::MAX {
        let small = NonMaxU8::new(value).unwrap();
        assert_eq!(NonMaxU16::from(small).get(), value as u16);
        assert_eq!(NonMaxI16::from(small).get(), value as i16);
        assert_eq!(NonMaxUsize::from(small).get(), value as usize);
        assert_eq!(NonMaxIsize::from(small).get(), value as isize);
    }
}

#[test]
fn widen_nonmax_spot_checks() {
    let u = NonMaxU16::new(u16::MAX - 1).unwrap();
    assert_eq!(NonMaxU64::from(u).get(), (u16::MAX - 1) as u64);
    let s = nonmax::NonMaxI8::new(i8::MIN).unwrap();
    assert_eq!(NonMaxI64::from(s).get(), i8::MIN as i64);
    assert_eq!(NonMaxI128::from(s).get(), i8::MIN as i128);
    let w = nonmax::NonMaxU64::new(u64::MAX - 1).unwrap();
    assert_eq!(nonmax::NonMaxU128::from(w).get(), (u64::MAX - 1) as u128);
    assert_eq!(NonMaxI128::from(w).get(), (u64::MAX - 1) as i128);
}

#[test]
fn widen_primitive_sources() {
    assert_eq!(NonMaxU16::from(255u8).get(), 255);
    assert_eq!(NonMaxU64::from(u32::MAX).get(), u32::MAX as u64);
    assert_eq!(NonMaxI16::from(u8::MAX).get(), 255);
    assert_eq!(NonMaxI16::from(i8::MIN).get(), -128);
    assert_eq!(NonMaxUsize::from(u16::MAX).get(), u16::MAX as usize);
    assert_eq!(NonMaxIsize::from(i16::MIN).get(), i16::MIN as isize);
    assert_eq!(NonMaxI128::from(u64::MAX).get(), u64::MAX as i128);
}

#[test]
fn try_from_error_converts_from_std() {
    let std_err = u8::try_from(300i32).unwrap_err();
    assert_eq!(TryFromIntError::from(std_err), TryFromIntError);
}
