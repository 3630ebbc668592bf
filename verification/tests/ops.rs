use nonmax::NonMaxI8;
use nonmax::NonMaxU8;
use nonmax::NonMaxU16;

#[test]
fn bitand_unsigned() {
    for left in 0u8..=u8::MAX {
        let nmleft = NonMaxU8::new(left);
        for right in 0u8..=u8::MAX {
            let nmright = NonMaxU8::new(right);
            let vanilla: u8 = left & right;

            if let (Some(nmleft), Some(nmright)) = (nmleft, nmright) {
                assert_eq!(vanilla, (nmleft & nmright).get());
            }
            if let Some(nmleft) = nmleft {
                assert_eq!(vanilla, (nmleft & right).get());
            }
            if let Some(nmright) = nmright {
                assert_eq!(vanilla, (left & nmright).get());
            }
        }
    }
}

#[test]
fn bitand_signed() {
    for left in i8::MIN..=i8::MAX {
        let nmleft = NonMaxI8::new(left);
        for right in i8::MIN..=i8::MAX {
            let nmright = NonMaxI8::new(right);
            let vanilla: i8 = left & right;
            if let (Some(nmleft), Some(nmright)) = (nmleft, nmright) {
                assert_eq!(vanilla, (nmleft & nmright).get());
            }
        }
    }
}

#[test]
fn bitand_masking_scenario() {
    let a = NonMaxU8::new(0b1010_1010).unwrap();
    let b = NonMaxU8::new(0b0101_0101).unwrap();
    assert_eq!((a & b).get(), 0);
}

#[test]
fn bitand_wider_types() {
    let a = NonMaxU16::new(0xff00).unwrap();
    let b = NonMaxU16::new(0x0ff0).unwrap();
    assert_eq!((a & b).get(), 0x0f00);
    let c = nonmax::NonMaxI64::new(-1).unwrap();
    let d = nonmax::NonMaxI64::new(i64::MAX - 1).unwrap();
    assert_eq!((c & d).get(), i64::MAX - 1);
}

#[test]
fn bitand_assign_nonmax() {
    let mut a = NonMaxU8::new(0b1100_1100).unwrap();
    a.bitand_assign(NonMaxU8::new(0b1010_1010).unwrap());
    assert_eq!(a.get(), 0b1000_1000);

    let mut s = NonMaxI8::new(0b0101_0101).unwrap();
    s.bitand_assign(NonMaxI8::new(0b0011_0011).unwrap());
    assert_eq!(s.get(), 0b0001_0001);
}

#[test]
fn bitand_assign_primitive() {
    let mut a = NonMaxU8::new(0b1100_1100).unwrap();
    a.bitand_assign_primitive(0xff);
    assert_eq!(a.get(), 0b1100_1100);
    a.bitand_assign_primitive(0b0000_1111);
    assert_eq!(a.get(), 0b0000_1100);
}
