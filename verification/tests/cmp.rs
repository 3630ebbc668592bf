use nonmax::NonMaxI8;
use nonmax::NonMaxU8;
use nonmax::NonMaxU64;

#[test]
fn cmp_small_values() {
    let zero = NonMaxU8::new(0).unwrap();
    let one = NonMaxU8::new(1).unwrap();
    let two = NonMaxU8::new(2).unwrap();
    assert!(zero < one);
    assert!(one < two);
    assert!(two > one);
    assert!(one > zero);
}

#[test]
fn ordering_matches_primitive_exhaustive_u8() {
    for a in 0u8..u8::MAX {
        let nma = NonMaxU8::new(a).unwrap();
        for b in 0u8..u8::MAX {
            let nmb = NonMaxU8::new(b).unwrap();
            assert_eq!(a < b, nma < nmb);
            assert_eq!(a <= b, nma <= nmb);
            assert_eq!(a == b, nma == nmb);
        }
    }
}

#[test]
fn ordering_matches_primitive_exhaustive_i8() {
    for a in i8::MIN..i8::MAX {
        let nma = NonMaxI8::new(a).unwrap();
        for b in i8::MIN..i8::MAX {
            let nmb = NonMaxI8::new(b).unwrap();
            assert_eq!(a < b, nma < nmb);
            assert_eq!(a >= b, nma >= nmb);
        }
    }
}

#[test]
fn ordering_despite_reversed_storage() {
    let small = NonMaxU64::new(1).unwrap();
    let large = NonMaxU64::new(u64::MAX - 1).unwrap();
    assert!(small < large);
    assert!(NonMaxI8::new(-1).unwrap() < NonMaxI8::new(0).unwrap());
    assert!(NonMaxI8::new(i8::MIN).unwrap() < NonMaxI8::new(i8::MAX - 1).unwrap());
}
