use nonmax::NonMaxI16;
use nonmax::NonMaxI8;
use nonmax::NonMaxU8;
use nonmax::NonMaxUsize;
use nonmax::ParseIntError;

#[test]
fn parse_unsigned_scenario() {
    let parsed: NonMaxU8 = "19".parse().unwrap();
    assert_eq!(parsed.get(), 19);

    let out_of_range: Result<NonMaxU8, ParseIntError> = "255".parse();
    assert!(out_of_range.is_err());
}

#[test]
fn parse_round_trip_values() {
    for value in [0u8, 19, u8::MAX - 1] {
        let text = value.to_string();
        let nm: NonMaxU8 = text.parse().unwrap();
        assert_eq!(nm.get(), value);
    }
    for value in [i16::MIN, -1i16, 0, 19, i16::MAX - 1] {
        let text = value.to_string();
        let nm: NonMaxI16 = text.parse().unwrap();
        assert_eq!(nm.get(), value);
    }
    for value in [0usize, 19, usize::MAX - 1] {
        let text = value.to_string();
        let nm: NonMaxUsize = text.parse().unwrap();
        assert_eq!(nm.get(), value);
    }
}

#[test]
fn parse_rejects_maximum_text() {
    assert!(u8::MAX.to_string().parse::<NonMaxU8>().is_err());
    assert!(i8::MAX.to_string().parse::<NonMaxI8>().is_err());
    assert!(usize::MAX.to_string().parse::<NonMaxUsize>().is_err());
}

#[test]
fn parse_inherent_matches_trait() {
    let by_method = NonMaxU8::from_str("42").unwrap();
    let by_trait: NonMaxU8 = "42".parse().unwrap();
    assert_eq!(by_method.get(), by_trait.get());
}

#[test]
fn parse_accepts_leading_plus_and_zeros() {
    assert_eq!(NonMaxU8::from_str("+19").unwrap().get(), 19);
    assert_eq!(NonMaxU8::from_str("0019").unwrap().get(), 19);
    assert_eq!(NonMaxI8::from_str("-128").unwrap().get(), -128);
    assert_eq!(NonMaxI8::from_str("+1").unwrap().get(), 1);
}

#[test]
fn parse_rejects_malformed_text() {
    assert!(NonMaxU8::from_str("").is_err());
    assert!(NonMaxU8::from_str("+").is_err());
    assert!(NonMaxU8::from_str("-1").is_err());
    assert!(NonMaxU8::from_str("1a").is_err());
    assert!(NonMaxU8::from_str(" 1").is_err());
    assert!(NonMaxU8::from_str("256").is_err());
    assert!(NonMaxI8::from_str("--1").is_err());
    assert!(NonMaxI8::from_str("-129").is_err());
    assert!(NonMaxI8::from_str("128").is_err());
}

#[test]
fn parse_error_value() {
    match NonMaxU8::from_str("octopus") {
        Err(error) => assert_eq!(error, ParseIntError),
        Ok(_) => panic!("text that is no number must be rejected"),
    }
    let relabeled = ParseIntError::from("octopus".parse::<u8>().unwrap_err());
    assert_eq!(relabeled, ParseIntError);
}
