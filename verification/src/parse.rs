use vstd::prelude::*;

verus! {

/// True when `c` is an ASCII decimal digit.
pub open spec fn is_dec_digit(c: char) -> bool {
    48 <= c as u32 && c as u32 <= 57
}

/// The numeric value of an ASCII decimal digit.
pub open spec fn dec_digit_value(c: char) -> int {
    c as u32 - 48
}

/// True when every character of `s` is an ASCII decimal digit.
pub open spec fn all_dec_digits(s: Seq<char>) -> bool {
    forall|i: int| 0 <= i < s.len() ==> is_dec_digit(#[trigger] s[i])
}

/// The value of a sequence of decimal digits, most significant first.
pub open spec fn dec_digits_value(s: Seq<char>) -> int
    decreases s.len(),
{
    if s.len() == 0 {
        0
    } else {
        dec_digits_value(s.drop_last()) * 10 + dec_digit_value(s.last())
    }
}

/// The digits of an unsigned decimal string: an optional leading plus
/// sign removed.
pub open spec fn unsigned_digits(s: Seq<char>) -> Seq<char> {
    if s.len() > 0 && s[0] == '+' {
        s.subrange(1, s.len() as int)
    } else {
        s
    }
}

/// True when `s` is a well-formed unsigned decimal string: an optional
/// leading plus sign followed by one or more ASCII decimal digits.
pub open spec fn is_unsigned_dec_string(s: Seq<char>) -> bool {
    unsigned_digits(s).len() > 0 && all_dec_digits(unsigned_digits(s))
}

/// The value denoted by an unsigned decimal string.
pub open spec fn unsigned_dec_value(s: Seq<char>) -> int {
    dec_digits_value(unsigned_digits(s))
}

/// The digits of a signed decimal string: an optional leading plus or
/// minus sign removed.
pub open spec fn signed_digits(s: Seq<char>) -> Seq<char> {
    if s.len() > 0 && (s[0] == '+' || s[0] == '-') {
        s.subrange(1, s.len() as int)
    } else {
        s
    }
}

/// True when `s` is a well-formed signed decimal string: an optional
/// leading plus or minus sign followed by one or more ASCII decimal digits.
pub open spec fn is_signed_dec_string(s: Seq<char>) -> bool {
    signed_digits(s).len() > 0 && all_dec_digits(signed_digits(s))
}

/// The value denoted by a signed decimal string.
pub open spec fn signed_dec_value(s: Seq<char>) -> int {
    if s.len() > 0 && s[0] == '-' {
        -dec_digits_value(signed_digits(s))
    } else {
        dec_digits_value(signed_digits(s))
    }
}

/// Relies on `u8`'s `FromStr` implementation, through `str::parse`: the
/// string parses exactly when it is an optional plus sign followed by one
/// or more ASCII decimal digits whose value fits the type, and the result
/// is that value.
#[verifier::external_body]
pub(crate) fn parse_u8(s: &str) -> (r: Option<u8>)
    ensures
        (r matches Some(v) ==> is_unsigned_dec_string(s@) && v == unsigned_dec_value(s@)),
        (r is None ==> !(is_unsigned_dec_string(s@) && unsigned_dec_value(s@) <= u8::MAX)),
{
    s.parse::<u8>().ok()
}

/// Relies on `u16`'s `FromStr` implementation, through `str::parse`: the
/// string parses exactly when it is an optional plus sign followed by one
/// or more ASCII decimal digits whose value fits the type, and the result
/// is that value.
#[verifier::external_body]
pub(crate) fn parse_u16(s: &str) -> (r: Option<u16>)
    ensures
        (r matches Some(v) ==> is_unsigned_dec_string(s@) && v == unsigned_dec_value(s@)),
        (r is None ==> !(is_unsigned_dec_string(s@) && unsigned_dec_value(s@) <= u16::MAX)),
{
    s.parse::<u16>().ok()
}

/// Relies on `u32`'s `FromStr` implementation, through `str::parse`: the
/// string parses exactly when it is an optional plus sign followed by one
/// or more ASCII decimal digits whose value fits the type, and the result
/// is that value.
#[verifier::external_body]
pub(crate) fn parse_u32(s: &str) -> (r: Option<u32>)
    ensures
        (r matches Some(v) ==> is_unsigned_dec_string(s@) && v == unsigned_dec_value(s@)),
        (r is None ==> !(is_unsigned_dec_string(s@) && unsigned_dec_value(s@) <= u32::MAX)),
{
    s.parse::<u32>().ok()
}

/// Relies on `u64`'s `FromStr` implementation, through `str::parse`: the
/// string parses exactly when it is an optional plus sign followed by one
/// or more ASCII decimal digits whose value fits the type, and the result
/// is that value.
#[verifier::external_body]
pub(crate) fn parse_u64(s: &str) -> (r: Option<u64>)
    ensures
        (r matches Some(v) ==> is_unsigned_dec_string(s@) && v == unsigned_dec_value(s@)),
        (r is None ==> !(is_unsigned_dec_string(s@) && unsigned_dec_value(s@) <= u64::MAX)),
{
    s.parse::<u64>().ok()
}

/// Relies on `u128`'s `FromStr` implementation, through `str::parse`: the
/// string parses exactly when it is an optional plus sign followed by one
/// or more ASCII decimal digits whose value fits the type, and the result
/// is that value.
#[verifier::external_body]
pub(crate) fn parse_u128(s: &str) -> (r: Option<u128>)
    ensures
        (r matches Some(v) ==> is_unsigned_dec_string(s@) && v == unsigned_dec_value(s@)),
        (r is None ==> !(is_unsigned_dec_string(s@) && unsigned_dec_value(s@) <= u128::MAX)),
{
    s.parse::<u128>().ok()
}

/// Relies on `usize`'s `FromStr` implementation, through `str::parse`: the
/// string parses exactly when it is an optional plus sign followed by one
/// or more ASCII decimal digits whose value fits the type, and the result
/// is that value.
#[verifier::external_body]
pub(crate) fn parse_usize(s: &str) -> (r: Option<usize>)
    ensures
        (r matches Some(v) ==> is_unsigned_dec_string(s@) && v == unsigned_dec_value(s@)),
        (r is None ==> !(is_unsigned_dec_string(s@) && unsigned_dec_value(s@) <= usize::MAX)),
{
    s.parse::<usize>().ok()
}

/// Relies on `i8`'s `FromStr` implementation, through `str::parse`: the
/// string parses exactly when it is an optional plus or minus sign followed
/// by one or more ASCII decimal digits denoting a value that fits the type,
/// and the result is that value.
#[verifier::external_body]
pub(crate) fn parse_i8(s: &str) -> (r: Option<i8>)
    ensures
        (r matches Some(v) ==> is_signed_dec_string(s@) && v == signed_dec_value(s@)),
        (r is None ==> !(is_signed_dec_string(s@) && i8::MIN <= signed_dec_value(s@)
            <= i8::MAX)),
{
    s.parse::<i8>().ok()
}

/// Relies on `i16`'s `FromStr` implementation, through `str::parse`: the
/// string parses exactly when it is an optional plus or minus sign followed
/// by one or more ASCII decimal digits denoting a value that fits the type,
/// and the result is that value.
#[verifier::external_body]
pub(crate) fn parse_i16(s: &str) -> (r: Option<i16>)
    ensures
        (r matches Some(v) ==> is_signed_dec_string(s@) && v == signed_dec_value(s@)),
        (r is None ==> !(is_signed_dec_string(s@) && i16::MIN <= signed_dec_value(s@)
            <= i16::MAX)),
{
    s.parse::<i16>().ok()
}

/// Relies on `i32`'s `FromStr` implementation, through `str::parse`: the
/// string parses exactly when it is an optional plus or minus sign followed
/// by one or more ASCII decimal digits denoting a value that fits the type,
/// and the result is that value.
#[verifier::external_body]
pub(crate) fn parse_i32(s: &str) -> (r: Option<i32>)
    ensures
        (r matches Some(v) ==> is_signed_dec_string(s@) && v == signed_dec_value(s@)),
        (r is None ==> !(is_signed_dec_string(s@) && i32::MIN <= signed_dec_value(s@)
            <= i32::MAX)),
{
    s.parse::<i32>().ok()
}

/// Relies on `i64`'s `FromStr` implementation, through `str::parse`: the
/// string parses exactly when it is an optional plus or minus sign followed
/// by one or more ASCII decimal digits denoting a value that fits the type,
/// and the result is that value.
#[verifier::external_body]
pub(crate) fn parse_i64(s: &str) -> (r: Option<i64>)
    ensures
        (r matches Some(v) ==> is_signed_dec_string(s@) && v == signed_dec_value(s@)),
        (r is None ==> !(is_signed_dec_string(s@) && i64::MIN <= signed_dec_value(s@)
            <= i64::MAX)),
{
    s.parse::<i64>().ok()
}

/// Relies on `i128`'s `FromStr` implementation, through `str::parse`: the
/// string parses exactly when it is an optional plus or minus sign followed
/// by one or more ASCII decimal digits denoting a value that fits the type,
/// and the result is that value.
#[verifier::external_body]
pub(crate) fn parse_i128(s: &str) -> (r: Option<i128>)
    ensures
        (r matches Some(v) ==> is_signed_dec_string(s@) && v == signed_dec_value(s@)),
        (r is None ==> !(is_signed_dec_string(s@) && i128::MIN <= signed_dec_value(s@)
            <= i128::MAX)),
{
    s.parse::<i128>().ok()
}

/// Relies on `isize`'s `FromStr` implementation, through `str::parse`: the
/// string parses exactly when it is an optional plus or minus sign followed
/// by one or more ASCII decimal digits denoting a value that fits the type,
/// and the result is that value.
#[verifier::external_body]
pub(crate) fn parse_isize(s: &str) -> (r: Option<isize>)
    ensures
        (r matches Some(v) ==> is_signed_dec_string(s@) && v == signed_dec_value(s@)),
        (r is None ==> !(is_signed_dec_string(s@) && isize::MIN <= signed_dec_value(s@)
            <= isize::MAX)),
{
    s.parse::<isize>().ok()
}

} // verus!
