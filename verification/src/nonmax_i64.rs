use vstd::prelude::*;

use crate::error::ParseIntError;
use crate::error::TryFromIntError;
use crate::parse::is_signed_dec_string;
use crate::parse::signed_dec_value;
use core::cmp::Ordering;
use vstd::std_specs::cmp::PartialOrdSpec;
use vstd::std_specs::ops::BitAndSpec;

verus! {

/// A signed 64-bit integer that is known not to equal `i64::MAX`.
///
/// The value is stored biased, as `value ^ i64::MAX`, so the excluded
/// logical value `i64::MAX` corresponds to the all-zero stored pattern,
/// which an instance never holds.
#[derive(Clone, Copy, PartialEq, Eq, Hash, Structural)]
pub struct NonMaxI64(i64);

/// The XOR bias is an involution: applying it twice gives the value back,
/// and it exchanges the excluded value and zero.
proof fn lemma_bias_i64(v: i64)
    ensures
        (v ^ i64::MAX) ^ i64::MAX == v,
        v ^ i64::MAX == 0 <==> v == i64::MAX,
        v ^ i64::MAX == i64::MAX <==> v == 0,
{
    let m: i64 = i64::MAX;
    assert(((v ^ m) ^ m == v) && ((v ^ m == 0) <==> v == m) && ((v ^ m == m) <==> v == 0))
        by (bit_vector);
}

/// For signed values in two's complement, AND stays below the maximum only
/// when both operands do: minus one (all bits set) on one side hands the
/// other side back unchanged, so it could reclaim the maximum.
proof fn lemma_and_keeps_nonmax_i64(a: i64, b: i64)
    ensures
        a != i64::MAX && b != i64::MAX ==> (a & b) != i64::MAX,
{
    assert((a != 0x7fff_ffff_ffff_ffffi64 && b != 0x7fff_ffff_ffff_ffffi64) ==> (a & b) != 0x7fff_ffff_ffff_ffffi64) by (bit_vector);
}

impl View for NonMaxI64 {
    type V = i64;

    /// The logical value: the stored bias undone.
    closed spec fn view(&self) -> i64 {
        self.0 ^ i64::MAX
    }
}

impl NonMaxI64 {
    #[verifier::type_invariant]
    spec fn inv(self) -> bool {
        self.0 != 0
    }

    /// The instance whose logical value is `v`, in its biased stored form.
    pub closed spec fn encode(v: i64) -> Self {
        NonMaxI64(v ^ i64::MAX)
    }

    /// Creates a non-max integer if the given value is not the maximum value.
    pub fn new(value: i64) -> (r: Option<Self>)
        ensures
            r is Some <==> value != i64::MAX,
            r is Some ==> r == Some(Self::encode(value)) && r.unwrap()@ == value,
    {
        proof {
            lemma_bias_i64(value);
        }
        let stored = value ^ i64::MAX;
        if stored == 0 {
            None
        } else {
            Some(NonMaxI64(stored))
        }
    }

    /// Creates a non-max integer from a value known not to be the maximum.
    pub fn new_unchecked(value: i64) -> (r: Self)
        requires
            value != i64::MAX,
        ensures
            r == Self::encode(value),
            r@ == value,
    {
        proof {
            lemma_bias_i64(value);
        }
        NonMaxI64(value ^ i64::MAX)
    }

    /// Returns the value as a primitive type.
    pub fn get(&self) -> (r: i64)
        ensures
            r == self@,
            r != i64::MAX,
    {
        proof {
            use_type_invariant(self);
            lemma_bias_i64(self.0);
        }
        self.0 ^ i64::MAX
    }

    /// The non-max integer with value zero.
    pub fn zero() -> (r: Self)
        ensures
            r@ == 0,
    {
        Self::new_unchecked(0)
    }

    /// The non-max integer with value one.
    pub fn one() -> (r: Self)
        ensures
            r@ == 1,
    {
        Self::new_unchecked(1)
    }

    /// The largest legal non-max integer: one less than the primitive maximum.
    pub fn max() -> (r: Self)
        ensures
            r@ == i64::MAX - 1,
    {
        Self::new_unchecked(i64::MAX - 1)
    }

    /// Parses the textual form as the underlying primitive, then applies
    /// the checked constructor. Fails when the text does not lexically
    /// denote a value of the primitive, or denotes the excluded maximum.
    pub fn from_str(value: &str) -> (r: Result<Self, ParseIntError>)
        ensures
            r is Ok <==> is_signed_dec_string(value@) && i64::MIN <= signed_dec_value(
                value@,
            ) < i64::MAX,
            r is Ok ==> r.unwrap()@ == signed_dec_value(value@),
    {
        match crate::parse::parse_i64(value) {
            Some(v) => match Self::new(v) {
                Some(nm) => Ok(nm),
                None => Err(ParseIntError),
            },
            None => Err(ParseIntError),
        }
    }

    /// Replaces the value by its bitwise AND with another non-max integer.
    pub fn bitand_assign(&mut self, rhs: NonMaxI64)
        ensures
            final(self)@ == old(self)@ & rhs@,
    {
        proof {
            lemma_bias_i64(old(self)@ & rhs@);
        }
        *self = *self & rhs;
    }
}

impl Default for NonMaxI64 {
    /// The default non-max integer has value zero.
    fn default() -> (r: Self)
        ensures
            r@ == 0,
    {
        Self::new_unchecked(0)
    }
}

impl PartialOrd for NonMaxI64 {
    /// Compares logical values. The biased stored form is order-reversing,
    /// so instances must compare by recovered value, never by stored bits.
    fn partial_cmp(&self, other: &Self) -> (r: Option<Ordering>) {
        let a = self.get();
        let b = other.get();
        if a < b {
            Some(Ordering::Less)
        } else if a == b {
            Some(Ordering::Equal)
        } else {
            Some(Ordering::Greater)
        }
    }
}

impl vstd::std_specs::cmp::PartialOrdSpecImpl for NonMaxI64 {
    open spec fn obeys_partial_cmp_spec() -> bool {
        true
    }

    open spec fn partial_cmp_spec(&self, other: &Self) -> Option<Ordering> {
        if self@ < other@ {
            Some(Ordering::Less)
        } else if self@ == other@ {
            Some(Ordering::Equal)
        } else {
            Some(Ordering::Greater)
        }
    }
}

impl core::ops::BitAnd<NonMaxI64> for NonMaxI64 {
    type Output = NonMaxI64;

    /// Sound because both operands individually exclude the maximum; a
    /// plain primitive on either side could reclaim it (minus one is all
    /// bits set in two's complement), so no mixed form is offered.
    fn bitand(self, rhs: NonMaxI64) -> (r: NonMaxI64) {
        proof {
            use_type_invariant(self);
            use_type_invariant(rhs);
            lemma_bias_i64(self.0);
            lemma_bias_i64(rhs.0);
            lemma_and_keeps_nonmax_i64(self@, rhs@);
        }
        NonMaxI64::new_unchecked(self.get() & rhs.get())
    }
}

impl vstd::std_specs::ops::BitAndSpecImpl<NonMaxI64> for NonMaxI64 {
    open spec fn obeys_bitand_spec() -> bool {
        true
    }

    open spec fn bitand_req(self, rhs: NonMaxI64) -> bool {
        true
    }

    open spec fn bitand_spec(self, rhs: NonMaxI64) -> NonMaxI64 {
        NonMaxI64::encode(self@ & rhs@)
    }
}

impl core::str::FromStr for NonMaxI64 {
    type Err = ParseIntError;

    fn from_str(value: &str) -> Result<Self, ParseIntError> {
        NonMaxI64::from_str(value)
    }
}

impl From<NonMaxI64> for i64 {
    /// Unwraps to the logical value.
    fn from(value: NonMaxI64) -> (r: i64) {
        value.get()
    }
}

impl vstd::std_specs::convert::FromSpecImpl<NonMaxI64> for i64 {
    open spec fn obeys_from_spec() -> bool {
        true
    }

    open spec fn from_spec(v: NonMaxI64) -> i64 {
        v@
    }
}

impl TryFrom<i64> for NonMaxI64 {
    type Error = TryFromIntError;

    /// The fallible same-width conversion: exactly the checked constructor,
    /// failing when the value equals the primitive maximum.
    fn try_from(value: i64) -> (r: Result<NonMaxI64, TryFromIntError>) {
        match NonMaxI64::new(value) {
            Some(nm) => Ok(nm),
            None => Err(TryFromIntError),
        }
    }
}

impl vstd::std_specs::convert::TryFromSpecImpl<i64> for NonMaxI64 {
    open spec fn obeys_try_from_spec() -> bool {
        true
    }

    open spec fn try_from_spec(v: i64) -> Result<NonMaxI64, TryFromIntError> {
        if v == i64::MAX {
            Err(TryFromIntError)
        } else {
            Ok(NonMaxI64::encode(v))
        }
    }
}

/// The biased encoding is lossless: encoding a value and reading the
/// logical value back yields the value again.
pub proof fn lemma_encode_value_i64(v: i64)
    ensures
        NonMaxI64::encode(v)@ == v,
{
    lemma_bias_i64(v);
}

/// Structural equality coincides with equality of logical values: the
/// biased encoding is injective.
pub proof fn lemma_eq_matches_value_i64(a: NonMaxI64, b: NonMaxI64)
    ensures
        a == b <==> a@ == b@,
{
    lemma_bias_i64(a.0);
    lemma_bias_i64(b.0);
}

/// Ordering law: comparison of non-max integers matches comparison of
/// their logical values, despite the order-reversing internal bias.
pub proof fn lemma_ordering_matches_value_i64(a: NonMaxI64, b: NonMaxI64)
    ensures
        a.partial_cmp_spec(&b) == Some(Ordering::Less) <==> a@ < b@,
        a.partial_cmp_spec(&b) == Some(Ordering::Equal) <==> a@ == b@,
        a.partial_cmp_spec(&b) == Some(Ordering::Greater) <==> a@ > b@,
{
}

/// AND soundness: the bitwise AND of two non-max integers has the AND of
/// the logical values as its logical value, and that value is itself a
/// legal non-max value: the result never needs a runtime check.
pub proof fn lemma_bitand_sound_i64(a: NonMaxI64, b: NonMaxI64)
    requires
        a@ != i64::MAX,
        b@ != i64::MAX,
    ensures
        a.bitand_spec(b)@ == a@ & b@,
        a@ & b@ != i64::MAX,
{
    lemma_and_keeps_nonmax_i64(a@, b@);
    lemma_bias_i64(a@ & b@);
}

} // verus!
