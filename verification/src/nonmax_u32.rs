use vstd::prelude::*;

use crate::error::ParseIntError;
use crate::error::TryFromIntError;
use crate::parse::is_unsigned_dec_string;
use crate::parse::unsigned_dec_value;
use core::cmp::Ordering;
use vstd::std_specs::cmp::PartialOrdSpec;
use vstd::std_specs::ops::BitAndSpec;

verus! {

/// An unsigned 32-bit integer that is known not to equal `u32::MAX`.
///
/// The value is stored biased, as `value ^ u32::MAX`, so the excluded
/// logical value `u32::MAX` corresponds to the all-zero stored pattern,
/// which an instance never holds.
#[derive(Clone, Copy, PartialEq, Eq, Hash, Structural)]
pub struct NonMaxU32(u32);

/// The XOR bias is an involution: applying it twice gives the value back,
/// and it exchanges the excluded value and zero.
proof fn lemma_bias_u32(v: u32)
    ensures
        (v ^ u32::MAX) ^ u32::MAX == v,
        v ^ u32::MAX == 0 <==> v == u32::MAX,
        v ^ u32::MAX == u32::MAX <==> v == 0,
{
    let m: u32 = u32::MAX;
    assert(((v ^ m) ^ m == v) && ((v ^ m == 0) <==> v == m) && ((v ^ m == m) <==> v == 0))
        by (bit_vector);
}

/// Bitwise AND can only clear bits, never set one: the result never
/// exceeds either operand, so it stays below the excluded maximum as soon
/// as one operand does.
proof fn lemma_and_keeps_nonmax_u32(a: u32, b: u32)
    ensures
        b != u32::MAX ==> (a & b) != u32::MAX,
        a != u32::MAX ==> (a & b) != u32::MAX,
{
    assert(a & b <= b && a & b <= a) by (bit_vector);
}

impl View for NonMaxU32 {
    type V = u32;

    /// The logical value: the stored bias undone.
    closed spec fn view(&self) -> u32 {
        self.0 ^ u32::MAX
    }
}

impl NonMaxU32 {
    #[verifier::type_invariant]
    spec fn inv(self) -> bool {
        self.0 != 0
    }

    /// The instance whose logical value is `v`, in its biased stored form.
    pub closed spec fn encode(v: u32) -> Self {
        NonMaxU32(v ^ u32::MAX)
    }

    /// Creates a non-max integer if the given value is not the maximum value.
    pub fn new(value: u32) -> (r: Option<Self>)
        ensures
            r is Some <==> value != u32::MAX,
            r is Some ==> r == Some(Self::encode(value)) && r.unwrap()@ == value,
    {
        proof {
            lemma_bias_u32(value);
        }
        let stored = value ^ u32::MAX;
        if stored == 0 {
            None
        } else {
            Some(NonMaxU32(stored))
        }
    }

    /// Creates a non-max integer from a value known not to be the maximum.
    pub fn new_unchecked(value: u32) -> (r: Self)
        requires
            value != u32::MAX,
        ensures
            r == Self::encode(value),
            r@ == value,
    {
        proof {
            lemma_bias_u32(value);
        }
        NonMaxU32(value ^ u32::MAX)
    }

    /// Returns the value as a primitive type.
    pub fn get(&self) -> (r: u32)
        ensures
            r == self@,
            r != u32::MAX,
    {
        proof {
            use_type_invariant(self);
            lemma_bias_u32(self.0);
        }
        self.0 ^ u32::MAX
    }

    /// The non-max integer with value zero.
    pub fn zero() -> (r: Self)
        ensures
            r@ == 0,
    {
        Self::new_unchecked(0)
    }

    /// The non-max integer with value one.
    pub fn one() -> (r: Self)
        ensures
            r@ == 1,
    {
        Self::new_unchecked(1)
    }

    /// The largest legal non-max integer: one less than the primitive maximum.
    pub fn max() -> (r: Self)
        ensures
            r@ == u32::MAX - 1,
    {
        Self::new_unchecked(u32::MAX - 1)
    }

    /// Parses the textual form as the underlying primitive, then applies
    /// the checked constructor. Fails when the text does not lexically
    /// denote a value of the primitive, or denotes the excluded maximum.
    pub fn from_str(value: &str) -> (r: Result<Self, ParseIntError>)
        ensures
            r is Ok <==> is_unsigned_dec_string(value@) && unsigned_dec_value(value@)
                < u32::MAX,
            r is Ok ==> r.unwrap()@ == unsigned_dec_value(value@),
    {
        match crate::parse::parse_u32(value) {
            Some(v) => match Self::new(v) {
                Some(nm) => Ok(nm),
                None => Err(ParseIntError),
            },
            None => Err(ParseIntError),
        }
    }

    /// Replaces the value by its bitwise AND with another non-max integer.
    pub fn bitand_assign(&mut self, rhs: NonMaxU32)
        ensures
            final(self)@ == old(self)@ & rhs@,
    {
        proof {
            lemma_bias_u32(old(self)@ & rhs@);
        }
        *self = *self & rhs;
    }

    /// Replaces the value by its bitwise AND with a plain primitive; sound
    /// because the non-max side already excludes the maximum.
    pub fn bitand_assign_primitive(&mut self, rhs: u32)
        ensures
            final(self)@ == old(self)@ & rhs,
    {
        proof {
            lemma_bias_u32(old(self)@ & rhs);
        }
        *self = *self & rhs;
    }
}

impl Default for NonMaxU32 {
    /// The default non-max integer has value zero.
    fn default() -> (r: Self)
        ensures
            r@ == 0,
    {
        Self::new_unchecked(0)
    }
}

impl PartialOrd for NonMaxU32 {
    /// Compares logical values. The biased stored form is order-reversing,
    /// so instances must compare by recovered value, never by stored bits.
    fn partial_cmp(&self, other: &Self) -> (r: Option<Ordering>) {
        let a = self.get();
        let b = other.get();
        if a < b {
            Some(Ordering::Less)
        } else if a == b {
            Some(Ordering::Equal)
        } else {
            Some(Ordering::Greater)
        }
    }
}

impl vstd::std_specs::cmp::PartialOrdSpecImpl for NonMaxU32 {
    open spec fn obeys_partial_cmp_spec() -> bool {
        true
    }

    open spec fn partial_cmp_spec(&self, other: &Self) -> Option<Ordering> {
        if self@ < other@ {
            Some(Ordering::Less)
        } else if self@ == other@ {
            Some(Ordering::Equal)
        } else {
            Some(Ordering::Greater)
        }
    }
}

impl core::ops::BitAnd<NonMaxU32> for NonMaxU32 {
    type Output = NonMaxU32;

    /// Sound without rechecking: the right operand excludes the maximum,
    /// and AND can only clear bits.
    fn bitand(self, rhs: NonMaxU32) -> (r: NonMaxU32) {
        proof {
            use_type_invariant(self);
            use_type_invariant(rhs);
            lemma_bias_u32(self.0);
            lemma_bias_u32(rhs.0);
            lemma_and_keeps_nonmax_u32(self@, rhs@);
        }
        NonMaxU32::new_unchecked(self.get() & rhs.get())
    }
}

impl vstd::std_specs::ops::BitAndSpecImpl<NonMaxU32> for NonMaxU32 {
    open spec fn obeys_bitand_spec() -> bool {
        true
    }

    open spec fn bitand_req(self, rhs: NonMaxU32) -> bool {
        true
    }

    open spec fn bitand_spec(self, rhs: NonMaxU32) -> NonMaxU32 {
        NonMaxU32::encode(self@ & rhs@)
    }
}

impl core::ops::BitAnd<NonMaxU32> for u32 {
    type Output = NonMaxU32;

    /// Sound for unsigned types: the non-max operand already excludes the
    /// all-ones maximum, and AND cannot set bits it does not have.
    fn bitand(self, rhs: NonMaxU32) -> (r: NonMaxU32) {
        proof {
            use_type_invariant(rhs);
            lemma_bias_u32(rhs.0);
            lemma_and_keeps_nonmax_u32(self, rhs@);
        }
        NonMaxU32::new_unchecked(self & rhs.get())
    }
}

impl vstd::std_specs::ops::BitAndSpecImpl<NonMaxU32> for u32 {
    open spec fn obeys_bitand_spec() -> bool {
        true
    }

    open spec fn bitand_req(self, rhs: NonMaxU32) -> bool {
        true
    }

    open spec fn bitand_spec(self, rhs: NonMaxU32) -> NonMaxU32 {
        NonMaxU32::encode(self & rhs@)
    }
}

impl core::ops::BitAnd<u32> for NonMaxU32 {
    type Output = NonMaxU32;

    /// Sound for unsigned types: the non-max operand already excludes the
    /// all-ones maximum, and AND cannot set bits it does not have.
    fn bitand(self, rhs: u32) -> (r: NonMaxU32) {
        proof {
            use_type_invariant(self);
            lemma_bias_u32(self.0);
            lemma_and_keeps_nonmax_u32(self@, rhs);
        }
        NonMaxU32::new_unchecked(self.get() & rhs)
    }
}

impl vstd::std_specs::ops::BitAndSpecImpl<u32> for NonMaxU32 {
    open spec fn obeys_bitand_spec() -> bool {
        true
    }

    open spec fn bitand_req(self, rhs: u32) -> bool {
        true
    }

    open spec fn bitand_spec(self, rhs: u32) -> NonMaxU32 {
        NonMaxU32::encode(self@ & rhs)
    }
}

impl core::str::FromStr for NonMaxU32 {
    type Err = ParseIntError;

    fn from_str(value: &str) -> Result<Self, ParseIntError> {
        NonMaxU32::from_str(value)
    }
}

impl From<NonMaxU32> for u32 {
    /// Unwraps to the logical value.
    fn from(value: NonMaxU32) -> (r: u32) {
        value.get()
    }
}

impl vstd::std_specs::convert::FromSpecImpl<NonMaxU32> for u32 {
    open spec fn obeys_from_spec() -> bool {
        true
    }

    open spec fn from_spec(v: NonMaxU32) -> u32 {
        v@
    }
}

impl TryFrom<u32> for NonMaxU32 {
    type Error = TryFromIntError;

    /// The fallible same-width conversion: exactly the checked constructor,
    /// failing when the value equals the primitive maximum.
    fn try_from(value: u32) -> (r: Result<NonMaxU32, TryFromIntError>) {
        match NonMaxU32::new(value) {
            Some(nm) => Ok(nm),
            None => Err(TryFromIntError),
        }
    }
}

impl vstd::std_specs::convert::TryFromSpecImpl<u32> for NonMaxU32 {
    open spec fn obeys_try_from_spec() -> bool {
        true
    }

    open spec fn try_from_spec(v: u32) -> Result<NonMaxU32, TryFromIntError> {
        if v == u32::MAX {
            Err(TryFromIntError)
        } else {
            Ok(NonMaxU32::encode(v))
        }
    }
}

/// The biased encoding is lossless: encoding a value and reading the
/// logical value back yields the value again.
pub proof fn lemma_encode_value_u32(v: u32)
    ensures
        NonMaxU32::encode(v)@ == v,
{
    lemma_bias_u32(v);
}

/// Structural equality coincides with equality of logical values: the
/// biased encoding is injective.
pub proof fn lemma_eq_matches_value_u32(a: NonMaxU32, b: NonMaxU32)
    ensures
        a == b <==> a@ == b@,
{
    lemma_bias_u32(a.0);
    lemma_bias_u32(b.0);
}

/// Ordering law: comparison of non-max integers matches comparison of
/// their logical values, despite the order-reversing internal bias.
pub proof fn lemma_ordering_matches_value_u32(a: NonMaxU32, b: NonMaxU32)
    ensures
        a.partial_cmp_spec(&b) == Some(Ordering::Less) <==> a@ < b@,
        a.partial_cmp_spec(&b) == Some(Ordering::Equal) <==> a@ == b@,
        a.partial_cmp_spec(&b) == Some(Ordering::Greater) <==> a@ > b@,
{
}

/// AND soundness: the bitwise AND of two non-max integers has the AND of
/// the logical values as its logical value, and that value is itself a
/// legal non-max value: the result never needs a runtime check.
pub proof fn lemma_bitand_sound_u32(a: NonMaxU32, b: NonMaxU32)
    requires
        a@ != u32::MAX,
        b@ != u32::MAX,
    ensures
        a.bitand_spec(b)@ == a@ & b@,
        a@ & b@ != u32::MAX,
{
    lemma_and_keeps_nonmax_u32(a@, b@);
    lemma_bias_u32(a@ & b@);
}

} // verus!
