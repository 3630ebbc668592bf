use vstd::prelude::*;

use crate::error::ParseIntError;
use crate::error::TryFromIntError;
use crate::parse::is_unsigned_dec_string;
use crate::parse::unsigned_dec_value;
use core::cmp::Ordering;
use vstd::std_specs::cmp::PartialOrdSpec;
use vstd::std_specs::ops::BitAndSpec;

verus! {

/// An unsigned pointer-sized integer that is known not to equal `usize::MAX`.
///
/// The value is stored biased, as `value ^ usize::MAX`, so the excluded
/// logical value `usize::MAX` corresponds to the all-zero stored pattern,
/// which an instance never holds.
#[derive(Clone, Copy, PartialEq, Eq, Hash, Structural)]
pub struct NonMaxUsize(usize);

/// The XOR bias is an involution: applying it twice gives the value back,
/// and it exchanges the excluded value and zero.
proof fn lemma_bias_usize(v: usize)
    ensures
        (v ^ usize::MAX) ^ usize::MAX == v,
        v ^ usize::MAX == 0 <==> v == usize::MAX,
        v ^ usize::MAX == usize::MAX <==> v == 0,
{
    let m: usize = usize::MAX;
    assert(((v ^ m) ^ m == v) && ((v ^ m == 0) <==> v == m) && ((v ^ m == m) <==> v == 0))
        by (bit_vector);
}

/// Bitwise AND can only clear bits, never set one: the result never
/// exceeds either operand, so it stays below the excluded maximum as soon
/// as one operand does.
proof fn lemma_and_keeps_nonmax_usize(a: usize, b: usize)
    ensures
        b != usize::MAX ==> (a & b) != usize::MAX,
        a != usize::MAX ==> (a & b) != usize::MAX,
{
    assert(a & b <= b && a & b <= a) by (bit_vector);
}

impl View for NonMaxUsize {
    type V = usize;

    /// The logical value: the stored bias undone.
    closed spec fn view(&self) -> usize {
        self.0 ^ usize::MAX
    }
}

impl NonMaxUsize {
    #[verifier::type_invariant]
    spec fn inv(self) -> bool {
        self.0 != 0
    }

    /// The instance whose logical value is `v`, in its biased stored form.
    pub closed spec fn encode(v: usize) -> Self {
        NonMaxUsize(v ^ usize::MAX)
    }

    /// Creates a non-max integer if the given value is not the maximum value.
    pub fn new(value: usize) -> (r: Option<Self>)
        ensures
            r is Some <==> value != usize::MAX,
            r is Some ==> r == Some(Self::encode(value)) && r.unwrap()@ == value,
    {
        proof {
            lemma_bias_usize(value);
        }
        let stored = value ^ usize::MAX;
        if stored == 0 {
            None
        } else {
            Some(NonMaxUsize(stored))
        }
    }

    /// Creates a non-max integer from a value known not to be the maximum.
    pub fn new_unchecked(value: usize) -> (r: Self)
        requires
            value != usize::MAX,
        ensures
            r == Self::encode(value),
            r@ == value,
    {
        proof {
            lemma_bias_usize(value);
        }
        NonMaxUsize(value ^ usize::MAX)
    }

    /// Returns the value as a primitive type.
    pub fn get(&self) -> (r: usize)
        ensures
            r == self@,
            r != usize::MAX,
    {
        proof {
            use_type_invariant(self);
            lemma_bias_usize(self.0);
        }
        self.0 ^ usize::MAX
    }

    /// The non-max integer with value zero.
    pub fn zero() -> (r: Self)
        ensures
            r@ == 0,
    {
        Self::new_unchecked(0)
    }

    /// The non-max integer with value one.
    pub fn one() -> (r: Self)
        ensures
            r@ == 1,
    {
        Self::new_unchecked(1)
    }

    /// The largest legal non-max integer: one less than the primitive maximum.
    pub fn max() -> (r: Self)
        ensures
            r@ == usize::MAX - 1,
    {
        Self::new_unchecked(usize::MAX - 1)
    }

    /// Parses the textual form as the underlying primitive, then applies
    /// the checked constructor. Fails when the text does not lexically
    /// denote a value of the primitive, or denotes the excluded maximum.
    pub fn from_str(value: &str) -> (r: Result<Self, ParseIntError>)
        ensures
            r is Ok <==> is_unsigned_dec_string(value@) && unsigned_dec_value(value@)
                < usize::MAX,
            r is Ok ==> r.unwrap()@ == unsigned_dec_value(value@),
    {
        match crate::parse::parse_usize(value) {
            Some(v) => match Self::new(v) {
                Some(nm) => Ok(nm),
                None => Err(ParseIntError),
            },
            None => Err(ParseIntError),
        }
    }

    /// Replaces the value by its bitwise AND with another non-max integer.
    pub fn bitand_assign(&mut self, rhs: NonMaxUsize)
        ensures
            final(self)@ == old(self)@ & rhs@,
    {
        proof {
            lemma_bias_usize(old(self)@ & rhs@);
        }
        *self = *self & rhs;
    }

    /// Replaces the value by its bitwise AND with a plain primitive; sound
    /// because the non-max side already excludes the maximum.
    pub fn bitand_assign_primitive(&mut self, rhs: usize)
        ensures
            final(self)@ == old(self)@ & rhs,
    {
        proof {
            lemma_bias_usize(old(self)@ & rhs);
        }
        *self = *self & rhs;
    }
}

impl Default for NonMaxUsize {
    /// The default non-max integer has value zero.
    fn default() -> (r: Self)
        ensures
            r@ == 0,
    {
        Self::new_unchecked(0)
    }
}

impl PartialOrd for NonMaxUsize {
    /// Compares logical values. The biased stored form is order-reversing,
    /// so instances must compare by recovered value, never by stored bits.
    fn partial_cmp(&self, other: &Self) -> (r: Option<Ordering>) {
        let a = self.get();
        let b = other.get();
        if a < b {
            Some(Ordering::Less)
        } else if a == b {
            Some(Ordering::Equal)
        } else {
            Some(Ordering::Greater)
        }
    }
}

impl vstd::std_specs::cmp::PartialOrdSpecImpl for NonMaxUsize {
    open spec fn obeys_partial_cmp_spec() -> bool {
        true
    }

    open spec fn partial_cmp_spec(&self, other: &Self) -> Option<Ordering> {
        if self@ < other@ {
            Some(Ordering::Less)
        } else if self@ == other@ {
            Some(Ordering::Equal)
        } else {
            Some(Ordering::Greater)
        }
    }
}

impl core::ops::BitAnd<NonMaxUsize> for NonMaxUsize {
    type Output = NonMaxUsize;

    /// Sound without rechecking: the right operand excludes the maximum,
    /// and AND can only clear bits.
    fn bitand(self, rhs: NonMaxUsize) -> (r: NonMaxUsize) {
        proof {
            use_type_invariant(self);
            use_type_invariant(rhs);
            lemma_bias_usize(self.0);
            lemma_bias_usize(rhs.0);
            lemma_and_keeps_nonmax_usize(self@, rhs@);
        }
        NonMaxUsize::new_unchecked(self.get() & rhs.get())
    }
}

impl vstd::std_specs::ops::BitAndSpecImpl<NonMaxUsize> for NonMaxUsize {
    open spec fn obeys_bitand_spec() -> bool {
        true
    }

    open spec fn bitand_req(self, rhs: NonMaxUsize) -> bool {
        true
    }

    open spec fn bitand_spec(self, rhs: NonMaxUsize) -> NonMaxUsize {
        NonMaxUsize::encode(self@ & rhs@)
    }
}

impl core::ops::BitAnd<NonMaxUsize> for usize {
    type Output = NonMaxUsize;

    /// Sound for unsigned types: the non-max operand already excludes the
    /// all-ones maximum, and AND cannot set bits it does not have.
    fn bitand(self, rhs: NonMaxUsize) -> (r: NonMaxUsize) {
        proof {
            use_type_invariant(rhs);
            lemma_bias_usize(rhs.0);
            lemma_and_keeps_nonmax_usize(self, rhs@);
        }
        NonMaxUsize::new_unchecked(self & rhs.get())
    }
}

impl vstd::std_specs::ops::BitAndSpecImpl<NonMaxUsize> for usize {
    open spec fn obeys_bitand_spec() -> bool {
        true
    }

    open spec fn bitand_req(self, rhs: NonMaxUsize) -> bool {
        true
    }

    open spec fn bitand_spec(self, rhs: NonMaxUsize) -> NonMaxUsize {
        NonMaxUsize::encode(self & rhs@)
    }
}

impl core::ops::BitAnd<usize> for NonMaxUsize {
    type Output = NonMaxUsize;

    /// Sound for unsigned types: the non-max operand already excludes the
    /// all-ones maximum, and AND cannot set bits it does not have.
    fn bitand(self, rhs: usize) -> (r: NonMaxUsize) {
        proof {
            use_type_invariant(self);
            lemma_bias_usize(self.0);
            lemma_and_keeps_nonmax_usize(self@, rhs);
        }
        NonMaxUsize::new_unchecked(self.get() & rhs)
    }
}

impl vstd::std_specs::ops::BitAndSpecImpl<usize> for NonMaxUsize {
    open spec fn obeys_bitand_spec() -> bool {
        true
    }

    open spec fn bitand_req(self, rhs: usize) -> bool {
        true
    }

    open spec fn bitand_spec(self, rhs: usize) -> NonMaxUsize {
        NonMaxUsize::encode(self@ & rhs)
    }
}

impl core::str::FromStr for NonMaxUsize {
    type Err = ParseIntError;

    fn from_str(value: &str) -> Result<Self, ParseIntError> {
        NonMaxUsize::from_str(value)
    }
}

impl From<NonMaxUsize> for usize {
    /// Unwraps to the logical value.
    fn from(value: NonMaxUsize) -> (r: usize) {
        value.get()
    }
}

impl vstd::std_specs::convert::FromSpecImpl<NonMaxUsize> for usize {
    open spec fn obeys_from_spec() -> bool {
        true
    }

    open spec fn from_spec(v: NonMaxUsize) -> usize {
        v@
    }
}

impl TryFrom<usize> for NonMaxUsize {
    type Error = TryFromIntError;

    /// The fallible same-width conversion: exactly the checked constructor,
    /// failing when the value equals the primitive maximum.
    fn try_from(value: usize) -> (r: Result<NonMaxUsize, TryFromIntError>) {
        match NonMaxUsize::new(value) {
            Some(nm) => Ok(nm),
            None => Err(TryFromIntError),
        }
    }
}

impl vstd::std_specs::convert::TryFromSpecImpl<usize> for NonMaxUsize {
    open spec fn obeys_try_from_spec() -> bool {
        true
    }

    open spec fn try_from_spec(v: usize) -> Result<NonMaxUsize, TryFromIntError> {
        if v == usize::MAX {
            Err(TryFromIntError)
        } else {
            Ok(NonMaxUsize::encode(v))
        }
    }
}

/// The biased encoding is lossless: encoding a value and reading the
/// logical value back yields the value again.
pub proof fn lemma_encode_value_usize(v: usize)
    ensures
        NonMaxUsize::encode(v)@ == v,
{
    lemma_bias_usize(v);
}

/// Structural equality coincides with equality of logical values: the
/// biased encoding is injective.
pub proof fn lemma_eq_matches_value_usize(a: NonMaxUsize, b: NonMaxUsize)
    ensures
        a == b <==> a@ == b@,
{
    lemma_bias_usize(a.0);
    lemma_bias_usize(b.0);
}

/// Ordering law: comparison of non-max integers matches comparison of
/// their logical values, despite the order-reversing internal bias.
pub proof fn lemma_ordering_matches_value_usize(a: NonMaxUsize, b: NonMaxUsize)
    ensures
        a.partial_cmp_spec(&b) == Some(Ordering::Less) <==> a@ < b@,
        a.partial_cmp_spec(&b) == Some(Ordering::Equal) <==> a@ == b@,
        a.partial_cmp_spec(&b) == Some(Ordering::Greater) <==> a@ > b@,
{
}

/// AND soundness: the bitwise AND of two non-max integers has the AND of
/// the logical values as its logical value, and that value is itself a
/// legal non-max value: the result never needs a runtime check.
pub proof fn lemma_bitand_sound_usize(a: NonMaxUsize, b: NonMaxUsize)
    requires
        a@ != usize::MAX,
        b@ != usize::MAX,
    ensures
        a.bitand_spec(b)@ == a@ & b@,
        a@ & b@ != usize::MAX,
{
    lemma_and_keeps_nonmax_usize(a@, b@);
    lemma_bias_usize(a@ & b@);
}

} // verus!
