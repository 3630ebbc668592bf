use vstd::prelude::*;

use crate::error::ParseIntError;
use crate::error::TryFromIntError;
use crate::parse::is_signed_dec_string;
use crate::parse::signed_dec_value;
use core::cmp::Ordering;
use vstd::std_specs::cmp::PartialOrdSpec;
use vstd::std_specs::ops::BitAndSpec;

verus! {

/// A signed pointer-sized integer that is known not to equal `isize::MAX`.
///
/// The value is stored biased, as `value ^ isize::MAX`, so the excluded
/// logical value `isize::MAX` corresponds to the all-zero stored pattern,
/// which an instance never holds.
#[derive(Clone, Copy, PartialEq, Eq, Hash, Structural)]
pub struct NonMaxIsize(isize);

/// The XOR bias is an involution: applying it twice gives the value back,
/// and it exchanges the excluded value and zero.
proof fn lemma_bias_isize(v: isize)
    ensures
        (v ^ isize::MAX) ^ isize::MAX == v,
        v ^ isize::MAX == 0 <==> v == isize::MAX,
        v ^ isize::MAX == isize::MAX <==> v == 0,
{
    let m: isize = isize::MAX;
    assert(((v ^ m) ^ m == v) && ((v ^ m == 0) <==> v == m) && ((v ^ m == m) <==> v == 0))
        by (bit_vector);
}

/// The pointer-sized maximum on this architecture: one of the two word
/// widths that the verifier admits.
proof fn lemma_isize_max_cases()
    ensures
        isize::MAX == 0x7fff_ffff || isize::MAX == 0x7fff_ffff_ffff_ffff,
{
    vstd::layout::signed_int_min_max_values();
    vstd::arithmetic::power2::lemma2_to64();
    vstd::arithmetic::power2::lemma2_to64_rest();
    assert(isize::BITS == 32 || isize::BITS == 64);
}

/// For signed values in two's complement, AND stays below the maximum only
/// when both operands do: minus one (all bits set) on one side hands the
/// other side back unchanged, so it could reclaim the maximum.
proof fn lemma_and_keeps_nonmax_isize(a: isize, b: isize)
    ensures
        a != isize::MAX && b != isize::MAX ==> (a & b) != isize::MAX,
{
    lemma_isize_max_cases();
    assert((a & b) as i64 == (a as i64) & (b as i64)) by (bit_vector);
    if isize::MAX == 0x7fff_ffff {
        assert((a as i64 <= 0x7fff_ffffi64 && b as i64 <= 0x7fff_ffffi64 && a as i64
            != 0x7fff_ffffi64 && b as i64 != 0x7fff_ffffi64) ==> ((a as i64) & (b as i64))
            != 0x7fff_ffffi64) by (bit_vector);
    } else {
        assert((a as i64 != 0x7fff_ffff_ffff_ffffi64 && b as i64
            != 0x7fff_ffff_ffff_ffffi64) ==> ((a as i64) & (b as i64))
            != 0x7fff_ffff_ffff_ffffi64) by (bit_vector);
    }
}

impl View for NonMaxIsize {
    type V = isize;

    /// The logical value: the stored bias undone.
    closed spec fn view(&self) -> isize {
        self.0 ^ isize::MAX
    }
}

impl NonMaxIsize {
    #[verifier::type_invariant]
    spec fn inv(self) -> bool {
        self.0 != 0
    }

    /// The instance whose logical value is `v`, in its biased stored form.
    pub closed spec fn encode(v: isize) -> Self {
        NonMaxIsize(v ^ isize::MAX)
    }

    /// Creates a non-max integer if the given value is not the maximum value.
    pub fn new(value: isize) -> (r: Option<Self>)
        ensures
            r is Some <==> value != isize::MAX,
            r is Some ==> r == Some(Self::encode(value)) && r.unwrap()@ == value,
    {
        proof {
            lemma_bias_isize(value);
        }
        let stored = value ^ isize::MAX;
        if stored == 0 {
            None
        } else {
            Some(NonMaxIsize(stored))
        }
    }

    /// Creates a non-max integer from a value known not to be the maximum.
    pub fn new_unchecked(value: isize) -> (r: Self)
        requires
            value != isize::MAX,
        ensures
            r == Self::encode(value),
            r@ == value,
    {
        proof {
            lemma_bias_isize(value);
        }
        NonMaxIsize(value ^ isize::MAX)
    }

    /// Returns the value as a primitive type.
    pub fn get(&self) -> (r: isize)
        ensures
            r == self@,
            r != isize::MAX,
    {
        proof {
            use_type_invariant(self);
            lemma_bias_isize(self.0);
        }
        self.0 ^ isize::MAX
    }

    /// The non-max integer with value zero.
    pub fn zero() -> (r: Self)
        ensures
            r@ == 0,
    {
        Self::new_unchecked(0)
    }

    /// The non-max integer with value one.
    pub fn one() -> (r: Self)
        ensures
            r@ == 1,
    {
        Self::new_unchecked(1)
    }

    /// The largest legal non-max integer: one less than the primitive maximum.
    pub fn max() -> (r: Self)
        ensures
            r@ == isize::MAX - 1,
    {
        Self::new_unchecked(isize::MAX - 1)
    }

    /// Parses the textual form as the underlying primitive, then applies
    /// the checked constructor. Fails when the text does not lexically
    /// denote a value of the primitive, or denotes the excluded maximum.
    pub fn from_str(value: &str) -> (r: Result<Self, ParseIntError>)
        ensures
            r is Ok <==> is_signed_dec_string(value@) && isize::MIN <= signed_dec_value(
                value@,
            ) < isize::MAX,
            r is Ok ==> r.unwrap()@ == signed_dec_value(value@),
    {
        match crate::parse::parse_isize(value) {
            Some(v) => match Self::new(v) {
                Some(nm) => Ok(nm),
                None => Err(ParseIntError),
            },
            None => Err(ParseIntError),
        }
    }

    /// Replaces the value by its bitwise AND with another non-max integer.
    pub fn bitand_assign(&mut self, rhs: NonMaxIsize)
        ensures
            final(self)@ == old(self)@ & rhs@,
    {
        proof {
            lemma_bias_isize(old(self)@ & rhs@);
        }
        *self = *self & rhs;
    }
}

impl Default for NonMaxIsize {
    /// The default non-max integer has value zero.
    fn default() -> (r: Self)
        ensures
            r@ == 0,
    {
        Self::new_unchecked(0)
    }
}

impl PartialOrd for NonMaxIsize {
    /// Compares logical values. The biased stored form is order-reversing,
    /// so instances must compare by recovered value, never by stored bits.
    fn partial_cmp(&self, other: &Self) -> (r: Option<Ordering>) {
        let a = self.get();
        let b = other.get();
        if a < b {
            Some(Ordering::Less)
        } else if a == b {
            Some(Ordering::Equal)
        } else {
            Some(Ordering::Greater)
        }
    }
}

impl vstd::std_specs::cmp::PartialOrdSpecImpl for NonMaxIsize {
    open spec fn obeys_partial_cmp_spec() -> bool {
        true
    }

    open spec fn partial_cmp_spec(&self, other: &Self) -> Option<Ordering> {
        if self@ < other@ {
            Some(Ordering::Less)
        } else if self@ == other@ {
            Some(Ordering::Equal)
        } else {
            Some(Ordering::Greater)
        }
    }
}

impl core::ops::BitAnd<NonMaxIsize> for NonMaxIsize {
    type Output = NonMaxIsize;

    /// Sound because both operands individually exclude the maximum; a
    /// plain primitive on either side could reclaim it (minus one is all
    /// bits set in two's complement), so no mixed form is offered.
    fn bitand(self, rhs: NonMaxIsize) -> (r: NonMaxIsize) {
        proof {
            use_type_invariant(self);
            use_type_invariant(rhs);
            lemma_bias_isize(self.0);
            lemma_bias_isize(rhs.0);
            lemma_and_keeps_nonmax_isize(self@, rhs@);
        }
        NonMaxIsize::new_unchecked(self.get() & rhs.get())
    }
}

impl vstd::std_specs::ops::BitAndSpecImpl<NonMaxIsize> for NonMaxIsize {
    open spec fn obeys_bitand_spec() -> bool {
        true
    }

    open spec fn bitand_req(self, rhs: NonMaxIsize) -> bool {
        true
    }

    open spec fn bitand_spec(self, rhs: NonMaxIsize) -> NonMaxIsize {
        NonMaxIsize::encode(self@ & rhs@)
    }
}

impl core::str::FromStr for NonMaxIsize {
    type Err = ParseIntError;

    fn from_str(value: &str) -> Result<Self, ParseIntError> {
        NonMaxIsize::from_str(value)
    }
}

impl From<NonMaxIsize> for isize {
    /// Unwraps to the logical value.
    fn from(value: NonMaxIsize) -> (r: isize) {
        value.get()
    }
}

impl vstd::std_specs::convert::FromSpecImpl<NonMaxIsize> for isize {
    open spec fn obeys_from_spec() -> bool {
        true
    }

    open spec fn from_spec(v: NonMaxIsize) -> isize {
        v@
    }
}

impl TryFrom<isize> for NonMaxIsize {
    type Error = TryFromIntError;

    /// The fallible same-width conversion: exactly the checked constructor,
    /// failing when the value equals the primitive maximum.
    fn try_from(value: isize) -> (r: Result<NonMaxIsize, TryFromIntError>) {
        match NonMaxIsize::new(value) {
            Some(nm) => Ok(nm),
            None => Err(TryFromIntError),
        }
    }
}

impl vstd::std_specs::convert::TryFromSpecImpl<isize> for NonMaxIsize {
    open spec fn obeys_try_from_spec() -> bool {
        true
    }

    open spec fn try_from_spec(v: isize) -> Result<NonMaxIsize, TryFromIntError> {
        if v == isize::MAX {
            Err(TryFromIntError)
        } else {
            Ok(NonMaxIsize::encode(v))
        }
    }
}

/// The biased encoding is lossless: encoding a value and reading the
/// logical value back yields the value again.
pub proof fn lemma_encode_value_isize(v: isize)
    ensures
        NonMaxIsize::encode(v)@ == v,
{
    lemma_bias_isize(v);
}

/// Structural equality coincides with equality of logical values: the
/// biased encoding is injective.
pub proof fn lemma_eq_matches_value_isize(a: NonMaxIsize, b: NonMaxIsize)
    ensures
        a == b <==> a@ == b@,
{
    lemma_bias_isize(a.0);
    lemma_bias_isize(b.0);
}

/// Ordering law: comparison of non-max integers matches comparison of
/// their logical values, despite the order-reversing internal bias.
pub proof fn lemma_ordering_matches_value_isize(a: NonMaxIsize, b: NonMaxIsize)
    ensures
        a.partial_cmp_spec(&b) == Some(Ordering::Less) <==> a@ < b@,
        a.partial_cmp_spec(&b) == Some(Ordering::Equal) <==> a@ == b@,
        a.partial_cmp_spec(&b) == Some(Ordering::Greater) <==> a@ > b@,
{
}

/// AND soundness: the bitwise AND of two non-max integers has the AND of
/// the logical values as its logical value, and that value is itself a
/// legal non-max value: the result never needs a runtime check.
pub proof fn lemma_bitand_sound_isize(a: NonMaxIsize, b: NonMaxIsize)
    requires
        a@ != isize::MAX,
        b@ != isize::MAX,
    ensures
        a.bitand_spec(b)@ == a@ & b@,
        a@ & b@ != isize::MAX,
{
    lemma_and_keeps_nonmax_isize(a@, b@);
    lemma_bias_isize(a@ & b@);
}

} // verus!
