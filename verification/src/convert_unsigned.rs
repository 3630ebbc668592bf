//! Infallible widening conversions between unsigned non-max types, and from plain narrower unsigned primitives.

use vstd::prelude::*;

use crate::nonmax_u128::NonMaxU128;
use crate::nonmax_u16::NonMaxU16;
use crate::nonmax_u32::NonMaxU32;
use crate::nonmax_u64::NonMaxU64;
use crate::nonmax_u8::NonMaxU8;
use crate::nonmax_usize::NonMaxUsize;
use crate::nonmax_u128::lemma_encode_value_u128;
use crate::nonmax_u16::lemma_encode_value_u16;
use crate::nonmax_u32::lemma_encode_value_u32;
use crate::nonmax_u64::lemma_encode_value_u64;
use crate::nonmax_usize::lemma_encode_value_usize;
use vstd::std_specs::convert::FromSpec;

verus! {

/// The pointer-sized bounds admit at least the 32-bit range, whichever of
/// the two word widths the verifier assumes.
pub(crate) proof fn lemma_word_max_floor()
    ensures
        usize::MAX >= u32::MAX,
        isize::MAX >= i32::MAX,
{
    vstd::layout::unsigned_int_max_values();
    vstd::layout::signed_int_min_max_values();
    vstd::arithmetic::power2::lemma2_to64();
    vstd::arithmetic::power2::lemma2_to64_rest();
    assert(usize::BITS == 32 || usize::BITS == 64);
    assert(isize::BITS == usize::BITS);
}

impl From<NonMaxU8> for NonMaxU16 {
    /// A strictly narrower non-max value is a legal value of the wider
    /// type: the narrower legal range is a strict subset of the wider one.
    fn from(small: NonMaxU8) -> (r: NonMaxU16) {
        NonMaxU16::new_unchecked(small.get() as u16)
    }
}

impl vstd::std_specs::convert::FromSpecImpl<NonMaxU8> for NonMaxU16 {
    open spec fn obeys_from_spec() -> bool {
        true
    }

    open spec fn from_spec(v: NonMaxU8) -> NonMaxU16 {
        NonMaxU16::encode(v@ as u16)
    }
}

/// Conversion law: widening a non-max value and then reading the logical
/// value back equals widening the logical value directly.
pub proof fn lemma_widen_nonmax_u8_to_u16(v: NonMaxU8)
    ensures
        <NonMaxU16 as FromSpec<NonMaxU8>>::from_spec(v)@ == v@ as u16,
{
    lemma_encode_value_u16(v@ as u16);
}

impl From<NonMaxU8> for NonMaxU32 {
    /// A strictly narrower non-max value is a legal value of the wider
    /// type: the narrower legal range is a strict subset of the wider one.
    fn from(small: NonMaxU8) -> (r: NonMaxU32) {
        NonMaxU32::new_unchecked(small.get() as u32)
    }
}

impl vstd::std_specs::convert::FromSpecImpl<NonMaxU8> for NonMaxU32 {
    open spec fn obeys_from_spec() -> bool {
        true
    }

    open spec fn from_spec(v: NonMaxU8) -> NonMaxU32 {
        NonMaxU32::encode(v@ as u32)
    }
}

/// Conversion law: widening a non-max value and then reading the logical
/// value back equals widening the logical value directly.
pub proof fn lemma_widen_nonmax_u8_to_u32(v: NonMaxU8)
    ensures
        <NonMaxU32 as FromSpec<NonMaxU8>>::from_spec(v)@ == v@ as u32,
{
    lemma_encode_value_u32(v@ as u32);
}

impl From<NonMaxU8> for NonMaxU64 {
    /// A strictly narrower non-max value is a legal value of the wider
    /// type: the narrower legal range is a strict subset of the wider one.
    fn from(small: NonMaxU8) -> (r: NonMaxU64) {
        NonMaxU64::new_unchecked(small.get() as u64)
    }
}

impl vstd::std_specs::convert::FromSpecImpl<NonMaxU8> for NonMaxU64 {
    open spec fn obeys_from_spec() -> bool {
        true
    }

    open spec fn from_spec(v: NonMaxU8) -> NonMaxU64 {
        NonMaxU64::encode(v@ as u64)
    }
}

/// Conversion law: widening a non-max value and then reading the logical
/// value back equals widening the logical value directly.
pub proof fn lemma_widen_nonmax_u8_to_u64(v: NonMaxU8)
    ensures
        <NonMaxU64 as FromSpec<NonMaxU8>>::from_spec(v)@ == v@ as u64,
{
    lemma_encode_value_u64(v@ as u64);
}

impl From<NonMaxU8> for NonMaxU128 {
    /// A strictly narrower non-max value is a legal value of the wider
    /// type: the narrower legal range is a strict subset of the wider one.
    fn from(small: NonMaxU8) -> (r: NonMaxU128) {
        NonMaxU128::new_unchecked(small.get() as u128)
    }
}

impl vstd::std_specs::convert::FromSpecImpl<NonMaxU8> for NonMaxU128 {
    open spec fn obeys_from_spec() -> bool {
        true
    }

    open spec fn from_spec(v: NonMaxU8) -> NonMaxU128 {
        NonMaxU128::encode(v@ as u128)
    }
}

/// Conversion law: widening a non-max value and then reading the logical
/// value back equals widening the logical value directly.
pub proof fn lemma_widen_nonmax_u8_to_u128(v: NonMaxU8)
    ensures
        <NonMaxU128 as FromSpec<NonMaxU8>>::from_spec(v)@ == v@ as u128,
{
    lemma_encode_value_u128(v@ as u128);
}

impl From<NonMaxU8> for NonMaxUsize {
    /// A strictly narrower non-max value is a legal value of the wider
    /// type: the narrower legal range is a strict subset of the wider one.
    fn from(small: NonMaxU8) -> (r: NonMaxUsize) {
        proof {
            lemma_word_max_floor();
        }
        NonMaxUsize::new_unchecked(small.get() as usize)
    }
}

impl vstd::std_specs::convert::FromSpecImpl<NonMaxU8> for NonMaxUsize {
    open spec fn obeys_from_spec() -> bool {
        true
    }

    open spec fn from_spec(v: NonMaxU8) -> NonMaxUsize {
        NonMaxUsize::encode(v@ as usize)
    }
}

/// Conversion law: widening a non-max value and then reading the logical
/// value back equals widening the logical value directly.
pub proof fn lemma_widen_nonmax_u8_to_usize(v: NonMaxU8)
    ensures
        <NonMaxUsize as FromSpec<NonMaxU8>>::from_spec(v)@ == v@ as usize,
{
    lemma_encode_value_usize(v@ as usize);
}

impl From<NonMaxU16> for NonMaxU32 {
    /// A strictly narrower non-max value is a legal value of the wider
    /// type: the narrower legal range is a strict subset of the wider one.
    fn from(small: NonMaxU16) -> (r: NonMaxU32) {
        NonMaxU32::new_unchecked(small.get() as u32)
    }
}

impl vstd::std_specs::convert::FromSpecImpl<NonMaxU16> for NonMaxU32 {
    open spec fn obeys_from_spec() -> bool {
        true
    }

    open spec fn from_spec(v: NonMaxU16) -> NonMaxU32 {
        NonMaxU32::encode(v@ as u32)
    }
}

/// Conversion law: widening a non-max value and then reading the logical
/// value back equals widening the logical value directly.
pub proof fn lemma_widen_nonmax_u16_to_u32(v: NonMaxU16)
    ensures
        <NonMaxU32 as FromSpec<NonMaxU16>>::from_spec(v)@ == v@ as u32,
{
    lemma_encode_value_u32(v@ as u32);
}

impl From<NonMaxU16> for NonMaxU64 {
    /// A strictly narrower non-max value is a legal value of the wider
    /// type: the narrower legal range is a strict subset of the wider one.
    fn from(small: NonMaxU16) -> (r: NonMaxU64) {
        NonMaxU64::new_unchecked(small.get() as u64)
    }
}

impl vstd::std_specs::convert::FromSpecImpl<NonMaxU16> for NonMaxU64 {
    open spec fn obeys_from_spec() -> bool {
        true
    }

    open spec fn from_spec(v: NonMaxU16) -> NonMaxU64 {
        NonMaxU64::encode(v@ as u64)
    }
}

/// Conversion law: widening a non-max value and then reading the logical
/// value back equals widening the logical value directly.
pub proof fn lemma_widen_nonmax_u16_to_u64(v: NonMaxU16)
    ensures
        <NonMaxU64 as FromSpec<NonMaxU16>>::from_spec(v)@ == v@ as u64,
{
    lemma_encode_value_u64(v@ as u64);
}

impl From<NonMaxU16> for NonMaxU128 {
    /// A strictly narrower non-max value is a legal value of the wider
    /// type: the narrower legal range is a strict subset of the wider one.
    fn from(small: NonMaxU16) -> (r: NonMaxU128) {
        NonMaxU128::new_unchecked(small.get() as u128)
    }
}

impl vstd::std_specs::convert::FromSpecImpl<NonMaxU16> for NonMaxU128 {
    open spec fn obeys_from_spec() -> bool {
        true
    }

    open spec fn from_spec(v: NonMaxU16) -> NonMaxU128 {
        NonMaxU128::encode(v@ as u128)
    }
}

/// Conversion law: widening a non-max value and then reading the logical
/// value back equals widening the logical value directly.
pub proof fn lemma_widen_nonmax_u16_to_u128(v: NonMaxU16)
    ensures
        <NonMaxU128 as FromSpec<NonMaxU16>>::from_spec(v)@ == v@ as u128,
{
    lemma_encode_value_u128(v@ as u128);
}

impl From<NonMaxU16> for NonMaxUsize {
    /// A strictly narrower non-max value is a legal value of the wider
    /// type: the narrower legal range is a strict subset of the wider one.
    fn from(small: NonMaxU16) -> (r: NonMaxUsize) {
        proof {
            lemma_word_max_floor();
        }
        NonMaxUsize::new_unchecked(small.get() as usize)
    }
}

impl vstd::std_specs::convert::FromSpecImpl<NonMaxU16> for NonMaxUsize {
    open spec fn obeys_from_spec() -> bool {
        true
    }

    open spec fn from_spec(v: NonMaxU16) -> NonMaxUsize {
        NonMaxUsize::encode(v@ as usize)
    }
}

/// Conversion law: widening a non-max value and then reading the logical
/// value back equals widening the logical value directly.
pub proof fn lemma_widen_nonmax_u16_to_usize(v: NonMaxU16)
    ensures
        <NonMaxUsize as FromSpec<NonMaxU16>>::from_spec(v)@ == v@ as usize,
{
    lemma_encode_value_usize(v@ as usize);
}

impl From<NonMaxU32> for NonMaxU64 {
    /// A strictly narrower non-max value is a legal value of the wider
    /// type: the narrower legal range is a strict subset of the wider one.
    fn from(small: NonMaxU32) -> (r: NonMaxU64) {
        NonMaxU64::new_unchecked(small.get() as u64)
    }
}

impl vstd::std_specs::convert::FromSpecImpl<NonMaxU32> for NonMaxU64 {
    open spec fn obeys_from_spec() -> bool {
        true
    }

    open spec fn from_spec(v: NonMaxU32) -> NonMaxU64 {
        NonMaxU64::encode(v@ as u64)
    }
}

/// Conversion law: widening a non-max value and then reading the logical
/// value back equals widening the logical value directly.
pub proof fn lemma_widen_nonmax_u32_to_u64(v: NonMaxU32)
    ensures
        <NonMaxU64 as FromSpec<NonMaxU32>>::from_spec(v)@ == v@ as u64,
{
    lemma_encode_value_u64(v@ as u64);
}

impl From<NonMaxU32> for NonMaxU128 {
    /// A strictly narrower non-max value is a legal value of the wider
    /// type: the narrower legal range is a strict subset of the wider one.
    fn from(small: NonMaxU32) -> (r: NonMaxU128) {
        NonMaxU128::new_unchecked(small.get() as u128)
    }
}

impl vstd::std_specs::convert::FromSpecImpl<NonMaxU32> for NonMaxU128 {
    open spec fn obeys_from_spec() -> bool {
        true
    }

    open spec fn from_spec(v: NonMaxU32) -> NonMaxU128 {
        NonMaxU128::encode(v@ as u128)
    }
}

/// Conversion law: widening a non-max value and then reading the logical
/// value back equals widening the logical value directly.
pub proof fn lemma_widen_nonmax_u32_to_u128(v: NonMaxU32)
    ensures
        <NonMaxU128 as FromSpec<NonMaxU32>>::from_spec(v)@ == v@ as u128,
{
    lemma_encode_value_u128(v@ as u128);
}

impl From<NonMaxU64> for NonMaxU128 {
    /// A strictly narrower non-max value is a legal value of the wider
    /// type: the narrower legal range is a strict subset of the wider one.
    fn from(small: NonMaxU64) -> (r: NonMaxU128) {
        NonMaxU128::new_unchecked(small.get() as u128)
    }
}

impl vstd::std_specs::convert::FromSpecImpl<NonMaxU64> for NonMaxU128 {
    open spec fn obeys_from_spec() -> bool {
        true
    }

    open spec fn from_spec(v: NonMaxU64) -> NonMaxU128 {
        NonMaxU128::encode(v@ as u128)
    }
}

/// Conversion law: widening a non-max value and then reading the logical
/// value back equals widening the logical value directly.
pub proof fn lemma_widen_nonmax_u64_to_u128(v: NonMaxU64)
    ensures
        <NonMaxU128 as FromSpec<NonMaxU64>>::from_spec(v)@ == v@ as u128,
{
    lemma_encode_value_u128(v@ as u128);
}

impl From<u8> for NonMaxU16 {
    /// A plain narrower primitive can never equal the wider maximum.
    fn from(small: u8) -> (r: NonMaxU16) {
        NonMaxU16::new_unchecked(small as u16)
    }
}

impl vstd::std_specs::convert::FromSpecImpl<u8> for NonMaxU16 {
    open spec fn obeys_from_spec() -> bool {
        true
    }

    open spec fn from_spec(v: u8) -> NonMaxU16 {
        NonMaxU16::encode(v as u16)
    }
}

/// Conversion law: wrapping a narrower primitive into the wider non-max
/// type preserves the value exactly.
pub proof fn lemma_widen_prim_u8_to_u16(v: u8)
    ensures
        <NonMaxU16 as FromSpec<u8>>::from_spec(v)@ == v as u16,
{
    lemma_encode_value_u16(v as u16);
}

impl From<u8> for NonMaxU32 {
    /// A plain narrower primitive can never equal the wider maximum.
    fn from(small: u8) -> (r: NonMaxU32) {
        NonMaxU32::new_unchecked(small as u32)
    }
}

impl vstd::std_specs::convert::FromSpecImpl<u8> for NonMaxU32 {
    open spec fn obeys_from_spec() -> bool {
        true
    }

    open spec fn from_spec(v: u8) -> NonMaxU32 {
        NonMaxU32::encode(v as u32)
    }
}

/// Conversion law: wrapping a narrower primitive into the wider non-max
/// type preserves the value exactly.
pub proof fn lemma_widen_prim_u8_to_u32(v: u8)
    ensures
        <NonMaxU32 as FromSpec<u8>>::from_spec(v)@ == v as u32,
{
    lemma_encode_value_u32(v as u32);
}

impl From<u8> for NonMaxU64 {
    /// A plain narrower primitive can never equal the wider maximum.
    fn from(small: u8) -> (r: NonMaxU64) {
        NonMaxU64::new_unchecked(small as u64)
    }
}

impl vstd::std_specs::convert::FromSpecImpl<u8> for NonMaxU64 {
    open spec fn obeys_from_spec() -> bool {
        true
    }

    open spec fn from_spec(v: u8) -> NonMaxU64 {
        NonMaxU64::encode(v as u64)
    }
}

/// Conversion law: wrapping a narrower primitive into the wider non-max
/// type preserves the value exactly.
pub proof fn lemma_widen_prim_u8_to_u64(v: u8)
    ensures
        <NonMaxU64 as FromSpec<u8>>::from_spec(v)@ == v as u64,
{
    lemma_encode_value_u64(v as u64);
}

impl From<u8> for NonMaxU128 {
    /// A plain narrower primitive can never equal the wider maximum.
    fn from(small: u8) -> (r: NonMaxU128) {
        NonMaxU128::new_unchecked(small as u128)
    }
}

impl vstd::std_specs::convert::FromSpecImpl<u8> for NonMaxU128 {
    open spec fn obeys_from_spec() -> bool {
        true
    }

    open spec fn from_spec(v: u8) -> NonMaxU128 {
        NonMaxU128::encode(v as u128)
    }
}

/// Conversion law: wrapping a narrower primitive into the wider non-max
/// type preserves the value exactly.
pub proof fn lemma_widen_prim_u8_to_u128(v: u8)
    ensures
        <NonMaxU128 as FromSpec<u8>>::from_spec(v)@ == v as u128,
{
    lemma_encode_value_u128(v as u128);
}

impl From<u8> for NonMaxUsize {
    /// A plain narrower primitive can never equal the wider maximum.
    fn from(small: u8) -> (r: NonMaxUsize) {
        proof {
            lemma_word_max_floor();
        }
        NonMaxUsize::new_unchecked(small as usize)
    }
}

impl vstd::std_specs::convert::FromSpecImpl<u8> for NonMaxUsize {
    open spec fn obeys_from_spec() -> bool {
        true
    }

    open spec fn from_spec(v: u8) -> NonMaxUsize {
        NonMaxUsize::encode(v as usize)
    }
}

/// Conversion law: wrapping a narrower primitive into the wider non-max
/// type preserves the value exactly.
pub proof fn lemma_widen_prim_u8_to_usize(v: u8)
    ensures
        <NonMaxUsize as FromSpec<u8>>::from_spec(v)@ == v as usize,
{
    lemma_encode_value_usize(v as usize);
}

impl From<u16> for NonMaxU32 {
    /// A plain narrower primitive can never equal the wider maximum.
    fn from(small: u16) -> (r: NonMaxU32) {
        NonMaxU32::new_unchecked(small as u32)
    }
}

impl vstd::std_specs::convert::FromSpecImpl<u16> for NonMaxU32 {
    open spec fn obeys_from_spec() -> bool {
        true
    }

    open spec fn from_spec(v: u16) -> NonMaxU32 {
        NonMaxU32::encode(v as u32)
    }
}

/// Conversion law: wrapping a narrower primitive into the wider non-max
/// type preserves the value exactly.
pub proof fn lemma_widen_prim_u16_to_u32(v: u16)
    ensures
        <NonMaxU32 as FromSpec<u16>>::from_spec(v)@ == v as u32,
{
    lemma_encode_value_u32(v as u32);
}

impl From<u16> for NonMaxU64 {
    /// A plain narrower primitive can never equal the wider maximum.
    fn from(small: u16) -> (r: NonMaxU64) {
        NonMaxU64::new_unchecked(small as u64)
    }
}

impl vstd::std_specs::convert::FromSpecImpl<u16> for NonMaxU64 {
    open spec fn obeys_from_spec() -> bool {
        true
    }

    open spec fn from_spec(v: u16) -> NonMaxU64 {
        NonMaxU64::encode(v as u64)
    }
}

/// Conversion law: wrapping a narrower primitive into the wider non-max
/// type preserves the value exactly.
pub proof fn lemma_widen_prim_u16_to_u64(v: u16)
    ensures
        <NonMaxU64 as FromSpec<u16>>::from_spec(v)@ == v as u64,
{
    lemma_encode_value_u64(v as u64);
}

impl From<u16> for NonMaxU128 {
    /// A plain narrower primitive can never equal the wider maximum.
    fn from(small: u16) -> (r: NonMaxU128) {
        NonMaxU128::new_unchecked(small as u128)
    }
}

impl vstd::std_specs::convert::FromSpecImpl<u16> for NonMaxU128 {
    open spec fn obeys_from_spec() -> bool {
        true
    }

    open spec fn from_spec(v: u16) -> NonMaxU128 {
        NonMaxU128::encode(v as u128)
    }
}

/// Conversion law: wrapping a narrower primitive into the wider non-max
/// type preserves the value exactly.
pub proof fn lemma_widen_prim_u16_to_u128(v: u16)
    ensures
        <NonMaxU128 as FromSpec<u16>>::from_spec(v)@ == v as u128,
{
    lemma_encode_value_u128(v as u128);
}

impl From<u16> for NonMaxUsize {
    /// A plain narrower primitive can never equal the wider maximum.
    fn from(small: u16) -> (r: NonMaxUsize) {
        proof {
            lemma_word_max_floor();
        }
        NonMaxUsize::new_unchecked(small as usize)
    }
}

impl vstd::std_specs::convert::FromSpecImpl<u16> for NonMaxUsize {
    open spec fn obeys_from_spec() -> bool {
        true
    }

    open spec fn from_spec(v: u16) -> NonMaxUsize {
        NonMaxUsize::encode(v as usize)
    }
}

/// Conversion law: wrapping a narrower primitive into the wider non-max
/// type preserves the value exactly.
pub proof fn lemma_widen_prim_u16_to_usize(v: u16)
    ensures
        <NonMaxUsize as FromSpec<u16>>::from_spec(v)@ == v as usize,
{
    lemma_encode_value_usize(v as usize);
}

impl From<u32> for NonMaxU64 {
    /// A plain narrower primitive can never equal the wider maximum.
    fn from(small: u32) -> (r: NonMaxU64) {
        NonMaxU64::new_unchecked(small as u64)
    }
}

impl vstd::std_specs::convert::FromSpecImpl<u32> for NonMaxU64 {
    open spec fn obeys_from_spec() -> bool {
        true
    }

    open spec fn from_spec(v: u32) -> NonMaxU64 {
        NonMaxU64::encode(v as u64)
    }
}

/// Conversion law: wrapping a narrower primitive into the wider non-max
/// type preserves the value exactly.
pub proof fn lemma_widen_prim_u32_to_u64(v: u32)
    ensures
        <NonMaxU64 as FromSpec<u32>>::from_spec(v)@ == v as u64,
{
    lemma_encode_value_u64(v as u64);
}

impl From<u32> for NonMaxU128 {
    /// A plain narrower primitive can never equal the wider maximum.
    fn from(small: u32) -> (r: NonMaxU128) {
        NonMaxU128::new_unchecked(small as u128)
    }
}

impl vstd::std_specs::convert::FromSpecImpl<u32> for NonMaxU128 {
    open spec fn obeys_from_spec() -> bool {
        true
    }

    open spec fn from_spec(v: u32) -> NonMaxU128 {
        NonMaxU128::encode(v as u128)
    }
}

/// Conversion law: wrapping a narrower primitive into the wider non-max
/// type preserves the value exactly.
pub proof fn lemma_widen_prim_u32_to_u128(v: u32)
    ensures
        <NonMaxU128 as FromSpec<u32>>::from_spec(v)@ == v as u128,
{
    lemma_encode_value_u128(v as u128);
}

impl From<u64> for NonMaxU128 {
    /// A plain narrower primitive can never equal the wider maximum.
    fn from(small: u64) -> (r: NonMaxU128) {
        NonMaxU128::new_unchecked(small as u128)
    }
}

impl vstd::std_specs::convert::FromSpecImpl<u64> for NonMaxU128 {
    open spec fn obeys_from_spec() -> bool {
        true
    }

    open spec fn from_spec(v: u64) -> NonMaxU128 {
        NonMaxU128::encode(v as u128)
    }
}

/// Conversion law: wrapping a narrower primitive into the wider non-max
/// type preserves the value exactly.
pub proof fn lemma_widen_prim_u64_to_u128(v: u64)
    ensures
        <NonMaxU128 as FromSpec<u64>>::from_spec(v)@ == v as u128,
{
    lemma_encode_value_u128(v as u128);
}

} // verus!
