//! Infallible widening conversions from unsigned non-max types and primitives into strictly wider signed non-max types.

use vstd::prelude::*;

use crate::nonmax_i128::NonMaxI128;
use crate::nonmax_i16::NonMaxI16;
use crate::nonmax_i32::NonMaxI32;
use crate::nonmax_i64::NonMaxI64;
use crate::nonmax_isize::NonMaxIsize;
use crate::nonmax_u16::NonMaxU16;
use crate::nonmax_u32::NonMaxU32;
use crate::nonmax_u64::NonMaxU64;
use crate::nonmax_u8::NonMaxU8;
use crate::nonmax_i128::lemma_encode_value_i128;
use crate::nonmax_i16::lemma_encode_value_i16;
use crate::nonmax_i32::lemma_encode_value_i32;
use crate::nonmax_i64::lemma_encode_value_i64;
use crate::nonmax_isize::lemma_encode_value_isize;
use crate::convert_unsigned::lemma_word_max_floor;
use vstd::std_specs::convert::FromSpec;

verus! {

impl From<NonMaxU8> for NonMaxI16 {
    /// A strictly narrower non-max value is a legal value of the wider
    /// type: the narrower legal range is a strict subset of the wider one.
    fn from(small: NonMaxU8) -> (r: NonMaxI16) {
        NonMaxI16::new_unchecked(small.get() as i16)
    }
}

impl vstd::std_specs::convert::FromSpecImpl<NonMaxU8> for NonMaxI16 {
    open spec fn obeys_from_spec() -> bool {
        true
    }

    open spec fn from_spec(v: NonMaxU8) -> NonMaxI16 {
        NonMaxI16::encode(v@ as i16)
    }
}

/// Conversion law: widening a non-max value and then reading the logical
/// value back equals widening the logical value directly.
pub proof fn lemma_widen_nonmax_u8_to_i16(v: NonMaxU8)
    ensures
        <NonMaxI16 as FromSpec<NonMaxU8>>::from_spec(v)@ == v@ as i16,
{
    lemma_encode_value_i16(v@ as i16);
}

impl From<NonMaxU8> for NonMaxI32 {
    /// A strictly narrower non-max value is a legal value of the wider
    /// type: the narrower legal range is a strict subset of the wider one.
    fn from(small: NonMaxU8) -> (r: NonMaxI32) {
        NonMaxI32::new_unchecked(small.get() as i32)
    }
}

impl vstd::std_specs::convert::FromSpecImpl<NonMaxU8> for NonMaxI32 {
    open spec fn obeys_from_spec() -> bool {
        true
    }

    open spec fn from_spec(v: NonMaxU8) -> NonMaxI32 {
        NonMaxI32::encode(v@ as i32)
    }
}

/// Conversion law: widening a non-max value and then reading the logical
/// value back equals widening the logical value directly.
pub proof fn lemma_widen_nonmax_u8_to_i32(v: NonMaxU8)
    ensures
        <NonMaxI32 as FromSpec<NonMaxU8>>::from_spec(v)@ == v@ as i32,
{
    lemma_encode_value_i32(v@ as i32);
}

impl From<NonMaxU8> for NonMaxI64 {
    /// A strictly narrower non-max value is a legal value of the wider
    /// type: the narrower legal range is a strict subset of the wider one.
    fn from(small: NonMaxU8) -> (r: NonMaxI64) {
        NonMaxI64::new_unchecked(small.get() as i64)
    }
}

impl vstd::std_specs::convert::FromSpecImpl<NonMaxU8> for NonMaxI64 {
    open spec fn obeys_from_spec() -> bool {
        true
    }

    open spec fn from_spec(v: NonMaxU8) -> NonMaxI64 {
        NonMaxI64::encode(v@ as i64)
    }
}

/// Conversion law: widening a non-max value and then reading the logical
/// value back equals widening the logical value directly.
pub proof fn lemma_widen_nonmax_u8_to_i64(v: NonMaxU8)
    ensures
        <NonMaxI64 as FromSpec<NonMaxU8>>::from_spec(v)@ == v@ as i64,
{
    lemma_encode_value_i64(v@ as i64);
}

impl From<NonMaxU8> for NonMaxI128 {
    /// A strictly narrower non-max value is a legal value of the wider
    /// type: the narrower legal range is a strict subset of the wider one.
    fn from(small: NonMaxU8) -> (r: NonMaxI128) {
        NonMaxI128::new_unchecked(small.get() as i128)
    }
}

impl vstd::std_specs::convert::FromSpecImpl<NonMaxU8> for NonMaxI128 {
    open spec fn obeys_from_spec() -> bool {
        true
    }

    open spec fn from_spec(v: NonMaxU8) -> NonMaxI128 {
        NonMaxI128::encode(v@ as i128)
    }
}

/// Conversion law: widening a non-max value and then reading the logical
/// value back equals widening the logical value directly.
pub proof fn lemma_widen_nonmax_u8_to_i128(v: NonMaxU8)
    ensures
        <NonMaxI128 as FromSpec<NonMaxU8>>::from_spec(v)@ == v@ as i128,
{
    lemma_encode_value_i128(v@ as i128);
}

impl From<NonMaxU8> for NonMaxIsize {
    /// A strictly narrower non-max value is a legal value of the wider
    /// type: the narrower legal range is a strict subset of the wider one.
    fn from(small: NonMaxU8) -> (r: NonMaxIsize) {
        proof {
            lemma_word_max_floor();
        }
        NonMaxIsize::new_unchecked(small.get() as isize)
    }
}

impl vstd::std_specs::convert::FromSpecImpl<NonMaxU8> for NonMaxIsize {
    open spec fn obeys_from_spec() -> bool {
        true
    }

    open spec fn from_spec(v: NonMaxU8) -> NonMaxIsize {
        NonMaxIsize::encode(v@ as isize)
    }
}

/// Conversion law: widening a non-max value and then reading the logical
/// value back equals widening the logical value directly.
pub proof fn lemma_widen_nonmax_u8_to_isize(v: NonMaxU8)
    ensures
        <NonMaxIsize as FromSpec<NonMaxU8>>::from_spec(v)@ == v@ as isize,
{
    lemma_encode_value_isize(v@ as isize);
}

impl From<NonMaxU16> for NonMaxI32 {
    /// A strictly narrower non-max value is a legal value of the wider
    /// type: the narrower legal range is a strict subset of the wider one.
    fn from(small: NonMaxU16) -> (r: NonMaxI32) {
        NonMaxI32::new_unchecked(small.get() as i32)
    }
}

impl vstd::std_specs::convert::FromSpecImpl<NonMaxU16> for NonMaxI32 {
    open spec fn obeys_from_spec() -> bool {
        true
    }

    open spec fn from_spec(v: NonMaxU16) -> NonMaxI32 {
        NonMaxI32::encode(v@ as i32)
    }
}

/// Conversion law: widening a non-max value and then reading the logical
/// value back equals widening the logical value directly.
pub proof fn lemma_widen_nonmax_u16_to_i32(v: NonMaxU16)
    ensures
        <NonMaxI32 as FromSpec<NonMaxU16>>::from_spec(v)@ == v@ as i32,
{
    lemma_encode_value_i32(v@ as i32);
}

impl From<NonMaxU16> for NonMaxI64 {
    /// A strictly narrower non-max value is a legal value of the wider
    /// type: the narrower legal range is a strict subset of the wider one.
    fn from(small: NonMaxU16) -> (r: NonMaxI64) {
        NonMaxI64::new_unchecked(small.get() as i64)
    }
}

impl vstd::std_specs::convert::FromSpecImpl<NonMaxU16> for NonMaxI64 {
    open spec fn obeys_from_spec() -> bool {
        true
    }

    open spec fn from_spec(v: NonMaxU16) -> NonMaxI64 {
        NonMaxI64::encode(v@ as i64)
    }
}

/// Conversion law: widening a non-max value and then reading the logical
/// value back equals widening the logical value directly.
pub proof fn lemma_widen_nonmax_u16_to_i64(v: NonMaxU16)
    ensures
        <NonMaxI64 as FromSpec<NonMaxU16>>::from_spec(v)@ == v@ as i64,
{
    lemma_encode_value_i64(v@ as i64);
}

impl From<NonMaxU16> for NonMaxI128 {
    /// A strictly narrower non-max value is a legal value of the wider
    /// type: the narrower legal range is a strict subset of the wider one.
    fn from(small: NonMaxU16) -> (r: NonMaxI128) {
        NonMaxI128::new_unchecked(small.get() as i128)
    }
}

impl vstd::std_specs::convert::FromSpecImpl<NonMaxU16> for NonMaxI128 {
    open spec fn obeys_from_spec() -> bool {
        true
    }

    open spec fn from_spec(v: NonMaxU16) -> NonMaxI128 {
        NonMaxI128::encode(v@ as i128)
    }
}

/// Conversion law: widening a non-max value and then reading the logical
/// value back equals widening the logical value directly.
pub proof fn lemma_widen_nonmax_u16_to_i128(v: NonMaxU16)
    ensures
        <NonMaxI128 as FromSpec<NonMaxU16>>::from_spec(v)@ == v@ as i128,
{
    lemma_encode_value_i128(v@ as i128);
}

impl From<NonMaxU32> for NonMaxI64 {
    /// A strictly narrower non-max value is a legal value of the wider
    /// type: the narrower legal range is a strict subset of the wider one.
    fn from(small: NonMaxU32) -> (r: NonMaxI64) {
        NonMaxI64::new_unchecked(small.get() as i64)
    }
}

impl vstd::std_specs::convert::FromSpecImpl<NonMaxU32> for NonMaxI64 {
    open spec fn obeys_from_spec() -> bool {
        true
    }

    open spec fn from_spec(v: NonMaxU32) -> NonMaxI64 {
        NonMaxI64::encode(v@ as i64)
    }
}

/// Conversion law: widening a non-max value and then reading the logical
/// value back equals widening the logical value directly.
pub proof fn lemma_widen_nonmax_u32_to_i64(v: NonMaxU32)
    ensures
        <NonMaxI64 as FromSpec<NonMaxU32>>::from_spec(v)@ == v@ as i64,
{
    lemma_encode_value_i64(v@ as i64);
}

impl From<NonMaxU32> for NonMaxI128 {
    /// A strictly narrower non-max value is a legal value of the wider
    /// type: the narrower legal range is a strict subset of the wider one.
    fn from(small: NonMaxU32) -> (r: NonMaxI128) {
        NonMaxI128::new_unchecked(small.get() as i128)
    }
}

impl vstd::std_specs::convert::FromSpecImpl<NonMaxU32> for NonMaxI128 {
    open spec fn obeys_from_spec() -> bool {
        true
    }

    open spec fn from_spec(v: NonMaxU32) -> NonMaxI128 {
        NonMaxI128::encode(v@ as i128)
    }
}

/// Conversion law: widening a non-max value and then reading the logical
/// value back equals widening the logical value directly.
pub proof fn lemma_widen_nonmax_u32_to_i128(v: NonMaxU32)
    ensures
        <NonMaxI128 as FromSpec<NonMaxU32>>::from_spec(v)@ == v@ as i128,
{
    lemma_encode_value_i128(v@ as i128);
}

impl From<NonMaxU64> for NonMaxI128 {
    /// A strictly narrower non-max value is a legal value of the wider
    /// type: the narrower legal range is a strict subset of the wider one.
    fn from(small: NonMaxU64) -> (r: NonMaxI128) {
        NonMaxI128::new_unchecked(small.get() as i128)
    }
}

impl vstd::std_specs::convert::FromSpecImpl<NonMaxU64> for NonMaxI128 {
    open spec fn obeys_from_spec() -> bool {
        true
    }

    open spec fn from_spec(v: NonMaxU64) -> NonMaxI128 {
        NonMaxI128::encode(v@ as i128)
    }
}

/// Conversion law: widening a non-max value and then reading the logical
/// value back equals widening the logical value directly.
pub proof fn lemma_widen_nonmax_u64_to_i128(v: NonMaxU64)
    ensures
        <NonMaxI128 as FromSpec<NonMaxU64>>::from_spec(v)@ == v@ as i128,
{
    lemma_encode_value_i128(v@ as i128);
}

impl From<u8> for NonMaxI16 {
    /// A plain narrower primitive can never equal the wider maximum.
    fn from(small: u8) -> (r: NonMaxI16) {
        NonMaxI16::new_unchecked(small as i16)
    }
}

impl vstd::std_specs::convert::FromSpecImpl<u8> for NonMaxI16 {
    open spec fn obeys_from_spec() -> bool {
        true
    }

    open spec fn from_spec(v: u8) -> NonMaxI16 {
        NonMaxI16::encode(v as i16)
    }
}

/// Conversion law: wrapping a narrower primitive into the wider non-max
/// type preserves the value exactly.
pub proof fn lemma_widen_prim_u8_to_i16(v: u8)
    ensures
        <NonMaxI16 as FromSpec<u8>>::from_spec(v)@ == v as i16,
{
    lemma_encode_value_i16(v as i16);
}

impl From<u8> for NonMaxI32 {
    /// A plain narrower primitive can never equal the wider maximum.
    fn from(small: u8) -> (r: NonMaxI32) {
        NonMaxI32::new_unchecked(small as i32)
    }
}

impl vstd::std_specs::convert::FromSpecImpl<u8> for NonMaxI32 {
    open spec fn obeys_from_spec() -> bool {
        true
    }

    open spec fn from_spec(v: u8) -> NonMaxI32 {
        NonMaxI32::encode(v as i32)
    }
}

/// Conversion law: wrapping a narrower primitive into the wider non-max
/// type preserves the value exactly.
pub proof fn lemma_widen_prim_u8_to_i32(v: u8)
    ensures
        <NonMaxI32 as FromSpec<u8>>::from_spec(v)@ == v as i32,
{
    lemma_encode_value_i32(v as i32);
}

impl From<u8> for NonMaxI64 {
    /// A plain narrower primitive can never equal the wider maximum.
    fn from(small: u8) -> (r: NonMaxI64) {
        NonMaxI64::new_unchecked(small as i64)
    }
}

impl vstd::std_specs::convert::FromSpecImpl<u8> for NonMaxI64 {
    open spec fn obeys_from_spec() -> bool {
        true
    }

    open spec fn from_spec(v: u8) -> NonMaxI64 {
        NonMaxI64::encode(v as i64)
    }
}

/// Conversion law: wrapping a narrower primitive into the wider non-max
/// type preserves the value exactly.
pub proof fn lemma_widen_prim_u8_to_i64(v: u8)
    ensures
        <NonMaxI64 as FromSpec<u8>>::from_spec(v)@ == v as i64,
{
    lemma_encode_value_i64(v as i64);
}

impl From<u8> for NonMaxI128 {
    /// A plain narrower primitive can never equal the wider maximum.
    fn from(small: u8) -> (r: NonMaxI128) {
        NonMaxI128::new_unchecked(small as i128)
    }
}

impl vstd::std_specs::convert::FromSpecImpl<u8> for NonMaxI128 {
    open spec fn obeys_from_spec() -> bool {
        true
    }

    open spec fn from_spec(v: u8) -> NonMaxI128 {
        NonMaxI128::encode(v as i128)
    }
}

/// Conversion law: wrapping a narrower primitive into the wider non-max
/// type preserves the value exactly.
pub proof fn lemma_widen_prim_u8_to_i128(v: u8)
    ensures
        <NonMaxI128 as FromSpec<u8>>::from_spec(v)@ == v as i128,
{
    lemma_encode_value_i128(v as i128);
}

impl From<u8> for NonMaxIsize {
    /// A plain narrower primitive can never equal the wider maximum.
    fn from(small: u8) -> (r: NonMaxIsize) {
        proof {
            lemma_word_max_floor();
        }
        NonMaxIsize::new_unchecked(small as isize)
    }
}

impl vstd::std_specs::convert::FromSpecImpl<u8> for NonMaxIsize {
    open spec fn obeys_from_spec() -> bool {
        true
    }

    open spec fn from_spec(v: u8) -> NonMaxIsize {
        NonMaxIsize::encode(v as isize)
    }
}

/// Conversion law: wrapping a narrower primitive into the wider non-max
/// type preserves the value exactly.
pub proof fn lemma_widen_prim_u8_to_isize(v: u8)
    ensures
        <NonMaxIsize as FromSpec<u8>>::from_spec(v)@ == v as isize,
{
    lemma_encode_value_isize(v as isize);
}

impl From<u16> for NonMaxI32 {
    /// A plain narrower primitive can never equal the wider maximum.
    fn from(small: u16) -> (r: NonMaxI32) {
        NonMaxI32::new_unchecked(small as i32)
    }
}

impl vstd::std_specs::convert::FromSpecImpl<u16> for NonMaxI32 {
    open spec fn obeys_from_spec() -> bool {
        true
    }

    open spec fn from_spec(v: u16) -> NonMaxI32 {
        NonMaxI32::encode(v as i32)
    }
}

/// Conversion law: wrapping a narrower primitive into the wider non-max
/// type preserves the value exactly.
pub proof fn lemma_widen_prim_u16_to_i32(v: u16)
    ensures
        <NonMaxI32 as FromSpec<u16>>::from_spec(v)@ == v as i32,
{
    lemma_encode_value_i32(v as i32);
}

impl From<u16> for NonMaxI64 {
    /// A plain narrower primitive can never equal the wider maximum.
    fn from(small: u16) -> (r: NonMaxI64) {
        NonMaxI64::new_unchecked(small as i64)
    }
}

impl vstd::std_specs::convert::FromSpecImpl<u16> for NonMaxI64 {
    open spec fn obeys_from_spec() -> bool {
        true
    }

    open spec fn from_spec(v: u16) -> NonMaxI64 {
        NonMaxI64::encode(v as i64)
    }
}

/// Conversion law: wrapping a narrower primitive into the wider non-max
/// type preserves the value exactly.
pub proof fn lemma_widen_prim_u16_to_i64(v: u16)
    ensures
        <NonMaxI64 as FromSpec<u16>>::from_spec(v)@ == v as i64,
{
    lemma_encode_value_i64(v as i64);
}

impl From<u16> for NonMaxI128 {
    /// A plain narrower primitive can never equal the wider maximum.
    fn from(small: u16) -> (r: NonMaxI128) {
        NonMaxI128::new_unchecked(small as i128)
    }
}

impl vstd::std_specs::convert::FromSpecImpl<u16> for NonMaxI128 {
    open spec fn obeys_from_spec() -> bool {
        true
    }

    open spec fn from_spec(v: u16) -> NonMaxI128 {
        NonMaxI128::encode(v as i128)
    }
}

/// Conversion law: wrapping a narrower primitive into the wider non-max
/// type preserves the value exactly.
pub proof fn lemma_widen_prim_u16_to_i128(v: u16)
    ensures
        <NonMaxI128 as FromSpec<u16>>::from_spec(v)@ == v as i128,
{
    lemma_encode_value_i128(v as i128);
}

impl From<u32> for NonMaxI64 {
    /// A plain narrower primitive can never equal the wider maximum.
    fn from(small: u32) -> (r: NonMaxI64) {
        NonMaxI64::new_unchecked(small as i64)
    }
}

impl vstd::std_specs::convert::FromSpecImpl<u32> for NonMaxI64 {
    open spec fn obeys_from_spec() -> bool {
        true
    }

    open spec fn from_spec(v: u32) -> NonMaxI64 {
        NonMaxI64::encode(v as i64)
    }
}

/// Conversion law: wrapping a narrower primitive into the wider non-max
/// type preserves the value exactly.
pub proof fn lemma_widen_prim_u32_to_i64(v: u32)
    ensures
        <NonMaxI64 as FromSpec<u32>>::from_spec(v)@ == v as i64,
{
    lemma_encode_value_i64(v as i64);
}

impl From<u32> for NonMaxI128 {
    /// A plain narrower primitive can never equal the wider maximum.
    fn from(small: u32) -> (r: NonMaxI128) {
        NonMaxI128::new_unchecked(small as i128)
    }
}

impl vstd::std_specs::convert::FromSpecImpl<u32> for NonMaxI128 {
    open spec fn obeys_from_spec() -> bool {
        true
    }

    open spec fn from_spec(v: u32) -> NonMaxI128 {
        NonMaxI128::encode(v as i128)
    }
}

/// Conversion law: wrapping a narrower primitive into the wider non-max
/// type preserves the value exactly.
pub proof fn lemma_widen_prim_u32_to_i128(v: u32)
    ensures
        <NonMaxI128 as FromSpec<u32>>::from_spec(v)@ == v as i128,
{
    lemma_encode_value_i128(v as i128);
}

impl From<u64> for NonMaxI128 {
    /// A plain narrower primitive can never equal the wider maximum.
    fn from(small: u64) -> (r: NonMaxI128) {
        NonMaxI128::new_unchecked(small as i128)
    }
}

impl vstd::std_specs::convert::FromSpecImpl<u64> for NonMaxI128 {
    open spec fn obeys_from_spec() -> bool {
        true
    }

    open spec fn from_spec(v: u64) -> NonMaxI128 {
        NonMaxI128::encode(v as i128)
    }
}

/// Conversion law: wrapping a narrower primitive into the wider non-max
/// type preserves the value exactly.
pub proof fn lemma_widen_prim_u64_to_i128(v: u64)
    ensures
        <NonMaxI128 as FromSpec<u64>>::from_spec(v)@ == v as i128,
{
    lemma_encode_value_i128(v as i128);
}

} // verus!
