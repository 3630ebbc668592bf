//! Infallible widening conversions between signed non-max types, and from plain narrower signed primitives.

use vstd::prelude::*;

use crate::nonmax_i128::NonMaxI128;
use crate::nonmax_i16::NonMaxI16;
use crate::nonmax_i32::NonMaxI32;
use crate::nonmax_i64::NonMaxI64;
use crate::nonmax_i8::NonMaxI8;
use crate::nonmax_isize::NonMaxIsize;
use crate::nonmax_i128::lemma_encode_value_i128;
use crate::nonmax_i16::lemma_encode_value_i16;
use crate::nonmax_i32::lemma_encode_value_i32;
use crate::nonmax_i64::lemma_encode_value_i64;
use crate::nonmax_isize::lemma_encode_value_isize;
use crate::convert_unsigned::lemma_word_max_floor;
use vstd::std_specs::convert::FromSpec;

verus! {

impl From<NonMaxI8> for NonMaxI16 {
    /// A strictly narrower non-max value is a legal value of the wider
    /// type: the narrower legal range is a strict subset of the wider one.
    fn from(small: NonMaxI8) -> (r: NonMaxI16) {
        NonMaxI16::new_unchecked(small.get() as i16)
    }
}

impl vstd::std_specs::convert::FromSpecImpl<NonMaxI8> for NonMaxI16 {
    open spec fn obeys_from_spec() -> bool {
        true
    }

    open spec fn from_spec(v: NonMaxI8) -> NonMaxI16 {
        NonMaxI16::encode(v@ as i16)
    }
}

/// Conversion law: widening a non-max value and then reading the logical
/// value back equals widening the logical value directly.
pub proof fn lemma_widen_nonmax_i8_to_i16(v: NonMaxI8)
    ensures
        <NonMaxI16 as FromSpec<NonMaxI8>>::from_spec(v)@ == v@ as i16,
{
    lemma_encode_value_i16(v@ as i16);
}

impl From<NonMaxI8> for NonMaxI32 {
    /// A strictly narrower non-max value is a legal value of the wider
    /// type: the narrower legal range is a strict subset of the wider one.
    fn from(small: NonMaxI8) -> (r: NonMaxI32) {
        NonMaxI32::new_unchecked(small.get() as i32)
    }
}

impl vstd::std_specs::convert::FromSpecImpl<NonMaxI8> for NonMaxI32 {
    open spec fn obeys_from_spec() -> bool {
        true
    }

    open spec fn from_spec(v: NonMaxI8) -> NonMaxI32 {
        NonMaxI32::encode(v@ as i32)
    }
}

/// Conversion law: widening a non-max value and then reading the logical
/// value back equals widening the logical value directly.
pub proof fn lemma_widen_nonmax_i8_to_i32(v: NonMaxI8)
    ensures
        <NonMaxI32 as FromSpec<NonMaxI8>>::from_spec(v)@ == v@ as i32,
{
    lemma_encode_value_i32(v@ as i32);
}

impl From<NonMaxI8> for NonMaxI64 {
    /// A strictly narrower non-max value is a legal value of the wider
    /// type: the narrower legal range is a strict subset of the wider one.
    fn from(small: NonMaxI8) -> (r: NonMaxI64) {
        NonMaxI64::new_unchecked(small.get() as i64)
    }
}

impl vstd::std_specs::convert::FromSpecImpl<NonMaxI8> for NonMaxI64 {
    open spec fn obeys_from_spec() -> bool {
        true
    }

    open spec fn from_spec(v: NonMaxI8) -> NonMaxI64 {
        NonMaxI64::encode(v@ as i64)
    }
}

/// Conversion law: widening a non-max value and then reading the logical
/// value back equals widening the logical value directly.
pub proof fn lemma_widen_nonmax_i8_to_i64(v: NonMaxI8)
    ensures
        <NonMaxI64 as FromSpec<NonMaxI8>>::from_spec(v)@ == v@ as i64,
{
    lemma_encode_value_i64(v@ as i64);
}

impl From<NonMaxI8> for NonMaxI128 {
    /// A strictly narrower non-max value is a legal value of the wider
    /// type: the narrower legal range is a strict subset of the wider one.
    fn from(small: NonMaxI8) -> (r: NonMaxI128) {
        NonMaxI128::new_unchecked(small.get() as i128)
    }
}

impl vstd::std_specs::convert::FromSpecImpl<NonMaxI8> for NonMaxI128 {
    open spec fn obeys_from_spec() -> bool {
        true
    }

    open spec fn from_spec(v: NonMaxI8) -> NonMaxI128 {
        NonMaxI128::encode(v@ as i128)
    }
}

/// Conversion law: widening a non-max value and then reading the logical
/// value back equals widening the logical value directly.
pub proof fn lemma_widen_nonmax_i8_to_i128(v: NonMaxI8)
    ensures
        <NonMaxI128 as FromSpec<NonMaxI8>>::from_spec(v)@ == v@ as i128,
{
    lemma_encode_value_i128(v@ as i128);
}

impl From<NonMaxI8> for NonMaxIsize {
    /// A strictly narrower non-max value is a legal value of the wider
    /// type: the narrower legal range is a strict subset of the wider one.
    fn from(small: NonMaxI8) -> (r: NonMaxIsize) {
        proof {
            lemma_word_max_floor();
        }
        NonMaxIsize::new_unchecked(small.get() as isize)
    }
}

impl vstd::std_specs::convert::FromSpecImpl<NonMaxI8> for NonMaxIsize {
    open spec fn obeys_from_spec() -> bool {
        true
    }

    open spec fn from_spec(v: NonMaxI8) -> NonMaxIsize {
        NonMaxIsize::encode(v@ as isize)
    }
}

/// Conversion law: widening a non-max value and then reading the logical
/// value back equals widening the logical value directly.
pub proof fn lemma_widen_nonmax_i8_to_isize(v: NonMaxI8)
    ensures
        <NonMaxIsize as FromSpec<NonMaxI8>>::from_spec(v)@ == v@ as isize,
{
    lemma_encode_value_isize(v@ as isize);
}

impl From<NonMaxI16> for NonMaxI32 {
    /// A strictly narrower non-max value is a legal value of the wider
    /// type: the narrower legal range is a strict subset of the wider one.
    fn from(small: NonMaxI16) -> (r: NonMaxI32) {
        NonMaxI32::new_unchecked(small.get() as i32)
    }
}

impl vstd::std_specs::convert::FromSpecImpl<NonMaxI16> for NonMaxI32 {
    open spec fn obeys_from_spec() -> bool {
        true
    }

    open spec fn from_spec(v: NonMaxI16) -> NonMaxI32 {
        NonMaxI32::encode(v@ as i32)
    }
}

/// Conversion law: widening a non-max value and then reading the logical
/// value back equals widening the logical value directly.
pub proof fn lemma_widen_nonmax_i16_to_i32(v: NonMaxI16)
    ensures
        <NonMaxI32 as FromSpec<NonMaxI16>>::from_spec(v)@ == v@ as i32,
{
    lemma_encode_value_i32(v@ as i32);
}

impl From<NonMaxI16> for NonMaxI64 {
    /// A strictly narrower non-max value is a legal value of the wider
    /// type: the narrower legal range is a strict subset of the wider one.
    fn from(small: NonMaxI16) -> (r: NonMaxI64) {
        NonMaxI64::new_unchecked(small.get() as i64)
    }
}

impl vstd::std_specs::convert::FromSpecImpl<NonMaxI16> for NonMaxI64 {
    open spec fn obeys_from_spec() -> bool {
        true
    }

    open spec fn from_spec(v: NonMaxI16) -> NonMaxI64 {
        NonMaxI64::encode(v@ as i64)
    }
}

/// Conversion law: widening a non-max value and then reading the logical
/// value back equals widening the logical value directly.
pub proof fn lemma_widen_nonmax_i16_to_i64(v: NonMaxI16)
    ensures
        <NonMaxI64 as FromSpec<NonMaxI16>>::from_spec(v)@ == v@ as i64,
{
    lemma_encode_value_i64(v@ as i64);
}

impl From<NonMaxI16> for NonMaxI128 {
    /// A strictly narrower non-max value is a legal value of the wider
    /// type: the narrower legal range is a strict subset of the wider one.
    fn from(small: NonMaxI16) -> (r: NonMaxI128) {
        NonMaxI128::new_unchecked(small.get() as i128)
    }
}

impl vstd::std_specs::convert::FromSpecImpl<NonMaxI16> for NonMaxI128 {
    open spec fn obeys_from_spec() -> bool {
        true
    }

    open spec fn from_spec(v: NonMaxI16) -> NonMaxI128 {
        NonMaxI128::encode(v@ as i128)
    }
}

/// Conversion law: widening a non-max value and then reading the logical
/// value back equals widening the logical value directly.
pub proof fn lemma_widen_nonmax_i16_to_i128(v: NonMaxI16)
    ensures
        <NonMaxI128 as FromSpec<NonMaxI16>>::from_spec(v)@ == v@ as i128,
{
    lemma_encode_value_i128(v@ as i128);
}

impl From<NonMaxI16> for NonMaxIsize {
    /// A strictly narrower non-max value is a legal value of the wider
    /// type: the narrower legal range is a strict subset of the wider one.
    fn from(small: NonMaxI16) -> (r: NonMaxIsize) {
        proof {
            lemma_word_max_floor();
        }
        NonMaxIsize::new_unchecked(small.get() as isize)
    }
}

impl vstd::std_specs::convert::FromSpecImpl<NonMaxI16> for NonMaxIsize {
    open spec fn obeys_from_spec() -> bool {
        true
    }

    open spec fn from_spec(v: NonMaxI16) -> NonMaxIsize {
        NonMaxIsize::encode(v@ as isize)
    }
}

/// Conversion law: widening a non-max value and then reading the logical
/// value back equals widening the logical value directly.
pub proof fn lemma_widen_nonmax_i16_to_isize(v: NonMaxI16)
    ensures
        <NonMaxIsize as FromSpec<NonMaxI16>>::from_spec(v)@ == v@ as isize,
{
    lemma_encode_value_isize(v@ as isize);
}

impl From<NonMaxI32> for NonMaxI64 {
    /// A strictly narrower non-max value is a legal value of the wider
    /// type: the narrower legal range is a strict subset of the wider one.
    fn from(small: NonMaxI32) -> (r: NonMaxI64) {
        NonMaxI64::new_unchecked(small.get() as i64)
    }
}

impl vstd::std_specs::convert::FromSpecImpl<NonMaxI32> for NonMaxI64 {
    open spec fn obeys_from_spec() -> bool {
        true
    }

    open spec fn from_spec(v: NonMaxI32) -> NonMaxI64 {
        NonMaxI64::encode(v@ as i64)
    }
}

/// Conversion law: widening a non-max value and then reading the logical
/// value back equals widening the logical value directly.
pub proof fn lemma_widen_nonmax_i32_to_i64(v: NonMaxI32)
    ensures
        <NonMaxI64 as FromSpec<NonMaxI32>>::from_spec(v)@ == v@ as i64,
{
    lemma_encode_value_i64(v@ as i64);
}

impl From<NonMaxI32> for NonMaxI128 {
    /// A strictly narrower non-max value is a legal value of the wider
    /// type: the narrower legal range is a strict subset of the wider one.
    fn from(small: NonMaxI32) -> (r: NonMaxI128) {
        NonMaxI128::new_unchecked(small.get() as i128)
    }
}

impl vstd::std_specs::convert::FromSpecImpl<NonMaxI32> for NonMaxI128 {
    open spec fn obeys_from_spec() -> bool {
        true
    }

    open spec fn from_spec(v: NonMaxI32) -> NonMaxI128 {
        NonMaxI128::encode(v@ as i128)
    }
}

/// Conversion law: widening a non-max value and then reading the logical
/// value back equals widening the logical value directly.
pub proof fn lemma_widen_nonmax_i32_to_i128(v: NonMaxI32)
    ensures
        <NonMaxI128 as FromSpec<NonMaxI32>>::from_spec(v)@ == v@ as i128,
{
    lemma_encode_value_i128(v@ as i128);
}

impl From<NonMaxI64> for NonMaxI128 {
    /// A strictly narrower non-max value is a legal value of the wider
    /// type: the narrower legal range is a strict subset of the wider one.
    fn from(small: NonMaxI64) -> (r: NonMaxI128) {
        NonMaxI128::new_unchecked(small.get() as i128)
    }
}

impl vstd::std_specs::convert::FromSpecImpl<NonMaxI64> for NonMaxI128 {
    open spec fn obeys_from_spec() -> bool {
        true
    }

    open spec fn from_spec(v: NonMaxI64) -> NonMaxI128 {
        NonMaxI128::encode(v@ as i128)
    }
}

/// Conversion law: widening a non-max value and then reading the logical
/// value back equals widening the logical value directly.
pub proof fn lemma_widen_nonmax_i64_to_i128(v: NonMaxI64)
    ensures
        <NonMaxI128 as FromSpec<NonMaxI64>>::from_spec(v)@ == v@ as i128,
{
    lemma_encode_value_i128(v@ as i128);
}

impl From<i8> for NonMaxI16 {
    /// A plain narrower primitive can never equal the wider maximum.
    fn from(small: i8) -> (r: NonMaxI16) {
        NonMaxI16::new_unchecked(small as i16)
    }
}

impl vstd::std_specs::convert::FromSpecImpl<i8> for NonMaxI16 {
    open spec fn obeys_from_spec() -> bool {
        true
    }

    open spec fn from_spec(v: i8) -> NonMaxI16 {
        NonMaxI16::encode(v as i16)
    }
}

/// Conversion law: wrapping a narrower primitive into the wider non-max
/// type preserves the value exactly.
pub proof fn lemma_widen_prim_i8_to_i16(v: i8)
    ensures
        <NonMaxI16 as FromSpec<i8>>::from_spec(v)@ == v as i16,
{
    lemma_encode_value_i16(v as i16);
}

impl From<i8> for NonMaxI32 {
    /// A plain narrower primitive can never equal the wider maximum.
    fn from(small: i8) -> (r: NonMaxI32) {
        NonMaxI32::new_unchecked(small as i32)
    }
}

impl vstd::std_specs::convert::FromSpecImpl<i8> for NonMaxI32 {
    open spec fn obeys_from_spec() -> bool {
        true
    }

    open spec fn from_spec(v: i8) -> NonMaxI32 {
        NonMaxI32::encode(v as i32)
    }
}

/// Conversion law: wrapping a narrower primitive into the wider non-max
/// type preserves the value exactly.
pub proof fn lemma_widen_prim_i8_to_i32(v: i8)
    ensures
        <NonMaxI32 as FromSpec<i8>>::from_spec(v)@ == v as i32,
{
    lemma_encode_value_i32(v as i32);
}

impl From<i8> for NonMaxI64 {
    /// A plain narrower primitive can never equal the wider maximum.
    fn from(small: i8) -> (r: NonMaxI64) {
        NonMaxI64::new_unchecked(small as i64)
    }
}

impl vstd::std_specs::convert::FromSpecImpl<i8> for NonMaxI64 {
    open spec fn obeys_from_spec() -> bool {
        true
    }

    open spec fn from_spec(v: i8) -> NonMaxI64 {
        NonMaxI64::encode(v as i64)
    }
}

/// Conversion law: wrapping a narrower primitive into the wider non-max
/// type preserves the value exactly.
pub proof fn lemma_widen_prim_i8_to_i64(v: i8)
    ensures
        <NonMaxI64 as FromSpec<i8>>::from_spec(v)@ == v as i64,
{
    lemma_encode_value_i64(v as i64);
}

impl From<i8> for NonMaxI128 {
    /// A plain narrower primitive can never equal the wider maximum.
    fn from(small: i8) -> (r: NonMaxI128) {
        NonMaxI128::new_unchecked(small as i128)
    }
}

impl vstd::std_specs::convert::FromSpecImpl<i8> for NonMaxI128 {
    open spec fn obeys_from_spec() -> bool {
        true
    }

    open spec fn from_spec(v: i8) -> NonMaxI128 {
        NonMaxI128::encode(v as i128)
    }
}

/// Conversion law: wrapping a narrower primitive into the wider non-max
/// type preserves the value exactly.
pub proof fn lemma_widen_prim_i8_to_i128(v: i8)
    ensures
        <NonMaxI128 as FromSpec<i8>>::from_spec(v)@ == v as i128,
{
    lemma_encode_value_i128(v as i128);
}

impl From<i8> for NonMaxIsize {
    /// A plain narrower primitive can never equal the wider maximum.
    fn from(small: i8) -> (r: NonMaxIsize) {
        proof {
            lemma_word_max_floor();
        }
        NonMaxIsize::new_unchecked(small as isize)
    }
}

impl vstd::std_specs::convert::FromSpecImpl<i8> for NonMaxIsize {
    open spec fn obeys_from_spec() -> bool {
        true
    }

    open spec fn from_spec(v: i8) -> NonMaxIsize {
        NonMaxIsize::encode(v as isize)
    }
}

/// Conversion law: wrapping a narrower primitive into the wider non-max
/// type preserves the value exactly.
pub proof fn lemma_widen_prim_i8_to_isize(v: i8)
    ensures
        <NonMaxIsize as FromSpec<i8>>::from_spec(v)@ == v as isize,
{
    lemma_encode_value_isize(v as isize);
}

impl From<i16> for NonMaxI32 {
    /// A plain narrower primitive can never equal the wider maximum.
    fn from(small: i16) -> (r: NonMaxI32) {
        NonMaxI32::new_unchecked(small as i32)
    }
}

impl vstd::std_specs::convert::FromSpecImpl<i16> for NonMaxI32 {
    open spec fn obeys_from_spec() -> bool {
        true
    }

    open spec fn from_spec(v: i16) -> NonMaxI32 {
        NonMaxI32::encode(v as i32)
    }
}

/// Conversion law: wrapping a narrower primitive into the wider non-max
/// type preserves the value exactly.
pub proof fn lemma_widen_prim_i16_to_i32(v: i16)
    ensures
        <NonMaxI32 as FromSpec<i16>>::from_spec(v)@ == v as i32,
{
    lemma_encode_value_i32(v as i32);
}

impl From<i16> for NonMaxI64 {
    /// A plain narrower primitive can never equal the wider maximum.
    fn from(small: i16) -> (r: NonMaxI64) {
        NonMaxI64::new_unchecked(small as i64)
    }
}

impl vstd::std_specs::convert::FromSpecImpl<i16> for NonMaxI64 {
    open spec fn obeys_from_spec() -> bool {
        true
    }

    open spec fn from_spec(v: i16) -> NonMaxI64 {
        NonMaxI64::encode(v as i64)
    }
}

/// Conversion law: wrapping a narrower primitive into the wider non-max
/// type preserves the value exactly.
pub proof fn lemma_widen_prim_i16_to_i64(v: i16)
    ensures
        <NonMaxI64 as FromSpec<i16>>::from_spec(v)@ == v as i64,
{
    lemma_encode_value_i64(v as i64);
}

impl From<i16> for NonMaxI128 {
    /// A plain narrower primitive can never equal the wider maximum.
    fn from(small: i16) -> (r: NonMaxI128) {
        NonMaxI128::new_unchecked(small as i128)
    }
}

impl vstd::std_specs::convert::FromSpecImpl<i16> for NonMaxI128 {
    open spec fn obeys_from_spec() -> bool {
        true
    }

    open spec fn from_spec(v: i16) -> NonMaxI128 {
        NonMaxI128::encode(v as i128)
    }
}

/// Conversion law: wrapping a narrower primitive into the wider non-max
/// type preserves the value exactly.
pub proof fn lemma_widen_prim_i16_to_i128(v: i16)
    ensures
        <NonMaxI128 as FromSpec<i16>>::from_spec(v)@ == v as i128,
{
    lemma_encode_value_i128(v as i128);
}

impl From<i16> for NonMaxIsize {
    /// A plain narrower primitive can never equal the wider maximum.
    fn from(small: i16) -> (r: NonMaxIsize) {
        proof {
            lemma_word_max_floor();
        }
        NonMaxIsize::new_unchecked(small as isize)
    }
}

impl vstd::std_specs::convert::FromSpecImpl<i16> for NonMaxIsize {
    open spec fn obeys_from_spec() -> bool {
        true
    }

    open spec fn from_spec(v: i16) -> NonMaxIsize {
        NonMaxIsize::encode(v as isize)
    }
}

/// Conversion law: wrapping a narrower primitive into the wider non-max
/// type preserves the value exactly.
pub proof fn lemma_widen_prim_i16_to_isize(v: i16)
    ensures
        <NonMaxIsize as FromSpec<i16>>::from_spec(v)@ == v as isize,
{
    lemma_encode_value_isize(v as isize);
}

impl From<i32> for NonMaxI64 {
    /// A plain narrower primitive can never equal the wider maximum.
    fn from(small: i32) -> (r: NonMaxI64) {
        NonMaxI64::new_unchecked(small as i64)
    }
}

impl vstd::std_specs::convert::FromSpecImpl<i32> for NonMaxI64 {
    open spec fn obeys_from_spec() -> bool {
        true
    }

    open spec fn from_spec(v: i32) -> NonMaxI64 {
        NonMaxI64::encode(v as i64)
    }
}

/// Conversion law: wrapping a narrower primitive into the wider non-max
/// type preserves the value exactly.
pub proof fn lemma_widen_prim_i32_to_i64(v: i32)
    ensures
        <NonMaxI64 as FromSpec<i32>>::from_spec(v)@ == v as i64,
{
    lemma_encode_value_i64(v as i64);
}

impl From<i32> for NonMaxI128 {
    /// A plain narrower primitive can never equal the wider maximum.
    fn from(small: i32) -> (r: NonMaxI128) {
        NonMaxI128::new_unchecked(small as i128)
    }
}

impl vstd::std_specs::convert::FromSpecImpl<i32> for NonMaxI128 {
    open spec fn obeys_from_spec() -> bool {
        true
    }

    open spec fn from_spec(v: i32) -> NonMaxI128 {
        NonMaxI128::encode(v as i128)
    }
}

/// Conversion law: wrapping a narrower primitive into the wider non-max
/// type preserves the value exactly.
pub proof fn lemma_widen_prim_i32_to_i128(v: i32)
    ensures
        <NonMaxI128 as FromSpec<i32>>::from_spec(v)@ == v as i128,
{
    lemma_encode_value_i128(v as i128);
}

impl From<i64> for NonMaxI128 {
    /// A plain narrower primitive can never equal the wider maximum.
    fn from(small: i64) -> (r: NonMaxI128) {
        NonMaxI128::new_unchecked(small as i128)
    }
}

impl vstd::std_specs::convert::FromSpecImpl<i64> for NonMaxI128 {
    open spec fn obeys_from_spec() -> bool {
        true
    }

    open spec fn from_spec(v: i64) -> NonMaxI128 {
        NonMaxI128::encode(v as i128)
    }
}

/// Conversion law: wrapping a narrower primitive into the wider non-max
/// type preserves the value exactly.
pub proof fn lemma_widen_prim_i64_to_i128(v: i64)
    ensures
        <NonMaxI128 as FromSpec<i64>>::from_spec(v)@ == v as i128,
{
    lemma_encode_value_i128(v as i128);
}

} // verus!
