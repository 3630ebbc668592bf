//! Integer types that are known never to equal their maximum value.
//!
//! Each `NonMax*` type wraps one primitive integer and guarantees, by
//! construction, that its value differs from the maximum representable
//! value of that primitive. Internally the value is stored biased: the
//! wrapper keeps `value XOR MAX`, so the excluded logical value `MAX`
//! corresponds to the all-zero stored pattern, which the wrapper never
//! holds. All operations recover the logical value by undoing the bias.

pub mod convert_mixed;
pub mod convert_signed;
pub mod convert_unsigned;
pub mod error;
pub mod nonmax_i128;
pub mod nonmax_i16;
pub mod nonmax_i32;
pub mod nonmax_i64;
pub mod nonmax_i8;
pub mod nonmax_isize;
pub mod nonmax_u128;
pub mod nonmax_u16;
pub mod nonmax_u32;
pub mod nonmax_u64;
pub mod nonmax_u8;
pub mod nonmax_usize;
pub mod parse;

pub use error::ParseIntError;
pub use error::TryFromIntError;
pub use nonmax_i128::NonMaxI128;
pub use nonmax_i16::NonMaxI16;
pub use nonmax_i32::NonMaxI32;
pub use nonmax_i64::NonMaxI64;
pub use nonmax_i8::NonMaxI8;
pub use nonmax_isize::NonMaxIsize;
pub use nonmax_u128::NonMaxU128;
pub use nonmax_u16::NonMaxU16;
pub use nonmax_u32::NonMaxU32;
pub use nonmax_u64::NonMaxU64;
pub use nonmax_u8::NonMaxU8;
pub use nonmax_usize::NonMaxUsize;
