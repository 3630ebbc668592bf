use vstd::prelude::*;

verus! {

/// An error returned when a checked integral type conversion fails.
#[derive(Debug, Clone, Copy, PartialEq, Eq)]
pub struct TryFromIntError;

/// An error returned when an integer cannot be parsed from text, or when
/// the parsed value equals the excluded maximum.
#[derive(Clone, Debug, PartialEq, Eq)]
pub struct ParseIntError;

/// Relies on `core::num::ParseIntError` being a plain error value: it is
/// only carried into [`ParseIntError::from`], never inspected.
#[verifier::external_type_specification]
#[verifier::external_body]
pub struct ExStdParseIntError(core::num::ParseIntError);

impl From<core::num::TryFromIntError> for TryFromIntError {
    /// Any failed conversion of the standard library maps to the single
    /// out-of-range error of this crate.
    fn from(_error: core::num::TryFromIntError) -> (r: TryFromIntError) {
        TryFromIntError
    }
}

impl vstd::std_specs::convert::FromSpecImpl<core::num::TryFromIntError> for TryFromIntError {
    open spec fn obeys_from_spec() -> bool {
        true
    }

    open spec fn from_spec(_error: core::num::TryFromIntError) -> TryFromIntError {
        TryFromIntError
    }
}

impl From<core::num::ParseIntError> for ParseIntError {
    /// Any failed parse of the standard library maps to the single parse
    /// error of this crate; the cause is not kept.
    fn from(_error: core::num::ParseIntError) -> (r: ParseIntError) {
        ParseIntError
    }
}

impl vstd::std_specs::convert::FromSpecImpl<core::num::ParseIntError> for ParseIntError {
    open spec fn obeys_from_spec() -> bool {
        true
    }

    open spec fn from_spec(_error: core::num::ParseIntError) -> ParseIntError {
        ParseIntError
    }
}

} // verus!
