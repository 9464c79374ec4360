//! The library's error type and the text that describes each error.
use vstd::prelude::*;
use crate::text::{decimal, push_decimal, push_str, string_of};

verus! {

/// Errors reported by the library.
#[derive(Debug, Clone, PartialEq)]
pub enum LuxError {
    /// An input that must hold at least one item held none.
    EmptyInput,
    /// Two inputs that must have the same length do not.
    MismatchedLengths { wavelengths: usize, values: usize },
    /// Wavelengths are not finite and strictly increasing.
    NonMonotonicWavelengths,
    /// A wavelength grid has a non-finite bound or step, a step that is not
    /// positive, or an end before its start.
    InvalidGridSpec,
    /// The named observer is not supported.
    UnsupportedObserver(&'static str),
    /// An operation that needs an observer was given none.
    MissingObserver,
    /// A data table could not be read; the text says what was wrong.
    ParseError(&'static str),
    /// An argument is outside the values the operation accepts.
    InvalidInput(&'static str),
}

/// Result type of the library's fallible operations.
pub type LuxResult<T> = Result<T, LuxError>;

/// The text that describes an error.
pub open spec fn error_text(e: LuxError) -> Seq<char> {
    match e {
        LuxError::EmptyInput => "input cannot be empty"@,
        LuxError::MismatchedLengths { wavelengths, values } =>
            "wavelength/value length mismatch: wavelengths="@ + decimal(wavelengths as nat)
                + ", values="@ + decimal(values as nat),
        LuxError::NonMonotonicWavelengths => "wavelengths must be strictly increasing"@,
        LuxError::InvalidGridSpec => "invalid wavelength grid specification"@,
        LuxError::UnsupportedObserver(name) => "unsupported observer: "@ + name@,
        LuxError::MissingObserver => "an observer is required for this operation"@,
        LuxError::ParseError(message) => "parse error: "@ + message@,
        LuxError::InvalidInput(message) => "invalid input: "@ + message@,
    }
}

impl LuxError {
    /// The text that describes this error.
    pub fn message(&self) -> (r: String)
        ensures
            r@ == error_text(*self),
    {
        let mut out: Vec<char> = Vec::new();
        match self {
            LuxError::EmptyInput => push_str(&mut out, "input cannot be empty"),
            LuxError::MismatchedLengths { wavelengths, values } => {
                push_str(&mut out, "wavelength/value length mismatch: wavelengths=");
                push_decimal(&mut out, *wavelengths);
                push_str(&mut out, ", values=");
                push_decimal(&mut out, *values);
            },
            LuxError::NonMonotonicWavelengths => push_str(
                &mut out,
                "wavelengths must be strictly increasing",
            ),
            LuxError::InvalidGridSpec => push_str(&mut out, "invalid wavelength grid specification"),
            LuxError::UnsupportedObserver(name) => {
                push_str(&mut out, "unsupported observer: ");
                push_str(&mut out, name);
            },
            LuxError::MissingObserver => push_str(
                &mut out,
                "an observer is required for this operation",
            ),
            LuxError::ParseError(message) => {
                push_str(&mut out, "parse error: ");
                push_str(&mut out, message);
            },
            LuxError::InvalidInput(message) => {
                push_str(&mut out, "invalid input: ");
                push_str(&mut out, message);
            },
        }
        string_of(out.as_slice())
    }
}

} // verus!
