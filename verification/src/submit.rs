//! What a submit request carries, and which requests are taken.

use vstd::prelude::*;

verus! {

/// The largest body, in bytes, that a submit request may declare.
pub const MAX_BODY_BYTES: u64 = 500;

/// A submit request as the transport saw it.
#[derive(Clone, Copy, Debug, PartialEq, Eq, Structural)]
pub struct Submission {
    /// The size in bytes that the request declares for its body.
    pub content_length: Option<u64>,
    /// The reading that the body decodes to, in the form that
    /// `WindowEntry::value` has; `None` where the body does not decode.
    pub reading: Option<u32>,
}

/// Why a submit request is turned away.
#[derive(Clone, Copy, Debug, PartialEq, Eq, Structural)]
pub enum SubmitError {
    /// The request declares no body size.
    LengthRequired,
    /// The declared body size is over `MAX_BODY_BYTES`.
    PayloadTooLarge,
    /// The body does not decode to a reading.
    Malformed,
}

impl SubmitError {
    /// The HTTP status that answers a request turned away for this reason.
    pub open spec fn spec_status(self) -> u16 {
        match self {
            SubmitError::LengthRequired => 411,
            SubmitError::PayloadTooLarge => 413,
            SubmitError::Malformed => 400,
        }
    }

    /// Gives the HTTP status that answers a request turned away for this
    /// reason.
    #[verifier::when_used_as_spec(spec_status)]
    pub fn status(self) -> (code: u16)
        ensures
            code == self.spec_status(),
    {
        match self {
            SubmitError::LengthRequired => 411,
            SubmitError::PayloadTooLarge => 413,
            SubmitError::Malformed => 400,
        }
    }
}

/// Whether a body of the declared size may be read at all. The size is
/// judged first, so an oversized body is never decoded.
pub open spec fn spec_check_length(content_length: Option<u64>) -> Result<(), SubmitError> {
    match content_length {
        None => Err(SubmitError::LengthRequired),
        Some(n) => if n <= MAX_BODY_BYTES {
            Ok(())
        } else {
            Err(SubmitError::PayloadTooLarge)
        },
    }
}

/// Judges the declared size of a body, before any of the body is read.
#[verifier::when_used_as_spec(spec_check_length)]
pub fn check_length(content_length: Option<u64>) -> (r: Result<(), SubmitError>)
    ensures
        r == spec_check_length(content_length),
{
    match content_length {
        None => Err(SubmitError::LengthRequired),
        Some(n) => if n <= MAX_BODY_BYTES {
            Ok(())
        } else {
            Err(SubmitError::PayloadTooLarge)
        },
    }
}

impl Submission {
    /// The reading that the request brings, or why it is turned away.
    pub open spec fn spec_check(self) -> Result<u32, SubmitError> {
        match spec_check_length(self.content_length) {
            Err(e) => Err(e),
            Ok(()) => match self.reading {
                Some(value) => Ok(value),
                None => Err(SubmitError::Malformed),
            },
        }
    }

    /// Judges the request: first the declared size, then whether the body
    /// decoded.
    #[verifier::when_used_as_spec(spec_check)]
    pub fn check(self) -> (r: Result<u32, SubmitError>)
        ensures
            r == self.spec_check(),
    {
        match check_length(self.content_length) {
            Err(e) => Err(e),
            Ok(()) => match self.reading {
                Some(value) => Ok(value),
                None => Err(SubmitError::Malformed),
            },
        }
    }
}

} // verus!
