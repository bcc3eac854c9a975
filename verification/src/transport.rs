//! Classification of finished transport requests.
//!
//! The transport layer issues HTTP requests with a fixed deadline.  A request
//! ends in one of three raw ways: the deadline passed, the connection failed,
//! or the server answered with a status code and a body.  Only a 2xx answer
//! counts as success; everything else is folded into a `TransportError`.

use vstd::prelude::*;

verus! {

/// Deadline applied to every authentication request, in milliseconds.
pub const TIMEOUT_MS: u64 = 5000;

/// The ways a transport request can fail.
#[derive(Clone, Copy, Debug, PartialEq, Eq, Structural)]
pub enum TransportError {
    /// The deadline passed before an answer arrived.
    Timeout,
    /// The connection itself failed.
    NetworkFailure,
    /// The server answered, but with a non-success status code.
    HttpStatus(u16),
}

/// The raw end of a request, before classification.
pub enum RawCompletion {
    /// The deadline passed.
    TimedOut,
    /// The connection failed.
    Failed,
    /// The server answered with a status code and a body.
    Responded(u16, Vec<u8>),
}

/// Whether a status code counts as success.
pub open spec fn spec_is_success(status: u16) -> bool {
    200 <= status < 300
}

/// What classification yields for a given raw completion.
pub open spec fn spec_classify(raw: RawCompletion) -> Result<Seq<u8>, TransportError> {
    match raw {
        RawCompletion::TimedOut => Err(TransportError::Timeout),
        RawCompletion::Failed => Err(TransportError::NetworkFailure),
        RawCompletion::Responded(status, body) => {
            if spec_is_success(status) {
                Ok(body@)
            } else {
                Err(TransportError::HttpStatus(status))
            }
        },
    }
}

/// Classify the raw end of a request: a 2xx answer succeeds with its body,
/// any other answer becomes `HttpStatus`, a missed deadline becomes `Timeout`,
/// and a broken connection becomes `NetworkFailure`.
pub fn classify(raw: RawCompletion) -> (r: Result<Vec<u8>, TransportError>)
    ensures
        match r {
            Ok(body) => spec_classify(raw) == Ok::<Seq<u8>, TransportError>(body@),
            Err(e) => spec_classify(raw) == Err::<Seq<u8>, TransportError>(e),
        },
{
    match raw {
        RawCompletion::TimedOut => Err(TransportError::Timeout),
        RawCompletion::Failed => Err(TransportError::NetworkFailure),
        RawCompletion::Responded(status, body) => {
            if 200 <= status && status < 300 {
                Ok(body)
            } else {
                Err(TransportError::HttpStatus(status))
            }
        },
    }
}

} // verus!
