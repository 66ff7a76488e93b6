//! The error taxonomy of the client: transport failures, bootstrap
//! failures (chained to the transport failure they follow), and decode
//! failures on individual stream payloads.

use vstd::prelude::*;

verus! {

/// Why an invocation or a connection attempt failed.
///
/// Every failure of the client surfaces as exactly one of these variants;
/// none is swallowed or retried beyond the single bootstrap path.
#[derive(Debug, PartialEq, Eq)]
pub enum ClientError {
    /// The channel could not be built, or an in-flight stream terminated
    /// with a non-clean status. Carries the transport's own description.
    Transport { message: String },
    /// The connection failed, auto-bootstrap was attempted, and the spawn
    /// itself failed. `message` describes the spawn failure; `original` is
    /// the description of the transport failure that triggered the attempt,
    /// so the root cause is never masked.
    Bootstrap { message: String, original: String },
    /// The payload at position `index` of the response stream could not be
    /// decoded into the requested target type. Terminal for the whole
    /// invocation: no later payload is delivered.
    Decode { index: usize },
}

} // verus!
