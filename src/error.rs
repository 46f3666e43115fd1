use vstd::prelude::*;

verus! {

/// Kinds of failure that the library reports.
#[derive(Debug, Clone, Copy, PartialEq, Eq, Structural, Hash)]
pub enum ErrorKind {
    /// An argument or a received value is not acceptable.
    InvalidInput,
    /// Credentials are missing or do not check.
    Unauthorized,
    /// A feature that this library does not offer was asked for.
    Unsupported,
    /// The other side broke the protocol.
    ProtocolViolation,
    /// An operation did not complete in time.
    Timeout,
    /// The transport failed.
    Io,
    /// Any other failure.
    Other,
}

} // verus!
