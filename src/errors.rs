use vstd::prelude::*;

use crate::error::ErrorKind;

verus! {

pub const CODE_BAD_REQUEST: u16 = 400;
pub const CODE_UNAUTHORIZED: u16 = 401;
pub const CODE_FORBIDDEN: u16 = 403;
pub const CODE_UNKNOWN_ATTRIBUTE: u16 = 420;
pub const CODE_ALLOCATION_MISMATCH: u16 = 437;
pub const CODE_STALE_NONCE: u16 = 438;
pub const CODE_WRONG_CREDENTIALS: u16 = 441;
pub const CODE_UNSUPPORTED_TRANSPORT_PROTOCOL: u16 = 442;
pub const CODE_ALLOCATION_QUOTA_REACHED: u16 = 486;
pub const CODE_INSUFFICIENT_CAPACITY: u16 = 508;

/// ERROR-CODE attribute: a code in `300..600` and a reason phrase.
#[derive(Debug)]
pub struct ErrorCode {
    code: u16,
    reason_phrase: String,
}

impl View for ErrorCode {
    type V = (u16, Seq<char>);

    closed spec fn view(&self) -> (u16, Seq<char>) {
        (self.code, self.reason_phrase@)
    }
}

impl ErrorCode {
    #[verifier::type_invariant]
    spec fn inv(self) -> bool {
        300 <= self.code < 600
    }

    /// Rejects a code outside `300..600` with `InvalidInput`.
    pub fn new(code: u16, reason_phrase: &str) -> (r: Result<ErrorCode, ErrorKind>)
        ensures
            r is Ok <==> 300 <= code < 600,
            r is Ok ==> r->Ok_0@ == (code, reason_phrase@),
            r is Err ==> r->Err_0 == ErrorKind::InvalidInput,
    {
        if 300 <= code && code < 600 {
            Ok(ErrorCode { code, reason_phrase: reason_phrase.to_owned() })
        } else {
            Err(ErrorKind::InvalidInput)
        }
    }

    fn known(code: u16, reason_phrase: &str) -> (r: ErrorCode)
        requires
            300 <= code < 600,
        ensures
            r@.0 == code,
    {
        ErrorCode { code, reason_phrase: reason_phrase.to_owned() }
    }

    pub fn code(&self) -> (r: u16)
        ensures
            r == self@.0,
            300 <= r < 600,
    {
        proof {
            use_type_invariant(self);
        }
        self.code
    }

    pub fn reason_phrase(&self) -> (r: &str)
        ensures
            r@ == self@.1,
    {
        self.reason_phrase.as_str()
    }

    pub fn duplicate(&self) -> (r: ErrorCode)
        ensures
            r@ == self@,
    {
        proof {
            use_type_invariant(self);
        }
        ErrorCode { code: self.code, reason_phrase: self.reason_phrase.clone() }
    }

    /// 400 Bad Request.
    pub fn bad_request() -> (r: ErrorCode)
        ensures
            r@.0 == CODE_BAD_REQUEST,
    {
        Self::known(CODE_BAD_REQUEST, "Bad Request")
    }

    /// 401 Unauthorized.
    pub fn unauthorized() -> (r: ErrorCode)
        ensures
            r@.0 == CODE_UNAUTHORIZED,
    {
        Self::known(CODE_UNAUTHORIZED, "Unauthorized")
    }

    /// 420 Unknown Attribute.
    pub fn unknown_attribute() -> (r: ErrorCode)
        ensures
            r@.0 == CODE_UNKNOWN_ATTRIBUTE,
    {
        Self::known(CODE_UNKNOWN_ATTRIBUTE, "Unknown Attribute")
    }

    /// 438 Stale Nonce.
    pub fn stale_nonce() -> (r: ErrorCode)
        ensures
            r@.0 == CODE_STALE_NONCE,
    {
        Self::known(CODE_STALE_NONCE, "Stale Nonce")
    }
}

/// 403 Forbidden.
#[derive(Debug, Clone, Copy, PartialEq, Eq, Structural, Hash)]
pub struct Forbidden;

/// 437 Allocation Mismatch.
#[derive(Debug, Clone, Copy, PartialEq, Eq, Structural, Hash)]
pub struct AllocationMismatch;

/// 441 Wrong Credentials.
#[derive(Debug, Clone, Copy, PartialEq, Eq, Structural, Hash)]
pub struct WrongCredentials;

/// 442 Unsupported Transport Protocol.
#[derive(Debug, Clone, Copy, PartialEq, Eq, Structural, Hash)]
pub struct UnsupportedTransportProtocol;

/// 486 Allocation Quota Reached.
#[derive(Debug, Clone, Copy, PartialEq, Eq, Structural, Hash)]
pub struct AllocationQuotaReached;

/// 508 Insufficient Capacity.
#[derive(Debug, Clone, Copy, PartialEq, Eq, Structural, Hash)]
pub struct InsufficientCapacity;

impl Forbidden {
    pub fn error_code(&self) -> (r: ErrorCode)
        ensures
            r@.0 == CODE_FORBIDDEN,
    {
        ErrorCode::known(CODE_FORBIDDEN, "Forbidden")
    }
}

impl AllocationMismatch {
    pub fn error_code(&self) -> (r: ErrorCode)
        ensures
            r@.0 == CODE_ALLOCATION_MISMATCH,
    {
        ErrorCode::known(CODE_ALLOCATION_MISMATCH, "Allocation Mismatch")
    }
}

impl WrongCredentials {
    pub fn error_code(&self) -> (r: ErrorCode)
        ensures
            r@.0 == CODE_WRONG_CREDENTIALS,
    {
        ErrorCode::known(CODE_WRONG_CREDENTIALS, "Wrong Credentials")
    }
}

impl UnsupportedTransportProtocol {
    pub fn error_code(&self) -> (r: ErrorCode)
        ensures
            r@.0 == CODE_UNSUPPORTED_TRANSPORT_PROTOCOL,
    {
        ErrorCode::known(CODE_UNSUPPORTED_TRANSPORT_PROTOCOL, "Unsupported Transport Protocol")
    }
}

impl AllocationQuotaReached {
    pub fn error_code(&self) -> (r: ErrorCode)
        ensures
            r@.0 == CODE_ALLOCATION_QUOTA_REACHED,
    {
        ErrorCode::known(CODE_ALLOCATION_QUOTA_REACHED, "Allocation Quota Reached")
    }
}

impl InsufficientCapacity {
    pub fn error_code(&self) -> (r: ErrorCode)
        ensures
            r@.0 == CODE_INSUFFICIENT_CAPACITY,
    {
        ErrorCode::known(CODE_INSUFFICIENT_CAPACITY, "Insufficient Capacity")
    }
}

} // verus!
