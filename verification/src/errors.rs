//! Faults of the storage layer, and how they are reported to a client.

use vstd::prelude::*;
use vstd::std_specs::convert::FromSpecImpl;
use crate::codec::DecodeError;

verus! {

/// `sled::Error`: a fault that the storage engine reports. Nothing of it is
/// read here.
#[verifier::external_type_specification]
#[verifier::external_body]
pub struct ExSledError(sled::Error);

/// A fault inside the store: either the storage engine failed, or bytes that
/// it holds are not the stored form of the value that was asked for.
#[derive(Debug)]
pub enum StoreError {
    /// The storage engine reported a fault.
    Sled(sled::Error),
    /// Stored bytes could not be decoded.
    Encoding(DecodeError),
}

/// The class of an error that is reported to a client.
#[derive(Debug, Clone, Copy, PartialEq, Eq, Structural)]
pub enum ApiErrorType {
    /// A fault on the server's side: the store failed, or holds bad bytes.
    Backend,
}

/// HTTP status of an internal fault.
pub const INTERNAL_SERVER_ERROR: u16 = 500;

impl ApiErrorType {
    /// The HTTP status that a response of this class carries.
    pub fn status_code(self) -> (status: u16)
        ensures
            status == self.spec_status_code(),
    {
        match self {
            ApiErrorType::Backend => INTERNAL_SERVER_ERROR,
        }
    }

    /// The HTTP status of each class.
    pub open spec fn spec_status_code(self) -> u16 {
        match self {
            ApiErrorType::Backend => INTERNAL_SERVER_ERROR,
        }
    }
}

/// An error as a client sees it: its class, and a message that gives away
/// nothing of the fault behind it.
#[derive(Debug)]
pub struct ApiError {
    pub error_type: ApiErrorType,
    pub message: String,
}

/// The message that a client gets for a fault in the store.
pub open spec fn backend_message(fault: StoreError) -> Seq<char> {
    match fault {
        StoreError::Sled(_) => "internal database error"@,
        StoreError::Encoding(_) => "internal serialization error"@,
    }
}

impl FromSpecImpl<StoreError> for ApiError {
    open spec fn obeys_from_spec() -> bool {
        false
    }

    open spec fn from_spec(value: StoreError) -> ApiError {
        arbitrary()
    }
}

impl From<StoreError> for ApiError {
    /// Every store fault is a backend error; the message names only which
    /// layer failed.
    fn from(value: StoreError) -> (api_error: ApiError)
        ensures
            api_error.error_type == ApiErrorType::Backend,
            api_error.message@ == backend_message(value),
    {
        match value {
            StoreError::Sled(_) => ApiError {
                error_type: ApiErrorType::Backend,
                message: "internal database error".to_owned(),
            },
            StoreError::Encoding(_) => ApiError {
                error_type: ApiErrorType::Backend,
                message: "internal serialization error".to_owned(),
            },
        }
    }
}

} // verus!
