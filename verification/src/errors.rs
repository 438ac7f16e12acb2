//! How a request can fail, and what a client is told.

use vstd::prelude::*;
use vstd::string::*;

verus! {

/// The ways in which a request can fail.
#[derive(Clone, Copy, Debug, PartialEq, Eq, Structural)]
pub enum Error {
    /// No session credential, or one that is invalid or has expired.
    Unauthenticated,
    /// A valid session, but the acting user does not own the resource.
    Unauthorized,
    /// The image, image version or job referred to is absent.
    NotFound,
    /// The provisioning service failed or did not answer in time.
    ProvisioningError,
    /// The record store or the credential store failed.
    StoreError,
    /// The response could not be encoded.
    SerializationError,
}

/// Status of a successful read.
pub const STATUS_OK: u16 = 200;

/// Status of a successful creation.
pub const STATUS_CREATED: u16 = 201;

/// Status of a failure inside the server. Nothing of its cause is shown.
pub const STATUS_GENERIC_FAILURE: u16 = 400;

/// Status of a failed authentication or authorization.
pub const STATUS_UNAUTHORIZED: u16 = 401;

/// Status of a reference to something absent.
pub const STATUS_NOT_FOUND: u16 = 404;

impl Error {
    /// The HTTP status that stands for this failure.
    pub open spec fn status_code(self) -> u16 {
        match self {
            Error::Unauthenticated | Error::Unauthorized => STATUS_UNAUTHORIZED,
            Error::NotFound => STATUS_NOT_FOUND,
            Error::ProvisioningError | Error::StoreError | Error::SerializationError =>
                STATUS_GENERIC_FAILURE,
        }
    }

    /// Whether the failure lies inside the server rather than in the
    /// request. Such a failure is logged in full and shown as a generic
    /// message only.
    pub open spec fn is_internal(self) -> bool {
        self is ProvisioningError || self is StoreError || self is SerializationError
    }

    /// The text shown to the client.
    pub open spec fn message_text(self) -> Seq<char> {
        match self {
            Error::Unauthenticated | Error::Unauthorized => "Unauthorized"@,
            Error::NotFound => "Not found"@,
            Error::ProvisioningError | Error::StoreError => "Something didn't work!"@,
            Error::SerializationError => "Serialization error"@,
        }
    }

    pub fn status(&self) -> (code: u16)
        ensures
            code == self.status_code(),
    {
        match self {
            Error::Unauthenticated | Error::Unauthorized => STATUS_UNAUTHORIZED,
            Error::NotFound => STATUS_NOT_FOUND,
            Error::ProvisioningError | Error::StoreError | Error::SerializationError =>
                STATUS_GENERIC_FAILURE,
        }
    }

    pub fn internal(&self) -> (inside: bool)
        ensures
            inside == self.is_internal(),
    {
        match self {
            Error::ProvisioningError | Error::StoreError | Error::SerializationError => true,
            _ => false,
        }
    }

    pub fn message(&self) -> (text: String)
        ensures
            text@ == self.message_text(),
    {
        match self {
            Error::Unauthenticated | Error::Unauthorized => String::from_str("Unauthorized"),
            Error::NotFound => String::from_str("Not found"),
            Error::ProvisioningError | Error::StoreError => String::from_str(
                "Something didn't work!",
            ),
            Error::SerializationError => String::from_str("Serialization error"),
        }
    }
}

} // verus!
