//! The ways an upload can fail.
use vstd::prelude::*;

verus! {

/// hyper's error type, carried as the cause of a transport failure.
#[verifier::external_type_specification]
#[verifier::external_body]
pub struct ExHyperError(hyper::Error);

/// hyper's URI parse error, carried as the cause of a configuration failure.
#[verifier::external_type_specification]
#[verifier::external_body]
pub struct ExUriError(hyper::error::UriError);

/// Why an upload failed.
#[derive(Debug)]
pub enum UploadError {
    /// The base endpoint joined with the resource path is not a URI. Raised
    /// before any network activity.
    Configuration(hyper::error::UriError),
    /// The transport failed while connecting or mid-transfer.
    Transport(hyper::Error),
    /// The store answered with a status other than 200; the status is kept.
    Status(u16),
    /// The store answered 200 but the body is not UTF-8.
    Decode,
}

impl UploadError {
    /// The status carried by a `Status` error.
    pub fn status(&self) -> (code: Option<u16>)
        ensures
            code == (match *self {
                UploadError::Status(c) => Some(c),
                _ => None,
            }),
    {
        match self {
            UploadError::Status(c) => Some(*c),
            _ => None,
        }
    }
}

} // verus!
