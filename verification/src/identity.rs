//! Fetching an identity: what the answer of the remote service amounts to.

use vstd::prelude::*;

verus! {

/// Why an identity could not be had.
#[derive(Clone, Debug, PartialEq, Eq)]
pub enum Error {
    /// The remote service failed, or answered with no identity.
    DapiError,
    /// The identifier or the identity is malformed.
    ProtocolError(String),
}

/// What the answer to a request for an identity holds.
#[derive(Clone, Debug, PartialEq, Eq)]
pub enum IdentityAnswer {
    /// The encoded identity.
    Identity(Vec<u8>),
    /// A proof, where one was asked for.
    Proof(Vec<u8>),
    /// Nothing.
    Empty,
}

/// The encoded identity in the answer to a request for one. `None` stands for
/// a request that failed. Anything but an answer that holds an identity is a
/// failure of the service.
pub fn identity_bytes_of_response(response: Option<IdentityAnswer>) -> (bytes: Result<Vec<u8>, Error>)
    ensures
        match response {
            Some(IdentityAnswer::Identity(encoded)) => bytes == Ok::<Vec<u8>, Error>(encoded),
            _ => bytes == Err::<Vec<u8>, Error>(Error::DapiError),
        },
{
    match response {
        Some(IdentityAnswer::Identity(encoded)) => Ok(encoded),
        _ => Err(Error::DapiError),
    }
}

} // verus!
