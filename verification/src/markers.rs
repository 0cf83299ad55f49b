//! Marker types.  These are used to bind the fact that some verification
//! (certificate chain or handshake signature) has taken place into protocol
//! states.
//!
//! The types are public, but cannot be constructed directly: their origins can
//! be determined by looking for their `assertion` constructors.
use vstd::prelude::*;
use crate::error::TlsError;

verus! {

/// Zero-sized marker type representing verification of a signature.
#[derive(Debug)]
pub struct HandshakeSignatureValid(());

impl HandshakeSignatureValid {
    /// The only value of this type.
    pub closed spec fn marker() -> Self {
        HandshakeSignatureValid(())
    }

    /// Makes a `HandshakeSignatureValid`.
    pub fn assertion() -> (marker: Self)
        ensures
            marker == Self::marker(),
    {
        HandshakeSignatureValid(())
    }
}

/// Zero-sized marker type representing verification of a finished message.
#[derive(Debug)]
pub struct FinishedMessageVerified(());

impl FinishedMessageVerified {
    /// The only value of this type.
    pub closed spec fn marker() -> Self {
        FinishedMessageVerified(())
    }

    /// Makes a `FinishedMessageVerified`.
    pub fn assertion() -> (marker: Self)
        ensures
            marker == Self::marker(),
    {
        FinishedMessageVerified(())
    }
}

/// Zero-sized marker type representing verification of a server cert chain.
#[derive(Debug)]
pub struct ServerCertVerified(());

impl ServerCertVerified {
    /// The only value of this type.
    pub closed spec fn marker() -> Self {
        ServerCertVerified(())
    }

    /// Makes a `ServerCertVerified`.
    pub fn assertion() -> (marker: Self)
        ensures
            marker == Self::marker(),
    {
        ServerCertVerified(())
    }
}

/// Zero-sized marker type representing verification of a client cert chain.
#[derive(Debug)]
pub struct ClientCertVerified(());

impl ClientCertVerified {
    /// The only value of this type.
    pub closed spec fn marker() -> Self {
        ClientCertVerified(())
    }

    /// Makes a `ClientCertVerified`.
    pub fn assertion() -> (marker: Self)
        ensures
            marker == Self::marker(),
    {
        ClientCertVerified(())
    }
}

/// A marker says nothing beyond its type: each of the four types has a single
/// value.
pub proof fn lemma_markers_carry_no_data(
    signature: HandshakeSignatureValid,
    finished: FinishedMessageVerified,
    server: ServerCertVerified,
    client: ClientCertVerified,
)
    ensures
        signature == HandshakeSignatureValid::marker(),
        finished == FinishedMessageVerified::marker(),
        server == ServerCertVerified::marker(),
        client == ClientCertVerified::marker(),
{
}

/// A verification result without its marker.
pub open spec fn verdict<T>(result: Result<T, TlsError>) -> Result<(), TlsError> {
    match result {
        Ok(_) => Ok(()),
        Err(error) => Err(error),
    }
}

} // verus!
