//! The KCP (UDP) transport: this client uses plain TCP, so it is not available.

use vstd::prelude::*;
use std::sync::Arc;
use crate::error::OhosError;

verus! {

/// `tokio::net::UdpSocket`, the socket a KCP connection would run over.
#[verifier::external_type_specification]
#[verifier::external_body]
pub struct ExUdpSocket(tokio::net::UdpSocket);

/// A KCP stream; none can be made.
pub struct KcpStream;

impl KcpStream {
    /// Accepts a KCP connection: not implemented, so always an error.
    pub fn accept<T>(listener: T) -> (r: Result<KcpStream, OhosError>)
        ensures
            r matches Err(e) && e == OhosError::KcpAcceptNotImplemented,
    {
        Err(OhosError::KcpAcceptNotImplemented)
    }

    /// Opens a KCP connection over `socket`, yielding the stream and the framed
    /// transport `St` on top of it: not implemented, so always an error.
    pub fn connect<St>(socket: Arc<tokio::net::UdpSocket>, timeout: core::time::Duration) -> (r:
        Result<(KcpStream, St), OhosError>)
        ensures
            r matches Err(e) && e == OhosError::KcpConnectNotImplemented,
    {
        Err(OhosError::KcpConnectNotImplemented)
    }
}

} // verus!
