//! Error kinds surfaced by the send and receive paths.

use vstd::prelude::*;

verus! {

/// Why a send could not produce or deliver a frame.
///
/// `EncodeError` reports a payload the wire format cannot carry (its body
/// length exceeds the header's four-byte length field); the invalid-payload
/// variants report the runtime capability check of the transport; `IoError`
/// stands for a transport-level failure, which only the unverified socket
/// layer can raise.
#[derive(Debug, Clone, Copy, PartialEq, Eq, Structural)]
pub enum SocketSendError {
    /// The payload cannot be serialized for the wire.
    EncodeError,
    /// The payload kind is not permitted on a TCP-class transport.
    InvalidTcpPayload,
    /// The payload kind is not permitted on the UDP transport.
    InvalidUdpPayload,
    /// The underlying transport failed.
    IoError,
}

/// Why a received byte stream did not yield a message.
///
/// A malformed frame is distinguished from a clean end of stream: the
/// decoder reports `header` or `payload` faults for bytes that can never
/// become a frame, while "not enough bytes yet" is not an error at all.
#[derive(Debug, Clone, Copy, PartialEq, Eq, Structural)]
pub enum DecodeError {
    /// The eight header bytes name no valid version or payload type.
    InvalidHeader,
    /// The payload body contradicts the payload type the header names.
    InvalidPayload,
}

} // verus!
