//! Typed transport core for Diagnostics over Internet Protocol (DoIP).
//!
//! The crate models the closed set of DoIP payload kinds, derives a correct
//! frame header for any payload, restricts which payload kinds may travel
//! over TCP-oriented and UDP transports, frames messages to and from wire
//! bytes, and synthesizes the diagnostic-message acknowledgement that the
//! TCP read path owes the peer.  Socket and TLS plumbing lives outside the
//! library and hands plain values in and out.

use vstd::prelude::*;

pub mod bytes;
pub mod capability;
pub mod channel;
pub mod codec;
pub mod codes;
pub mod error;
pub mod header;
pub mod message;
pub mod payload;
pub mod tls;
pub mod version;
pub mod wire;

use crate::header::DoipHeader;
use crate::payload::DoipPayload;
use crate::version::ProtocolVersion;

verus! {

/// Configuration shared by every socket kind: the protocol version stamped
/// into each outgoing frame header.
#[derive(Debug, Clone, Copy, PartialEq, Eq, Structural)]
pub struct SocketConfig {
    /// Protocol version used when building headers for outgoing frames.
    pub protocol_version: ProtocolVersion,
}

impl SocketConfig {
    /// Configuration used by connection-oriented (TCP/TLS) channels.
    pub fn new_tcp() -> (r: SocketConfig)
        ensures
            r.protocol_version == ProtocolVersion::Iso13400_2012,
    {
        SocketConfig { protocol_version: ProtocolVersion::Iso13400_2012 }
    }

    /// Change the protocol version; takes effect on the next header built.
    pub fn set_protocol_version(&mut self, version: ProtocolVersion)
        ensures
            final(self).protocol_version == version,
    {
        self.protocol_version = version;
    }
}

impl Default for SocketConfig {
    /// The default configuration stamps the `DefaultValue` version byte.
    fn default() -> (r: SocketConfig)
        ensures
            r.protocol_version == ProtocolVersion::DefaultValue,
    {
        SocketConfig { protocol_version: ProtocolVersion::DefaultValue }
    }
}

/// The header a conforming sender owes for `payload` under `version`:
/// the inverse-version byte is the bitwise complement of the version byte,
/// the type tag matches the payload variant, and the length field is the
/// exact byte length of the serialized payload body.
pub open spec fn spec_header_for(version: ProtocolVersion, payload: DoipPayload) -> DoipHeader {
    DoipHeader {
        protocol_version: version,
        inverse_protocol_version: !version.spec_byte(),
        payload_type: payload.spec_payload_type(),
        payload_length: payload.spec_body_len() as u32,
    }
}

/// Build the frame header for `payload`: exact body length, matching type
/// tag, and the complemented version byte the peer uses as a corruption
/// check.
pub fn new_header(protocol_version: ProtocolVersion, payload: &DoipPayload) -> (r: DoipHeader)
    requires
        payload.wf(),
    ensures
        r == spec_header_for(protocol_version, *payload),
        r.inverse_protocol_version == !protocol_version.spec_byte(),
        r.payload_length == payload.spec_body_len(),
{
    let (payload_length, payload_type) = payload.body_len_and_type();
    let inverse_protocol_version = !protocol_version.to_byte();

    DoipHeader {
        protocol_version,
        inverse_protocol_version,
        payload_type,
        payload_length,
    }
}

} // verus!
