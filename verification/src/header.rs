//! The DoIP frame header: payload type tags and the four header fields.

use vstd::prelude::*;

use crate::version::ProtocolVersion;

verus! {

/// The payload type tags defined by ISO 13400, one per payload variant.
#[derive(Debug, Clone, Copy, PartialEq, Eq, Structural)]
pub enum PayloadType {
    /// Generic negative acknowledgement.
    GenericNack,
    /// Vehicle identification request.
    VehicleIdentificationRequest,
    /// Vehicle identification request by EID.
    VehicleIdentificationRequestEid,
    /// Vehicle identification request by VIN.
    VehicleIdentificationRequestVin,
    /// Vehicle announcement message.
    VehicleAnnouncementMessage,
    /// Routing activation request.
    RoutingActivationRequest,
    /// Routing activation response.
    RoutingActivationResponse,
    /// Alive check request.
    AliveCheckRequest,
    /// Alive check response.
    AliveCheckResponse,
    /// Entity status request.
    EntityStatusRequest,
    /// Entity status response.
    EntityStatusResponse,
    /// Power information request.
    PowerInformationRequest,
    /// Power information response.
    PowerInformationResponse,
    /// Diagnostic message.
    DiagnosticMessage,
    /// Diagnostic message positive acknowledgement.
    DiagnosticMessageAck,
    /// Diagnostic message negative acknowledgement.
    DiagnosticMessageNack,
}

impl PayloadType {
    /// The two-byte tag of this payload type on the wire.
    pub open spec fn spec_tag(self) -> u16 {
        match self {
            PayloadType::GenericNack => 0x0000,
            PayloadType::VehicleIdentificationRequest => 0x0001,
            PayloadType::VehicleIdentificationRequestEid => 0x0002,
            PayloadType::VehicleIdentificationRequestVin => 0x0003,
            PayloadType::VehicleAnnouncementMessage => 0x0004,
            PayloadType::RoutingActivationRequest => 0x0005,
            PayloadType::RoutingActivationResponse => 0x0006,
            PayloadType::AliveCheckRequest => 0x0007,
            PayloadType::AliveCheckResponse => 0x0008,
            PayloadType::EntityStatusRequest => 0x4001,
            PayloadType::EntityStatusResponse => 0x4002,
            PayloadType::PowerInformationRequest => 0x4003,
            PayloadType::PowerInformationResponse => 0x4004,
            PayloadType::DiagnosticMessage => 0x8001,
            PayloadType::DiagnosticMessageAck => 0x8002,
            PayloadType::DiagnosticMessageNack => 0x8003,
        }
    }

    /// The payload type a two-byte tag denotes, if any.
    pub open spec fn spec_from_tag(t: u16) -> Option<PayloadType> {
        if t == 0x0000 {
            Some(PayloadType::GenericNack)
        } else if t == 0x0001 {
            Some(PayloadType::VehicleIdentificationRequest)
        } else if t == 0x0002 {
            Some(PayloadType::VehicleIdentificationRequestEid)
        } else if t == 0x0003 {
            Some(PayloadType::VehicleIdentificationRequestVin)
        } else if t == 0x0004 {
            Some(PayloadType::VehicleAnnouncementMessage)
        } else if t == 0x0005 {
            Some(PayloadType::RoutingActivationRequest)
        } else if t == 0x0006 {
            Some(PayloadType::RoutingActivationResponse)
        } else if t == 0x0007 {
            Some(PayloadType::AliveCheckRequest)
        } else if t == 0x0008 {
            Some(PayloadType::AliveCheckResponse)
        } else if t == 0x4001 {
            Some(PayloadType::EntityStatusRequest)
        } else if t == 0x4002 {
            Some(PayloadType::EntityStatusResponse)
        } else if t == 0x4003 {
            Some(PayloadType::PowerInformationRequest)
        } else if t == 0x4004 {
            Some(PayloadType::PowerInformationResponse)
        } else if t == 0x8001 {
            Some(PayloadType::DiagnosticMessage)
        } else if t == 0x8002 {
            Some(PayloadType::DiagnosticMessageAck)
        } else if t == 0x8003 {
            Some(PayloadType::DiagnosticMessageNack)
        } else {
            None
        }
    }

    /// Emit the two-byte tag of this payload type.
    pub fn to_tag(self) -> (r: u16)
        ensures
            r == self.spec_tag(),
    {
        match self {
            PayloadType::GenericNack => 0x0000,
            PayloadType::VehicleIdentificationRequest => 0x0001,
            PayloadType::VehicleIdentificationRequestEid => 0x0002,
            PayloadType::VehicleIdentificationRequestVin => 0x0003,
            PayloadType::VehicleAnnouncementMessage => 0x0004,
            PayloadType::RoutingActivationRequest => 0x0005,
            PayloadType::RoutingActivationResponse => 0x0006,
            PayloadType::AliveCheckRequest => 0x0007,
            PayloadType::AliveCheckResponse => 0x0008,
            PayloadType::EntityStatusRequest => 0x4001,
            PayloadType::EntityStatusResponse => 0x4002,
            PayloadType::PowerInformationRequest => 0x4003,
            PayloadType::PowerInformationResponse => 0x4004,
            PayloadType::DiagnosticMessage => 0x8001,
            PayloadType::DiagnosticMessageAck => 0x8002,
            PayloadType::DiagnosticMessageNack => 0x8003,
        }
    }

    /// Recognize a two-byte tag as a payload type.
    pub fn from_tag(t: u16) -> (r: Option<PayloadType>)
        ensures
            r == PayloadType::spec_from_tag(t),
    {
        match t {
            0x0000 => Some(PayloadType::GenericNack),
            0x0001 => Some(PayloadType::VehicleIdentificationRequest),
            0x0002 => Some(PayloadType::VehicleIdentificationRequestEid),
            0x0003 => Some(PayloadType::VehicleIdentificationRequestVin),
            0x0004 => Some(PayloadType::VehicleAnnouncementMessage),
            0x0005 => Some(PayloadType::RoutingActivationRequest),
            0x0006 => Some(PayloadType::RoutingActivationResponse),
            0x0007 => Some(PayloadType::AliveCheckRequest),
            0x0008 => Some(PayloadType::AliveCheckResponse),
            0x4001 => Some(PayloadType::EntityStatusRequest),
            0x4002 => Some(PayloadType::EntityStatusResponse),
            0x4003 => Some(PayloadType::PowerInformationRequest),
            0x4004 => Some(PayloadType::PowerInformationResponse),
            0x8001 => Some(PayloadType::DiagnosticMessage),
            0x8002 => Some(PayloadType::DiagnosticMessageAck),
            0x8003 => Some(PayloadType::DiagnosticMessageNack),
            _ => None,
        }
    }
}

/// Reading back the emitted tag yields the payload type it came from.
pub proof fn lemma_payload_type_tag_roundtrip(t: PayloadType)
    ensures
        PayloadType::spec_from_tag(t.spec_tag()) == Some(t),
{
}

/// The four fields that open every DoIP frame.
#[derive(Debug, Clone, Copy, PartialEq, Eq, Structural)]
pub struct DoipHeader {
    /// The protocol version of the frame.
    pub protocol_version: ProtocolVersion,
    /// The bitwise complement of the version byte, a corruption check
    /// consumed by the peer's decoder.
    pub inverse_protocol_version: u8,
    /// The tag of the payload that follows.
    pub payload_type: PayloadType,
    /// The exact byte length of the payload body that follows.
    pub payload_length: u32,
}

impl DoipHeader {
    /// A header is well formed when its inverse-version byte is the bitwise
    /// complement of its version byte.
    pub open spec fn wf(self) -> bool {
        self.inverse_protocol_version == !self.protocol_version.spec_byte()
    }
}

} // verus!
