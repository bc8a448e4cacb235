//! The closed set of DoIP payload variants, their mathematical views, and
//! the exact byte length of each serialized payload body.

use vstd::prelude::*;

use crate::codes::ActionCode;
use crate::codes::ActivationCode;
use crate::codes::ActivationType;
use crate::codes::DiagnosticAckCode;
use crate::codes::DiagnosticNackCode;
use crate::codes::NackCode;
use crate::codes::NodeType;
use crate::codes::PowerMode;
use crate::codes::SyncStatus;
use crate::header::PayloadType;

verus! {

/// Generic negative acknowledgement of a malformed frame.
#[derive(Debug, Clone, Copy, PartialEq, Eq)]
pub struct GenericNack {
    /// Why the frame was rejected.
    pub nack_code: NackCode,
}

/// Vehicle identification request; carries no body.
#[derive(Debug, Clone, Copy, PartialEq, Eq)]
pub struct VehicleIdentificationRequest {}

/// Vehicle identification request qualified by entity identification.
#[derive(Debug, Clone, Copy, PartialEq, Eq)]
pub struct VehicleIdentificationRequestEid {
    /// Entity identification.
    pub eid: [u8; 6],
}

/// Vehicle identification request qualified by vehicle identification number.
#[derive(Debug, Clone, Copy, PartialEq, Eq)]
pub struct VehicleIdentificationRequestVin {
    /// Vehicle identification number.
    pub vin: [u8; 17],
}

/// Announcement an entity broadcasts to identify itself.
#[derive(Debug, Clone, Copy, PartialEq, Eq)]
pub struct VehicleAnnouncementMessage {
    /// Vehicle identification number.
    pub vin: [u8; 17],
    /// Logical address of the announcing entity.
    pub logical_address: [u8; 2],
    /// Entity identification.
    pub eid: [u8; 6],
    /// Group identification.
    pub gid: [u8; 6],
    /// Further action the receiver must take.
    pub further_action: ActionCode,
    /// VIN/GID synchronisation state; absent on the short announcement form.
    pub vin_gid_sync: Option<SyncStatus>,
}

/// Request to activate a diagnostic routing session.
#[derive(Debug, Clone, Copy, PartialEq, Eq)]
pub struct RoutingActivationRequest {
    /// Source address of the requesting tester.
    pub source_address: [u8; 2],
    /// The kind of activation requested.
    pub activation_type: ActivationType,
    /// ISO reserved bytes.
    pub buffer: [u8; 4],
}

/// Response to a routing activation request.
#[derive(Debug, Clone, Copy, PartialEq, Eq)]
pub struct RoutingActivationResponse {
    /// Logical address of the tester the response addresses.
    pub logical_address: [u8; 2],
    /// Source address of the responding entity.
    pub source_address: [u8; 2],
    /// Outcome of the activation request.
    pub activation_code: ActivationCode,
    /// ISO reserved bytes.
    pub buffer: [u8; 4],
}

/// Alive check request; carries no body.
#[derive(Debug, Clone, Copy, PartialEq, Eq)]
pub struct AliveCheckRequest {}

/// Alive check response naming the responding entity.
#[derive(Debug, Clone, Copy, PartialEq, Eq)]
pub struct AliveCheckResponse {
    /// Source address of the responding entity.
    pub source_address: [u8; 2],
}

/// Entity status request; carries no body.
#[derive(Debug, Clone, Copy, PartialEq, Eq)]
pub struct EntityStatusRequest {}

/// Entity status response describing the responding entity.
#[derive(Debug, Clone, Copy, PartialEq, Eq)]
pub struct EntityStatusResponse {
    /// Whether the entity is a gateway or a node.
    pub node_type: NodeType,
    /// Maximum number of concurrent TCP sockets the entity allows.
    pub max_concurrent_sockets: [u8; 1],
    /// Number of TCP sockets currently open on the entity.
    pub currently_open_sockets: [u8; 1],
    /// Maximum data size the entity accepts.
    pub max_data_size: [u8; 4],
}

/// Power information request; carries no body.
#[derive(Debug, Clone, Copy, PartialEq, Eq)]
pub struct PowerInformationRequest {}

/// Power information response reporting the entity's power mode.
#[derive(Debug, Clone, Copy, PartialEq, Eq)]
pub struct PowerInformationResponse {
    /// The reported power mode.
    pub power_mode: PowerMode,
}

/// Diagnostic message carrying an opaque application body.
#[derive(Debug, Clone, PartialEq, Eq)]
pub struct DiagnosticMessage {
    /// Source address of the sending entity.
    pub source_address: [u8; 2],
    /// Target address of the receiving entity.
    pub target_address: [u8; 2],
    /// The opaque diagnostic body.
    pub message: Vec<u8>,
}

/// Positive acknowledgement of a received diagnostic message.
#[derive(Debug, Clone, Copy, PartialEq, Eq)]
pub struct DiagnosticMessageAck {
    /// Source address of the acknowledging entity.
    pub source_address: [u8; 2],
    /// Target address: the sender of the acknowledged message.
    pub target_address: [u8; 2],
    /// The positive acknowledgement code.
    pub ack_code: DiagnosticAckCode,
}

/// Negative acknowledgement of a received diagnostic message.
#[derive(Debug, Clone, Copy, PartialEq, Eq)]
pub struct DiagnosticMessageNack {
    /// Source address of the rejecting entity.
    pub source_address: [u8; 2],
    /// Target address: the sender of the rejected message.
    pub target_address: [u8; 2],
    /// The negative acknowledgement code.
    pub nack_code: DiagnosticNackCode,
}

/// One DoIP payload: exactly one of the closed set of variants.
#[derive(Debug, Clone, PartialEq, Eq)]
pub enum DoipPayload {
    /// Generic negative acknowledgement.
    GenericNack(GenericNack),
    /// Vehicle identification request.
    VehicleIdentificationRequest(VehicleIdentificationRequest),
    /// Vehicle identification request by EID.
    VehicleIdentificationRequestEid(VehicleIdentificationRequestEid),
    /// Vehicle identification request by VIN.
    VehicleIdentificationRequestVin(VehicleIdentificationRequestVin),
    /// Vehicle announcement message.
    VehicleAnnouncementMessage(VehicleAnnouncementMessage),
    /// Routing activation request.
    RoutingActivationRequest(RoutingActivationRequest),
    /// Routing activation response.
    RoutingActivationResponse(RoutingActivationResponse),
    /// Alive check request.
    AliveCheckRequest(AliveCheckRequest),
    /// Alive check response.
    AliveCheckResponse(AliveCheckResponse),
    /// Entity status request.
    EntityStatusRequest(EntityStatusRequest),
    /// Entity status response.
    EntityStatusResponse(EntityStatusResponse),
    /// Power information request.
    PowerInformationRequest(PowerInformationRequest),
    /// Power information response.
    PowerInformationResponse(PowerInformationResponse),
    /// Diagnostic message.
    DiagnosticMessage(DiagnosticMessage),
    /// Diagnostic message positive acknowledgement.
    DiagnosticMessageAck(DiagnosticMessageAck),
    /// Diagnostic message negative acknowledgement.
    DiagnosticMessageNack(DiagnosticMessageNack),
}

/// The mathematical view of a payload: byte arrays and bodies become
/// sequences, so specifications can speak of contents without ownership.
pub enum PayloadView {
    /// Generic negative acknowledgement.
    GenericNack {
        /// Why the frame was rejected.
        nack_code: NackCode,
    },
    /// Vehicle identification request.
    VehicleIdentificationRequest,
    /// Vehicle identification request by EID.
    VehicleIdentificationRequestEid {
        /// Entity identification.
        eid: Seq<u8>,
    },
    /// Vehicle identification request by VIN.
    VehicleIdentificationRequestVin {
        /// Vehicle identification number.
        vin: Seq<u8>,
    },
    /// Vehicle announcement message.
    VehicleAnnouncementMessage {
        /// Vehicle identification number.
        vin: Seq<u8>,
        /// Logical address of the announcing entity.
        logical_address: Seq<u8>,
        /// Entity identification.
        eid: Seq<u8>,
        /// Group identification.
        gid: Seq<u8>,
        /// Further action the receiver must take.
        further_action: ActionCode,
        /// VIN/GID synchronisation state, if present.
        vin_gid_sync: Option<SyncStatus>,
    },
    /// Routing activation request.
    RoutingActivationRequest {
        /// Source address of the requesting tester.
        source_address: Seq<u8>,
        /// The kind of activation requested.
        activation_type: ActivationType,
        /// ISO reserved bytes.
        buffer: Seq<u8>,
    },
    /// Routing activation response.
    RoutingActivationResponse {
        /// Logical address of the tester the response addresses.
        logical_address: Seq<u8>,
        /// Source address of the responding entity.
        source_address: Seq<u8>,
        /// Outcome of the activation request.
        activation_code: ActivationCode,
        /// ISO reserved bytes.
        buffer: Seq<u8>,
    },
    /// Alive check request.
    AliveCheckRequest,
    /// Alive check response.
    AliveCheckResponse {
        /// Source address of the responding entity.
        source_address: Seq<u8>,
    },
    /// Entity status request.
    EntityStatusRequest,
    /// Entity status response.
    EntityStatusResponse {
        /// Whether the entity is a gateway or a node.
        node_type: NodeType,
        /// Maximum number of concurrent TCP sockets the entity allows.
        max_concurrent_sockets: Seq<u8>,
        /// Number of TCP sockets currently open on the entity.
        currently_open_sockets: Seq<u8>,
        /// Maximum data size the entity accepts.
        max_data_size: Seq<u8>,
    },
    /// Power information request.
    PowerInformationRequest,
    /// Power information response.
    PowerInformationResponse {
        /// The reported power mode.
        power_mode: PowerMode,
    },
    /// Diagnostic message.
    DiagnosticMessage {
        /// Source address of the sending entity.
        source_address: Seq<u8>,
        /// Target address of the receiving entity.
        target_address: Seq<u8>,
        /// The opaque diagnostic body.
        message: Seq<u8>,
    },
    /// Diagnostic message positive acknowledgement.
    DiagnosticMessageAck {
        /// Source address of the acknowledging entity.
        source_address: Seq<u8>,
        /// Target address: the sender of the acknowledged message.
        target_address: Seq<u8>,
        /// The positive acknowledgement code.
        ack_code: DiagnosticAckCode,
    },
    /// Diagnostic message negative acknowledgement.
    DiagnosticMessageNack {
        /// Source address of the rejecting entity.
        source_address: Seq<u8>,
        /// Target address: the sender of the rejected message.
        target_address: Seq<u8>,
        /// The negative acknowledgement code.
        nack_code: DiagnosticNackCode,
    },
}

impl View for DoipPayload {
    type V = PayloadView;

    open spec fn view(&self) -> PayloadView {
        match self {
            DoipPayload::GenericNack(p) => PayloadView::GenericNack { nack_code: p.nack_code },
            DoipPayload::VehicleIdentificationRequest(_) => {
                PayloadView::VehicleIdentificationRequest
            },
            DoipPayload::VehicleIdentificationRequestEid(p) => {
                PayloadView::VehicleIdentificationRequestEid { eid: p.eid@ }
            },
            DoipPayload::VehicleIdentificationRequestVin(p) => {
                PayloadView::VehicleIdentificationRequestVin { vin: p.vin@ }
            },
            DoipPayload::VehicleAnnouncementMessage(p) => {
                PayloadView::VehicleAnnouncementMessage {
                    vin: p.vin@,
                    logical_address: p.logical_address@,
                    eid: p.eid@,
                    gid: p.gid@,
                    further_action: p.further_action,
                    vin_gid_sync: p.vin_gid_sync,
                }
            },
            DoipPayload::RoutingActivationRequest(p) => {
                PayloadView::RoutingActivationRequest {
                    source_address: p.source_address@,
                    activation_type: p.activation_type,
                    buffer: p.buffer@,
                }
            },
            DoipPayload::RoutingActivationResponse(p) => {
                PayloadView::RoutingActivationResponse {
                    logical_address: p.logical_address@,
                    source_address: p.source_address@,
                    activation_code: p.activation_code,
                    buffer: p.buffer@,
                }
            },
            DoipPayload::AliveCheckRequest(_) => PayloadView::AliveCheckRequest,
            DoipPayload::AliveCheckResponse(p) => {
                PayloadView::AliveCheckResponse { source_address: p.source_address@ }
            },
            DoipPayload::EntityStatusRequest(_) => PayloadView::EntityStatusRequest,
            DoipPayload::EntityStatusResponse(p) => {
                PayloadView::EntityStatusResponse {
                    node_type: p.node_type,
                    max_concurrent_sockets: p.max_concurrent_sockets@,
                    currently_open_sockets: p.currently_open_sockets@,
                    max_data_size: p.max_data_size@,
                }
            },
            DoipPayload::PowerInformationRequest(_) => PayloadView::PowerInformationRequest,
            DoipPayload::PowerInformationResponse(p) => {
                PayloadView::PowerInformationResponse { power_mode: p.power_mode }
            },
            DoipPayload::DiagnosticMessage(p) => {
                PayloadView::DiagnosticMessage {
                    source_address: p.source_address@,
                    target_address: p.target_address@,
                    message: p.message@,
                }
            },
            DoipPayload::DiagnosticMessageAck(p) => {
                PayloadView::DiagnosticMessageAck {
                    source_address: p.source_address@,
                    target_address: p.target_address@,
                    ack_code: p.ack_code,
                }
            },
            DoipPayload::DiagnosticMessageNack(p) => {
                PayloadView::DiagnosticMessageNack {
                    source_address: p.source_address@,
                    target_address: p.target_address@,
                    nack_code: p.nack_code,
                }
            },
        }
    }
}

impl PayloadView {
    /// The type tag of this payload variant.
    pub open spec fn spec_payload_type(self) -> PayloadType {
        match self {
            PayloadView::GenericNack { .. } => PayloadType::GenericNack,
            PayloadView::VehicleIdentificationRequest => {
                PayloadType::VehicleIdentificationRequest
            },
            PayloadView::VehicleIdentificationRequestEid { .. } => {
                PayloadType::VehicleIdentificationRequestEid
            },
            PayloadView::VehicleIdentificationRequestVin { .. } => {
                PayloadType::VehicleIdentificationRequestVin
            },
            PayloadView::VehicleAnnouncementMessage { .. } => {
                PayloadType::VehicleAnnouncementMessage
            },
            PayloadView::RoutingActivationRequest { .. } => PayloadType::RoutingActivationRequest,
            PayloadView::RoutingActivationResponse { .. } => {
                PayloadType::RoutingActivationResponse
            },
            PayloadView::AliveCheckRequest => PayloadType::AliveCheckRequest,
            PayloadView::AliveCheckResponse { .. } => PayloadType::AliveCheckResponse,
            PayloadView::EntityStatusRequest => PayloadType::EntityStatusRequest,
            PayloadView::EntityStatusResponse { .. } => PayloadType::EntityStatusResponse,
            PayloadView::PowerInformationRequest => PayloadType::PowerInformationRequest,
            PayloadView::PowerInformationResponse { .. } => PayloadType::PowerInformationResponse,
            PayloadView::DiagnosticMessage { .. } => PayloadType::DiagnosticMessage,
            PayloadView::DiagnosticMessageAck { .. } => PayloadType::DiagnosticMessageAck,
            PayloadView::DiagnosticMessageNack { .. } => PayloadType::DiagnosticMessageNack,
        }
    }

    /// The exact byte length of this payload's serialized body: the known
    /// size of each fixed-size variant, and the sum of the field lengths of
    /// the variable-size ones.
    pub open spec fn spec_body_len(self) -> int {
        match self {
            PayloadView::GenericNack { .. } => 1,
            PayloadView::VehicleIdentificationRequest => 0,
            PayloadView::VehicleIdentificationRequestEid { .. } => 6,
            PayloadView::VehicleIdentificationRequestVin { .. } => 17,
            PayloadView::VehicleAnnouncementMessage { vin_gid_sync, .. } => {
                if vin_gid_sync is Some {
                    33
                } else {
                    32
                }
            },
            PayloadView::RoutingActivationRequest { .. } => 7,
            PayloadView::RoutingActivationResponse { .. } => 9,
            PayloadView::AliveCheckRequest => 0,
            PayloadView::AliveCheckResponse { .. } => 2,
            PayloadView::EntityStatusRequest => 0,
            PayloadView::EntityStatusResponse { .. } => 7,
            PayloadView::PowerInformationRequest => 0,
            PayloadView::PowerInformationResponse { .. } => 1,
            PayloadView::DiagnosticMessage { message, .. } => 4 + message.len() as int,
            PayloadView::DiagnosticMessageAck { .. } => 5,
            PayloadView::DiagnosticMessageNack { .. } => 5,
        }
    }

    /// A payload view is well formed when every byte field has the length
    /// the wire format fixes for it and the whole body length fits the
    /// header's four-byte length field.
    pub open spec fn wf(self) -> bool {
        match self {
            PayloadView::GenericNack { .. } => true,
            PayloadView::VehicleIdentificationRequest => true,
            PayloadView::VehicleIdentificationRequestEid { eid } => eid.len() == 6,
            PayloadView::VehicleIdentificationRequestVin { vin } => vin.len() == 17,
            PayloadView::VehicleAnnouncementMessage {
                vin,
                logical_address,
                eid,
                gid,
                ..
            } => {
                &&& vin.len() == 17
                &&& logical_address.len() == 2
                &&& eid.len() == 6
                &&& gid.len() == 6
            },
            PayloadView::RoutingActivationRequest { source_address, buffer, .. } => {
                &&& source_address.len() == 2
                &&& buffer.len() == 4
            },
            PayloadView::RoutingActivationResponse {
                logical_address,
                source_address,
                buffer,
                ..
            } => {
                &&& logical_address.len() == 2
                &&& source_address.len() == 2
                &&& buffer.len() == 4
            },
            PayloadView::AliveCheckRequest => true,
            PayloadView::AliveCheckResponse { source_address } => source_address.len() == 2,
            PayloadView::EntityStatusRequest => true,
            PayloadView::EntityStatusResponse {
                max_concurrent_sockets,
                currently_open_sockets,
                max_data_size,
                ..
            } => {
                &&& max_concurrent_sockets.len() == 1
                &&& currently_open_sockets.len() == 1
                &&& max_data_size.len() == 4
            },
            PayloadView::PowerInformationRequest => true,
            PayloadView::PowerInformationResponse { .. } => true,
            PayloadView::DiagnosticMessage { source_address, target_address, message } => {
                &&& source_address.len() == 2
                &&& target_address.len() == 2
                &&& 4 + message.len() <= 0xFFFF_FFFF
            },
            PayloadView::DiagnosticMessageAck { source_address, target_address, .. } => {
                &&& source_address.len() == 2
                &&& target_address.len() == 2
            },
            PayloadView::DiagnosticMessageNack { source_address, target_address, .. } => {
                &&& source_address.len() == 2
                &&& target_address.len() == 2
            },
        }
    }
}

impl DoipPayload {
    /// The type tag of this payload.
    pub open spec fn spec_payload_type(self) -> PayloadType {
        self.view().spec_payload_type()
    }

    /// The exact byte length of this payload's serialized body.
    pub open spec fn spec_body_len(self) -> int {
        self.view().spec_body_len()
    }

    /// A payload is well formed when its view is; for every variant but the
    /// diagnostic message this holds by construction.
    pub open spec fn wf(self) -> bool {
        self.view().wf()
    }

    /// Compute the body length and type tag of this payload, the two
    /// payload-derived header fields.
    pub fn body_len_and_type(&self) -> (r: (u32, PayloadType))
        requires
            self.wf(),
        ensures
            r.0 == self.spec_body_len(),
            r.1 == self.spec_payload_type(),
    {
        match self {
            DoipPayload::GenericNack(_) => (1, PayloadType::GenericNack),
            DoipPayload::VehicleIdentificationRequest(_) => {
                (0, PayloadType::VehicleIdentificationRequest)
            },
            DoipPayload::VehicleIdentificationRequestEid(_) => {
                (6, PayloadType::VehicleIdentificationRequestEid)
            },
            DoipPayload::VehicleIdentificationRequestVin(_) => {
                (17, PayloadType::VehicleIdentificationRequestVin)
            },
            DoipPayload::VehicleAnnouncementMessage(p) => {
                let n: u32 = if p.vin_gid_sync.is_some() {
                    33
                } else {
                    32
                };
                (n, PayloadType::VehicleAnnouncementMessage)
            },
            DoipPayload::RoutingActivationRequest(_) => (7, PayloadType::RoutingActivationRequest),
            DoipPayload::RoutingActivationResponse(_) => {
                (9, PayloadType::RoutingActivationResponse)
            },
            DoipPayload::AliveCheckRequest(_) => (0, PayloadType::AliveCheckRequest),
            DoipPayload::AliveCheckResponse(_) => (2, PayloadType::AliveCheckResponse),
            DoipPayload::EntityStatusRequest(_) => (0, PayloadType::EntityStatusRequest),
            DoipPayload::EntityStatusResponse(_) => (7, PayloadType::EntityStatusResponse),
            DoipPayload::PowerInformationRequest(_) => (0, PayloadType::PowerInformationRequest),
            DoipPayload::PowerInformationResponse(_) => (1, PayloadType::PowerInformationResponse),
            DoipPayload::DiagnosticMessage(p) => {
                let n: usize = p.message.len();
                ((4 + n) as u32, PayloadType::DiagnosticMessage)
            },
            DoipPayload::DiagnosticMessageAck(_) => (5, PayloadType::DiagnosticMessageAck),
            DoipPayload::DiagnosticMessageNack(_) => (5, PayloadType::DiagnosticMessageNack),
        }
    }
}

} // verus!
