//! Which payload kinds are legal on which transport.
//!
//! TCP-class transports carry session-oriented diagnostics; UDP carries
//! discovery and status broadcasts.  The marker traits state the same
//! capability sets at the type level, so a caller holding a concrete
//! payload struct gets the restriction at compile time; the predicate
//! functions state them at the value level for the runtime check the send
//! paths make.

use vstd::prelude::*;

use crate::header::PayloadType;
use crate::payload::AliveCheckRequest;
use crate::payload::AliveCheckResponse;
use crate::payload::DiagnosticMessage;
use crate::payload::DiagnosticMessageAck;
use crate::payload::DiagnosticMessageNack;
use crate::payload::DoipPayload;
use crate::payload::EntityStatusRequest;
use crate::payload::EntityStatusResponse;
use crate::payload::GenericNack;
use crate::payload::PowerInformationRequest;
use crate::payload::PowerInformationResponse;
use crate::payload::RoutingActivationRequest;
use crate::payload::RoutingActivationResponse;
use crate::payload::VehicleAnnouncementMessage;
use crate::payload::VehicleIdentificationRequest;
use crate::payload::VehicleIdentificationRequestEid;
use crate::payload::VehicleIdentificationRequestVin;

verus! {

/// Marker for payload kinds legal on TCP-class (stream) transports.
pub trait DoipTcpPayload {

}

/// Marker for payload kinds legal on the UDP transport.
pub trait DoipUdpPayload {

}

impl DoipTcpPayload for GenericNack {

}

impl DoipTcpPayload for RoutingActivationRequest {

}

impl DoipTcpPayload for RoutingActivationResponse {

}

impl DoipTcpPayload for AliveCheckRequest {

}

impl DoipTcpPayload for AliveCheckResponse {

}

impl DoipTcpPayload for DiagnosticMessage {

}

impl DoipTcpPayload for DiagnosticMessageAck {

}

impl DoipTcpPayload for DiagnosticMessageNack {

}

impl DoipUdpPayload for GenericNack {

}

impl DoipUdpPayload for VehicleIdentificationRequest {

}

impl DoipUdpPayload for VehicleIdentificationRequestEid {

}

impl DoipUdpPayload for VehicleIdentificationRequestVin {

}

impl DoipUdpPayload for VehicleAnnouncementMessage {

}

impl DoipUdpPayload for EntityStatusRequest {

}

impl DoipUdpPayload for EntityStatusResponse {

}

impl DoipUdpPayload for PowerInformationRequest {

}

impl DoipUdpPayload for PowerInformationResponse {

}

/// The TCP-legal set: generic NACK, routing activation, alive check, and
/// the diagnostic message family.
pub open spec fn spec_tcp_payload_type(t: PayloadType) -> bool {
    match t {
        PayloadType::GenericNack => true,
        PayloadType::RoutingActivationRequest => true,
        PayloadType::RoutingActivationResponse => true,
        PayloadType::AliveCheckRequest => true,
        PayloadType::AliveCheckResponse => true,
        PayloadType::DiagnosticMessage => true,
        PayloadType::DiagnosticMessageAck => true,
        PayloadType::DiagnosticMessageNack => true,
        _ => false,
    }
}

/// The UDP-legal set: generic NACK, the vehicle identification requests,
/// vehicle announcement, entity status, and power information.
pub open spec fn spec_udp_payload_type(t: PayloadType) -> bool {
    match t {
        PayloadType::GenericNack => true,
        PayloadType::VehicleIdentificationRequest => true,
        PayloadType::VehicleIdentificationRequestEid => true,
        PayloadType::VehicleIdentificationRequestVin => true,
        PayloadType::VehicleAnnouncementMessage => true,
        PayloadType::EntityStatusRequest => true,
        PayloadType::EntityStatusResponse => true,
        PayloadType::PowerInformationRequest => true,
        PayloadType::PowerInformationResponse => true,
        _ => false,
    }
}

/// Decide whether this payload may travel over a TCP-class transport.
pub fn is_tcp_payload(p: &DoipPayload) -> (r: bool)
    ensures
        r == spec_tcp_payload_type(p.spec_payload_type()),
{
    match p {
        DoipPayload::GenericNack(_) => true,
        DoipPayload::RoutingActivationRequest(_) => true,
        DoipPayload::RoutingActivationResponse(_) => true,
        DoipPayload::AliveCheckRequest(_) => true,
        DoipPayload::AliveCheckResponse(_) => true,
        DoipPayload::DiagnosticMessage(_) => true,
        DoipPayload::DiagnosticMessageAck(_) => true,
        DoipPayload::DiagnosticMessageNack(_) => true,
        _ => false,
    }
}

/// Decide whether this payload may travel over the UDP transport.
pub fn is_udp_payload(p: &DoipPayload) -> (r: bool)
    ensures
        r == spec_udp_payload_type(p.spec_payload_type()),
{
    match p {
        DoipPayload::GenericNack(_) => true,
        DoipPayload::VehicleIdentificationRequest(_) => true,
        DoipPayload::VehicleIdentificationRequestEid(_) => true,
        DoipPayload::VehicleIdentificationRequestVin(_) => true,
        DoipPayload::VehicleAnnouncementMessage(_) => true,
        DoipPayload::EntityStatusRequest(_) => true,
        DoipPayload::EntityStatusResponse(_) => true,
        DoipPayload::PowerInformationRequest(_) => true,
        DoipPayload::PowerInformationResponse(_) => true,
        _ => false,
    }
}

/// Law: every payload kind is legal on at least one transport, and the
/// TCP and UDP sets overlap exactly on the generic NACK — session
/// diagnostics and discovery stay apart.
pub proof fn lemma_capability_sets_cover(t: PayloadType)
    ensures
        spec_tcp_payload_type(t) || spec_udp_payload_type(t),
        spec_tcp_payload_type(t) && spec_udp_payload_type(t) <==> t == PayloadType::GenericNack,
{
}

} // verus!
