//! Serialization of payload bodies, performed by the definitions crate.
//!
//! Each function here hands one payload variant's plain fields to
//! doip-definitions, whose byte conversions are the authority on the wire
//! layout, and returns the serialized body.  The contracts state the exact
//! bytes those conversions produce; enum-coded fields travel as their wire
//! bytes, restricted to the values the definitions crate accepts.

use vstd::prelude::*;

use crate::codes::ActionCode;
use crate::codes::ActivationCode;
use crate::codes::ActivationType;
use crate::codes::DiagnosticAckCode;
use crate::codes::DiagnosticNackCode;
use crate::codes::NackCode;
use crate::codes::NodeType;
use crate::codes::PowerMode;
use crate::codes::SyncStatus;

verus! {

/// Relies on doip-definitions' `From<GenericNack>` for `[u8; 1]`: the body
/// is the single NACK-code byte.
#[verifier::external_body]
pub(crate) fn wire_generic_nack(nack_code: u8) -> (r: Vec<u8>)
    requires
        NackCode::spec_from_byte(nack_code) is Some,
    ensures
        r@ == seq![nack_code],
{
    let value = doip_definitions::payload::GenericNack {
        nack_code: doip_definitions::payload::NackCode::try_from(&nack_code).unwrap(),
    };
    let b: [u8; 1] = value.into();
    b.to_vec()
}

/// Relies on doip-definitions' `From<VehicleIdentificationRequestEid>` for
/// `[u8; 6]`: the body is the EID itself.
#[verifier::external_body]
pub(crate) fn wire_vehicle_identification_request_eid(eid: [u8; 6]) -> (r: Vec<u8>)
    ensures
        r@ == eid@,
{
    let value = doip_definitions::payload::VehicleIdentificationRequestEid { eid };
    let b: [u8; 6] = value.into();
    b.to_vec()
}

/// Relies on doip-definitions' `From<VehicleIdentificationRequestVin>` for
/// `[u8; 17]`: the body is the VIN itself.
#[verifier::external_body]
pub(crate) fn wire_vehicle_identification_request_vin(vin: [u8; 17]) -> (r: Vec<u8>)
    ensures
        r@ == vin@,
{
    let value = doip_definitions::payload::VehicleIdentificationRequestVin { vin };
    let b: [u8; 17] = value.into();
    b.to_vec()
}

/// Relies on doip-definitions' `From<DoipPayload>` for `Vec<u8>` on the
/// vehicle-announcement variant: VIN, logical address, EID, GID, the
/// action byte, and the synchronisation byte only when one is present.
#[verifier::external_body]
pub(crate) fn wire_vehicle_announcement_message(
    vin: [u8; 17],
    logical_address: [u8; 2],
    eid: [u8; 6],
    gid: [u8; 6],
    further_action: u8,
    vin_gid_sync: Option<u8>,
) -> (r: Vec<u8>)
    requires
        ActionCode::spec_from_byte(further_action) is Some,
        vin_gid_sync matches Some(s) ==> SyncStatus::spec_from_byte(s) is Some,
    ensures
        r@ == vin@ + logical_address@ + eid@ + gid@ + seq![further_action] + (match vin_gid_sync {
            Some(s) => seq![s],
            None => Seq::<u8>::empty(),
        }),
{
    let sync = match vin_gid_sync {
        Some(s) => Some(doip_definitions::payload::SyncStatus::try_from(&s).unwrap()),
        None => None,
    };
    let value = doip_definitions::payload::VehicleAnnouncementMessage {
        vin,
        logical_address,
        eid,
        gid,
        further_action: doip_definitions::payload::ActionCode::try_from(&further_action).unwrap(),
        vin_gid_sync: sync,
    };
    doip_definitions::payload::DoipPayload::VehicleAnnouncementMessage(value).into()
}

/// Relies on doip-definitions' `From<RoutingActivationRequest>` for
/// `[u8; 7]`: source address, activation-type byte, then the reserved
/// bytes.
#[verifier::external_body]
pub(crate) fn wire_routing_activation_request(
    source_address: [u8; 2],
    activation_type: u8,
    buffer: [u8; 4],
) -> (r: Vec<u8>)
    requires
        ActivationType::spec_from_byte(activation_type) is Some,
    ensures
        r@ == source_address@ + seq![activation_type] + buffer@,
{
    let value = doip_definitions::payload::RoutingActivationRequest {
        source_address,
        activation_type: doip_definitions::payload::ActivationType::try_from(
            &activation_type,
        ).unwrap(),
        buffer,
    };
    let b: [u8; 7] = value.into();
    b.to_vec()
}

/// Relies on doip-definitions' `From<RoutingActivationResponse>` for
/// `[u8; 9]`: logical address, source address, activation-code byte, then
/// the reserved bytes.
#[verifier::external_body]
pub(crate) fn wire_routing_activation_response(
    logical_address: [u8; 2],
    source_address: [u8; 2],
    activation_code: u8,
    buffer: [u8; 4],
) -> (r: Vec<u8>)
    requires
        ActivationCode::spec_from_byte(activation_code) is Some,
    ensures
        r@ == logical_address@ + source_address@ + seq![activation_code] + buffer@,
{
    let value = doip_definitions::payload::RoutingActivationResponse {
        logical_address,
        source_address,
        activation_code: doip_definitions::payload::ActivationCode::try_from(
            &activation_code,
        ).unwrap(),
        buffer,
    };
    let b: [u8; 9] = value.into();
    b.to_vec()
}

/// Relies on doip-definitions' `From<AliveCheckResponse>` for `[u8; 2]`:
/// the body is the source address itself.
#[verifier::external_body]
pub(crate) fn wire_alive_check_response(source_address: [u8; 2]) -> (r: Vec<u8>)
    ensures
        r@ == source_address@,
{
    let value = doip_definitions::payload::AliveCheckResponse { source_address };
    let b: [u8; 2] = value.into();
    b.to_vec()
}

/// Relies on doip-definitions' `From<EntityStatusResponse>` for `[u8; 7]`:
/// node-type byte, socket counts, then the maximum data size.
#[verifier::external_body]
pub(crate) fn wire_entity_status_response(
    node_type: u8,
    max_concurrent_sockets: [u8; 1],
    currently_open_sockets: [u8; 1],
    max_data_size: [u8; 4],
) -> (r: Vec<u8>)
    requires
        NodeType::spec_from_byte(node_type) is Some,
    ensures
        r@ == seq![node_type] + max_concurrent_sockets@ + currently_open_sockets@ + max_data_size@,
{
    let value = doip_definitions::payload::EntityStatusResponse {
        node_type: doip_definitions::payload::NodeType::try_from(&node_type).unwrap(),
        max_concurrent_sockets,
        currently_open_sockets,
        max_data_size,
    };
    let b: [u8; 7] = value.into();
    b.to_vec()
}

/// Relies on doip-definitions' `From<PowerInformationResponse>` for
/// `[u8; 1]`: the body is the single power-mode byte.
#[verifier::external_body]
pub(crate) fn wire_power_information_response(power_mode: u8) -> (r: Vec<u8>)
    requires
        PowerMode::spec_from_byte(power_mode) is Some,
    ensures
        r@ == seq![power_mode],
{
    let value = doip_definitions::payload::PowerInformationResponse {
        power_mode: doip_definitions::payload::PowerMode::try_from(&power_mode).unwrap(),
    };
    let b: [u8; 1] = value.into();
    b.to_vec()
}

/// Relies on doip-definitions' `From<DiagnosticMessage>` for `Vec<u8>`:
/// source address, target address, then the diagnostic body.
#[verifier::external_body]
pub(crate) fn wire_diagnostic_message(
    source_address: [u8; 2],
    target_address: [u8; 2],
    message: &Vec<u8>,
) -> (r: Vec<u8>)
    ensures
        r@ == source_address@ + target_address@ + message@,
{
    let value = doip_definitions::payload::DiagnosticMessage {
        source_address,
        target_address,
        message: message.clone(),
    };
    value.into()
}

/// Relies on doip-definitions' `From<DiagnosticMessageAck>` for `[u8; 5]`:
/// source address, target address, then the acknowledgement-code byte.
#[verifier::external_body]
pub(crate) fn wire_diagnostic_message_ack(
    source_address: [u8; 2],
    target_address: [u8; 2],
    ack_code: u8,
) -> (r: Vec<u8>)
    requires
        DiagnosticAckCode::spec_from_byte(ack_code) is Some,
    ensures
        r@ == source_address@ + target_address@ + seq![ack_code],
{
    let value = doip_definitions::payload::DiagnosticMessageAck {
        source_address,
        target_address,
        ack_code: doip_definitions::payload::DiagnosticAckCode::try_from(&ack_code).unwrap(),
    };
    let b: [u8; 5] = value.into();
    b.to_vec()
}

/// Relies on doip-definitions' `From<DiagnosticMessageNack>` for
/// `[u8; 5]`: source address, target address, then the negative-code byte.
#[verifier::external_body]
pub(crate) fn wire_diagnostic_message_nack(
    source_address: [u8; 2],
    target_address: [u8; 2],
    nack_code: u8,
) -> (r: Vec<u8>)
    requires
        DiagnosticNackCode::spec_from_byte(nack_code) is Some,
    ensures
        r@ == source_address@ + target_address@ + seq![nack_code],
{
    let value = doip_definitions::payload::DiagnosticMessageNack {
        source_address,
        target_address,
        nack_code: doip_definitions::payload::DiagnosticNackCode::try_from(&nack_code).unwrap(),
    };
    let b: [u8; 5] = value.into();
    b.to_vec()
}

} // verus!
