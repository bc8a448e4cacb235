//! Framing: a typed message to wire bytes and wire bytes back to a typed
//! message.
//!
//! A frame is eight header bytes followed by exactly
//! `payload_length` body bytes.  Encoding serializes each payload body
//! through the definitions crate (see `wire`); decoding parses the grammar
//! the wire format fixes, distinguishing "not enough bytes yet" from a
//! malformed frame.

use vstd::prelude::*;

use crate::bytes::spec_u16_bytes;
use crate::bytes::spec_u16_from_bytes;
use crate::bytes::spec_u32_bytes;
use crate::bytes::spec_u32_from_bytes;
use crate::bytes::u16_from_bytes;
use crate::bytes::u16_to_bytes;
use crate::bytes::u32_from_bytes;
use crate::bytes::u32_to_bytes;
use crate::codes::ActionCode;
use crate::codes::ActivationCode;
use crate::codes::ActivationType;
use crate::codes::DiagnosticAckCode;
use crate::codes::DiagnosticNackCode;
use crate::codes::NackCode;
use crate::codes::NodeType;
use crate::codes::PowerMode;
use crate::codes::SyncStatus;
use crate::error::DecodeError;
use crate::header::DoipHeader;
use crate::header::PayloadType;
use crate::message::DoipMessage;
use crate::message::MessageView;
use crate::payload::DoipPayload;
use crate::payload::PayloadView;
use crate::version::ProtocolVersion;
use crate::wire::wire_alive_check_response;
use crate::wire::wire_diagnostic_message;
use crate::wire::wire_diagnostic_message_ack;
use crate::wire::wire_diagnostic_message_nack;
use crate::wire::wire_entity_status_response;
use crate::wire::wire_generic_nack;
use crate::wire::wire_power_information_response;
use crate::wire::wire_routing_activation_request;
use crate::wire::wire_routing_activation_response;
use crate::wire::wire_vehicle_announcement_message;
use crate::wire::wire_vehicle_identification_request_eid;
use crate::wire::wire_vehicle_identification_request_vin;

verus! {

/// The eight header bytes: version, its complement, the two-byte type
/// tag, and the four-byte body length, all big endian.
pub open spec fn spec_header_bytes(h: DoipHeader) -> Seq<u8> {
    seq![h.protocol_version.spec_byte(), h.inverse_protocol_version] + spec_u16_bytes(
        h.payload_type.spec_tag(),
    ) + spec_u32_bytes(h.payload_length)
}

/// The serialized body of a payload: the concatenation of its fields in
/// wire order, enum-coded fields as their single byte.
pub open spec fn spec_body_bytes(p: PayloadView) -> Seq<u8> {
    match p {
        PayloadView::GenericNack { nack_code } => seq![nack_code.spec_byte()],
        PayloadView::VehicleIdentificationRequest => Seq::<u8>::empty(),
        PayloadView::VehicleIdentificationRequestEid { eid } => eid,
        PayloadView::VehicleIdentificationRequestVin { vin } => vin,
        PayloadView::VehicleAnnouncementMessage {
            vin,
            logical_address,
            eid,
            gid,
            further_action,
            vin_gid_sync,
        } => {
            vin + logical_address + eid + gid + seq![further_action.spec_byte()] + (
            match vin_gid_sync {
                Some(s) => seq![s.spec_byte()],
                None => Seq::<u8>::empty(),
            })
        },
        PayloadView::RoutingActivationRequest { source_address, activation_type, buffer } => {
            source_address + seq![activation_type.spec_byte()] + buffer
        },
        PayloadView::RoutingActivationResponse {
            logical_address,
            source_address,
            activation_code,
            buffer,
        } => {
            logical_address + source_address + seq![activation_code.spec_byte()] + buffer
        },
        PayloadView::AliveCheckRequest => Seq::<u8>::empty(),
        PayloadView::AliveCheckResponse { source_address } => source_address,
        PayloadView::EntityStatusRequest => Seq::<u8>::empty(),
        PayloadView::EntityStatusResponse {
            node_type,
            max_concurrent_sockets,
            currently_open_sockets,
            max_data_size,
        } => {
            seq![node_type.spec_byte()] + max_concurrent_sockets + currently_open_sockets
                + max_data_size
        },
        PayloadView::PowerInformationRequest => Seq::<u8>::empty(),
        PayloadView::PowerInformationResponse { power_mode } => seq![power_mode.spec_byte()],
        PayloadView::DiagnosticMessage { source_address, target_address, message } => {
            source_address + target_address + message
        },
        PayloadView::DiagnosticMessageAck { source_address, target_address, ack_code } => {
            source_address + target_address + seq![ack_code.spec_byte()]
        },
        PayloadView::DiagnosticMessageNack { source_address, target_address, nack_code } => {
            source_address + target_address + seq![nack_code.spec_byte()]
        },
    }
}

/// A whole frame: header bytes, then body bytes.
pub open spec fn spec_message_bytes(m: MessageView) -> Seq<u8> {
    spec_header_bytes(m.header) + spec_body_bytes(m.payload)
}

/// A well-formed payload's serialized body has exactly the length the
/// header builder announces for it.
pub proof fn lemma_body_bytes_len(p: PayloadView)
    requires
        p.wf(),
    ensures
        spec_body_bytes(p).len() == p.spec_body_len(),
{
}

/// Law: for every payload variant, the header built for a payload
/// announces exactly the byte length of that payload's serialized body,
/// and carries the bitwise complement of the version byte.
pub proof fn lemma_header_matches_body(version: ProtocolVersion, payload: DoipPayload)
    requires
        payload.wf(),
    ensures
        crate::spec_header_for(version, payload).payload_length == spec_body_bytes(
            payload@,
        ).len(),
        crate::spec_header_for(version, payload).inverse_protocol_version
            == !version.spec_byte(),
        crate::spec_header_for(version, payload).payload_type == payload@.spec_payload_type(),
{
    lemma_body_bytes_len(payload@);
}

/// Emit the eight header bytes of `h`.
pub fn header_bytes(h: &DoipHeader) -> (r: Vec<u8>)
    ensures
        r@ == spec_header_bytes(*h),
{
    let mut v: Vec<u8> = Vec::new();
    v.push(h.protocol_version.to_byte());
    v.push(h.inverse_protocol_version);
    let (t_hi, t_lo) = u16_to_bytes(h.payload_type.to_tag());
    v.push(t_hi);
    v.push(t_lo);
    let (l0, l1, l2, l3) = u32_to_bytes(h.payload_length);
    v.push(l0);
    v.push(l1);
    v.push(l2);
    v.push(l3);
    proof {
        assert(v@ =~= spec_header_bytes(*h));
    }
    v
}

/// Serialize the body of `p` in wire order.
pub fn body_bytes(p: &DoipPayload) -> (r: Vec<u8>)
    ensures
        r@ == spec_body_bytes(p@),
{
    match p {
        DoipPayload::GenericNack(x) => {
            let r = wire_generic_nack(x.nack_code.to_byte());
            proof {
                assert(r@ =~= spec_body_bytes(p@));
            }
            r
        },
        DoipPayload::VehicleIdentificationRequest(_) => Vec::new(),
        DoipPayload::VehicleIdentificationRequestEid(x) => {
            wire_vehicle_identification_request_eid(x.eid)
        },
        DoipPayload::VehicleIdentificationRequestVin(x) => {
            wire_vehicle_identification_request_vin(x.vin)
        },
        DoipPayload::VehicleAnnouncementMessage(x) => {
            let sync: Option<u8> = match x.vin_gid_sync {
                Some(s) => Some(s.to_byte()),
                None => None,
            };
            let r = wire_vehicle_announcement_message(
                x.vin,
                x.logical_address,
                x.eid,
                x.gid,
                x.further_action.to_byte(),
                sync,
            );
            proof {
                assert(r@ =~= spec_body_bytes(p@));
            }
            r
        },
        DoipPayload::RoutingActivationRequest(x) => {
            let r = wire_routing_activation_request(
                x.source_address,
                x.activation_type.to_byte(),
                x.buffer,
            );
            proof {
                assert(r@ =~= spec_body_bytes(p@));
            }
            r
        },
        DoipPayload::RoutingActivationResponse(x) => {
            let r = wire_routing_activation_response(
                x.logical_address,
                x.source_address,
                x.activation_code.to_byte(),
                x.buffer,
            );
            proof {
                assert(r@ =~= spec_body_bytes(p@));
            }
            r
        },
        DoipPayload::AliveCheckRequest(_) => Vec::new(),
        DoipPayload::AliveCheckResponse(x) => wire_alive_check_response(x.source_address),
        DoipPayload::EntityStatusRequest(_) => Vec::new(),
        DoipPayload::EntityStatusResponse(x) => {
            let r = wire_entity_status_response(
                x.node_type.to_byte(),
                x.max_concurrent_sockets,
                x.currently_open_sockets,
                x.max_data_size,
            );
            proof {
                assert(r@ =~= spec_body_bytes(p@));
            }
            r
        },
        DoipPayload::PowerInformationRequest(_) => Vec::new(),
        DoipPayload::PowerInformationResponse(x) => {
            let r = wire_power_information_response(x.power_mode.to_byte());
            proof {
                assert(r@ =~= spec_body_bytes(p@));
            }
            r
        },
        DoipPayload::DiagnosticMessage(x) => {
            let r = wire_diagnostic_message(x.source_address, x.target_address, &x.message);
            proof {
                assert(r@ =~= spec_body_bytes(p@));
            }
            r
        },
        DoipPayload::DiagnosticMessageAck(x) => {
            let r = wire_diagnostic_message_ack(
                x.source_address,
                x.target_address,
                x.ack_code.to_byte(),
            );
            proof {
                assert(r@ =~= spec_body_bytes(p@));
            }
            r
        },
        DoipPayload::DiagnosticMessageNack(x) => {
            let r = wire_diagnostic_message_nack(
                x.source_address,
                x.target_address,
                x.nack_code.to_byte(),
            );
            proof {
                assert(r@ =~= spec_body_bytes(p@));
            }
            r
        },
    }
}

/// Serialize a whole message: one frame on the wire per call.
pub fn encode_message(m: &DoipMessage) -> (r: Vec<u8>)
    ensures
        r@ == spec_message_bytes(m@),
{
    let mut out = header_bytes(&m.header);
    let mut body = body_bytes(&m.payload);
    out.append(&mut body);
    out
}

/// What parsing a payload body of type `t` from the byte sequence `b`
/// yields: the payload whose fields the wire order fixes, or nothing when
/// the body is too short or carries a byte outside its code set.  Bodies
/// longer than the variant's fields keep only the named fields, as the
/// header's length field governs how many bytes belong to the frame.
pub open spec fn spec_parse_body(t: PayloadType, b: Seq<u8>) -> Option<PayloadView> {
    match t {
        PayloadType::GenericNack => {
            if b.len() >= 1 {
                match NackCode::spec_from_byte(b[0]) {
                    Some(c) => Some(PayloadView::GenericNack { nack_code: c }),
                    None => None,
                }
            } else {
                None
            }
        },
        PayloadType::VehicleIdentificationRequest => {
            Some(PayloadView::VehicleIdentificationRequest)
        },
        PayloadType::VehicleIdentificationRequestEid => {
            if b.len() >= 6 {
                Some(PayloadView::VehicleIdentificationRequestEid { eid: b.subrange(0, 6) })
            } else {
                None
            }
        },
        PayloadType::VehicleIdentificationRequestVin => {
            if b.len() >= 17 {
                Some(PayloadView::VehicleIdentificationRequestVin { vin: b.subrange(0, 17) })
            } else {
                None
            }
        },
        PayloadType::VehicleAnnouncementMessage => {
            if b.len() < 32 {
                None
            } else {
                match ActionCode::spec_from_byte(b[31]) {
                    None => None,
                    Some(a) => {
                        if b.len() > 32 {
                            match SyncStatus::spec_from_byte(b[32]) {
                                None => None,
                                Some(s) => Some(
                                    PayloadView::VehicleAnnouncementMessage {
                                        vin: b.subrange(0, 17),
                                        logical_address: b.subrange(17, 19),
                                        eid: b.subrange(19, 25),
                                        gid: b.subrange(25, 31),
                                        further_action: a,
                                        vin_gid_sync: Some(s),
                                    },
                                ),
                            }
                        } else {
                            Some(
                                PayloadView::VehicleAnnouncementMessage {
                                    vin: b.subrange(0, 17),
                                    logical_address: b.subrange(17, 19),
                                    eid: b.subrange(19, 25),
                                    gid: b.subrange(25, 31),
                                    further_action: a,
                                    vin_gid_sync: None,
                                },
                            )
                        }
                    },
                }
            }
        },
        PayloadType::RoutingActivationRequest => {
            if b.len() >= 7 {
                match ActivationType::spec_from_byte(b[2]) {
                    Some(a) => Some(
                        PayloadView::RoutingActivationRequest {
                            source_address: b.subrange(0, 2),
                            activation_type: a,
                            buffer: b.subrange(3, 7),
                        },
                    ),
                    None => None,
                }
            } else {
                None
            }
        },
        PayloadType::RoutingActivationResponse => {
            if b.len() >= 9 {
                match ActivationCode::spec_from_byte(b[4]) {
                    Some(a) => Some(
                        PayloadView::RoutingActivationResponse {
                            logical_address: b.subrange(0, 2),
                            source_address: b.subrange(2, 4),
                            activation_code: a,
                            buffer: b.subrange(5, 9),
                        },
                    ),
                    None => None,
                }
            } else {
                None
            }
        },
        PayloadType::AliveCheckRequest => Some(PayloadView::AliveCheckRequest),
        PayloadType::AliveCheckResponse => {
            if b.len() >= 2 {
                Some(PayloadView::AliveCheckResponse { source_address: b.subrange(0, 2) })
            } else {
                None
            }
        },
        PayloadType::EntityStatusRequest => Some(PayloadView::EntityStatusRequest),
        PayloadType::EntityStatusResponse => {
            if b.len() >= 7 {
                match NodeType::spec_from_byte(b[0]) {
                    Some(n) => Some(
                        PayloadView::EntityStatusResponse {
                            node_type: n,
                            max_concurrent_sockets: b.subrange(1, 2),
                            currently_open_sockets: b.subrange(2, 3),
                            max_data_size: b.subrange(3, 7),
                        },
                    ),
                    None => None,
                }
            } else {
                None
            }
        },
        PayloadType::PowerInformationRequest => Some(PayloadView::PowerInformationRequest),
        PayloadType::PowerInformationResponse => {
            if b.len() >= 1 {
                match PowerMode::spec_from_byte(b[0]) {
                    Some(m) => Some(PayloadView::PowerInformationResponse { power_mode: m }),
                    None => None,
                }
            } else {
                None
            }
        },
        PayloadType::DiagnosticMessage => {
            if b.len() >= 4 {
                Some(
                    PayloadView::DiagnosticMessage {
                        source_address: b.subrange(0, 2),
                        target_address: b.subrange(2, 4),
                        message: b.subrange(4, b.len() as int),
                    },
                )
            } else {
                None
            }
        },
        PayloadType::DiagnosticMessageAck => {
            if b.len() >= 5 {
                match DiagnosticAckCode::spec_from_byte(b[4]) {
                    Some(c) => Some(
                        PayloadView::DiagnosticMessageAck {
                            source_address: b.subrange(0, 2),
                            target_address: b.subrange(2, 4),
                            ack_code: c,
                        },
                    ),
                    None => None,
                }
            } else {
                None
            }
        },
        PayloadType::DiagnosticMessageNack => {
            if b.len() >= 5 {
                match DiagnosticNackCode::spec_from_byte(b[4]) {
                    Some(c) => Some(
                        PayloadView::DiagnosticMessageNack {
                            source_address: b.subrange(0, 2),
                            target_address: b.subrange(2, 4),
                            nack_code: c,
                        },
                    ),
                    None => None,
                }
            } else {
                None
            }
        },
    }
}

/// What decoding a byte stream yields.
pub enum DecodeOutcome {
    /// More bytes are needed before the next frame is complete.
    Incomplete,
    /// The bytes at the front can never become a valid frame.
    Malformed(DecodeError),
    /// One complete frame: the message and the number of bytes it
    /// occupied.
    Frame(MessageView, int),
}

/// What the front of the byte stream `b` decodes to.  The version byte
/// and the type tag must be known; the inverse-version byte is carried,
/// not checked, as it is the peer's consistency guard; exactly
/// `payload_length` bytes after the header belong to the frame.
pub open spec fn spec_decode_frame(b: Seq<u8>) -> DecodeOutcome {
    if b.len() < 8 {
        DecodeOutcome::Incomplete
    } else {
        match ProtocolVersion::spec_from_byte(b[0]) {
            None => DecodeOutcome::Malformed(DecodeError::InvalidHeader),
            Some(v) => {
                match PayloadType::spec_from_tag(spec_u16_from_bytes(b[2], b[3])) {
                    None => DecodeOutcome::Malformed(DecodeError::InvalidHeader),
                    Some(t) => {
                        let len = spec_u32_from_bytes(b[4], b[5], b[6], b[7]) as int;
                        if b.len() < 8 + len {
                            DecodeOutcome::Incomplete
                        } else {
                            match spec_parse_body(t, b.subrange(8, 8 + len)) {
                                None => DecodeOutcome::Malformed(DecodeError::InvalidPayload),
                                Some(pv) => DecodeOutcome::Frame(
                                    MessageView {
                                        header: DoipHeader {
                                            protocol_version: v,
                                            inverse_protocol_version: b[1],
                                            payload_type: t,
                                            payload_length: spec_u32_from_bytes(
                                                b[4],
                                                b[5],
                                                b[6],
                                                b[7],
                                            ),
                                        },
                                        payload: pv,
                                    },
                                    8 + len,
                                ),
                            }
                        }
                    },
                }
            },
        }
    }
}

/// Law: parsing the serialized body of a well-formed payload under its
/// own type tag yields the payload back, for every payload variant.
pub proof fn lemma_parse_body_roundtrip(p: PayloadView)
    requires
        p.wf(),
    ensures
        spec_parse_body(p.spec_payload_type(), spec_body_bytes(p)) == Some(p),
{
    let bts = spec_body_bytes(p);
    match p {
        PayloadView::GenericNack { nack_code } => {
            assert(NackCode::spec_from_byte(nack_code.spec_byte()) == Some(nack_code));
        },
        PayloadView::VehicleIdentificationRequest => {
        },
        PayloadView::VehicleIdentificationRequestEid { eid } => {
            assert(bts.subrange(0, 6) =~= eid);
        },
        PayloadView::VehicleIdentificationRequestVin { vin } => {
            assert(bts.subrange(0, 17) =~= vin);
        },
        PayloadView::VehicleAnnouncementMessage {
            vin,
            logical_address,
            eid,
            gid,
            further_action,
            vin_gid_sync,
        } => {
            assert(bts[31] == further_action.spec_byte());
            assert(ActionCode::spec_from_byte(further_action.spec_byte()) == Some(further_action));
            assert(bts.subrange(0, 17) =~= vin);
            assert(bts.subrange(17, 19) =~= logical_address);
            assert(bts.subrange(19, 25) =~= eid);
            assert(bts.subrange(25, 31) =~= gid);
            match vin_gid_sync {
                Some(s) => {
                    assert(bts.len() == 33);
                    assert(bts[32] == s.spec_byte());
                    assert(SyncStatus::spec_from_byte(s.spec_byte()) == Some(s));
                },
                None => {
                    assert(bts.len() == 32);
                },
            }
        },
        PayloadView::RoutingActivationRequest { source_address, activation_type, buffer } => {
            assert(bts[2] == activation_type.spec_byte());
            assert(ActivationType::spec_from_byte(activation_type.spec_byte()) == Some(
                activation_type,
            ));
            assert(bts.subrange(0, 2) =~= source_address);
            assert(bts.subrange(3, 7) =~= buffer);
        },
        PayloadView::RoutingActivationResponse {
            logical_address,
            source_address,
            activation_code,
            buffer,
        } => {
            assert(bts[4] == activation_code.spec_byte());
            assert(ActivationCode::spec_from_byte(activation_code.spec_byte()) == Some(
                activation_code,
            ));
            assert(bts.subrange(0, 2) =~= logical_address);
            assert(bts.subrange(2, 4) =~= source_address);
            assert(bts.subrange(5, 9) =~= buffer);
        },
        PayloadView::AliveCheckRequest => {
        },
        PayloadView::AliveCheckResponse { source_address } => {
            assert(bts.subrange(0, 2) =~= source_address);
        },
        PayloadView::EntityStatusRequest => {
        },
        PayloadView::EntityStatusResponse {
            node_type,
            max_concurrent_sockets,
            currently_open_sockets,
            max_data_size,
        } => {
            assert(bts[0] == node_type.spec_byte());
            assert(NodeType::spec_from_byte(node_type.spec_byte()) == Some(node_type));
            assert(bts.subrange(1, 2) =~= max_concurrent_sockets);
            assert(bts.subrange(2, 3) =~= currently_open_sockets);
            assert(bts.subrange(3, 7) =~= max_data_size);
        },
        PayloadView::PowerInformationRequest => {
        },
        PayloadView::PowerInformationResponse { power_mode } => {
            assert(PowerMode::spec_from_byte(power_mode.spec_byte()) == Some(power_mode));
        },
        PayloadView::DiagnosticMessage { source_address, target_address, message } => {
            assert(bts.subrange(0, 2) =~= source_address);
            assert(bts.subrange(2, 4) =~= target_address);
            assert(bts.subrange(4, bts.len() as int) =~= message);
        },
        PayloadView::DiagnosticMessageAck { source_address, target_address, ack_code } => {
            assert(bts[4] == ack_code.spec_byte());
            assert(DiagnosticAckCode::spec_from_byte(ack_code.spec_byte()) == Some(ack_code));
            assert(bts.subrange(0, 2) =~= source_address);
            assert(bts.subrange(2, 4) =~= target_address);
        },
        PayloadView::DiagnosticMessageNack { source_address, target_address, nack_code } => {
            assert(bts[4] == nack_code.spec_byte());
            assert(DiagnosticNackCode::spec_from_byte(nack_code.spec_byte()) == Some(nack_code));
            assert(bts.subrange(0, 2) =~= source_address);
            assert(bts.subrange(2, 4) =~= target_address);
        },
    }
}

/// Law: a well-formed message's frame at the front of a byte stream
/// decodes back to that message and consumes exactly the frame, whatever
/// bytes follow it.
pub proof fn lemma_frame_prefix_decode(m: MessageView, rest: Seq<u8>)
    requires
        m.wf(),
    ensures
        spec_decode_frame(spec_message_bytes(m) + rest) == DecodeOutcome::Frame(
            m,
            spec_message_bytes(m).len() as int,
        ),
{
    let b = spec_message_bytes(m) + rest;
    let hb = spec_header_bytes(m.header);
    let bb = spec_body_bytes(m.payload);
    let tag = m.header.payload_type.spec_tag();
    let plen = m.header.payload_length;
    lemma_body_bytes_len(m.payload);
    assert(hb.len() == 8);
    assert(b.len() == 8 + bb.len() + rest.len());
    assert(b[0] == m.header.protocol_version.spec_byte());
    assert(b[1] == m.header.inverse_protocol_version);
    assert(b[2] == spec_u16_bytes(tag)[0]);
    assert(b[3] == spec_u16_bytes(tag)[1]);
    assert(b[4] == spec_u32_bytes(plen)[0]);
    assert(b[5] == spec_u32_bytes(plen)[1]);
    assert(b[6] == spec_u32_bytes(plen)[2]);
    assert(b[7] == spec_u32_bytes(plen)[3]);
    crate::version::lemma_version_byte_roundtrip(m.header.protocol_version);
    crate::bytes::lemma_u16_bytes_roundtrip(tag);
    crate::header::lemma_payload_type_tag_roundtrip(m.header.payload_type);
    crate::bytes::lemma_u32_bytes_roundtrip(plen);
    assert(spec_u32_from_bytes(b[4], b[5], b[6], b[7]) == plen);
    assert(plen == bb.len());
    assert(b.subrange(8, 8 + plen as int) =~= bb);
    lemma_parse_body_roundtrip(m.payload);
    assert(m.header.payload_type == m.payload.spec_payload_type());
    assert(spec_parse_body(m.header.payload_type, bb) == Some(m.payload));
}

/// Law: encoding a well-formed message and decoding the resulting bytes
/// yields the message back and consumes exactly the frame, for every
/// payload variant.
pub proof fn lemma_encode_decode_roundtrip(m: MessageView)
    requires
        m.wf(),
    ensures
        spec_decode_frame(spec_message_bytes(m)) == DecodeOutcome::Frame(
            m,
            spec_message_bytes(m).len() as int,
        ),
{
    lemma_frame_prefix_decode(m, Seq::<u8>::empty());
    assert(spec_message_bytes(m) + Seq::<u8>::empty() =~= spec_message_bytes(m));
}

/// Copy `b[start..end]` into a fresh vector.
fn copy_range(b: &[u8], start: usize, end: usize) -> (r: Vec<u8>)
    requires
        start <= end <= b@.len(),
    ensures
        r@ == b@.subrange(start as int, end as int),
{
    let mut v: Vec<u8> = Vec::new();
    let mut i: usize = start;
    while i < end
        invariant
            start <= i <= end <= b@.len(),
            v@ == b@.subrange(start as int, i as int),
        decreases end - i,
    {
        v.push(b[i]);
        proof {
            assert(v@ =~= b@.subrange(start as int, (i + 1) as int));
        }
        i += 1;
    }
    v
}

/// Parse a payload body of type `t` from `b[start..start + len]`.
#[verifier::rlimit(100)]
#[verifier::spinoff_prover]
pub fn parse_body(t: PayloadType, b: &[u8], start: usize, len: usize) -> (r: Option<DoipPayload>)
    requires
        start + len <= b@.len(),
        len <= 0xFFFF_FFFF,
    ensures
        ({
            let sb = b@.subrange(start as int, (start + len) as int);
            &&& (r is Some) == (spec_parse_body(t, sb) is Some)
            &&& (r matches Some(p) ==> Some(p@) == spec_parse_body(t, sb) && p.wf())
        }),
{
    let ghost sb = b@.subrange(start as int, (start + len) as int);
    let total: usize = b.len();
    match t {
        PayloadType::GenericNack => {
            if len < 1 {
                return None;
            }
            match NackCode::from_byte(b[start]) {
                Some(c) => Some(
                    DoipPayload::GenericNack(crate::payload::GenericNack { nack_code: c }),
                ),
                None => None,
            }
        },
        PayloadType::VehicleIdentificationRequest => {
            Some(
                DoipPayload::VehicleIdentificationRequest(
                    crate::payload::VehicleIdentificationRequest {  },
                ),
            )
        },
        PayloadType::VehicleIdentificationRequestEid => {
            if len < 6 {
                return None;
            }
            let eid: [u8; 6] = [
                b[start],
                b[start + 1],
                b[start + 2],
                b[start + 3],
                b[start + 4],
                b[start + 5],
            ];
            proof {
                assert(eid@ =~= sb.subrange(0, 6));
            }
            Some(
                DoipPayload::VehicleIdentificationRequestEid(
                    crate::payload::VehicleIdentificationRequestEid { eid },
                ),
            )
        },
        PayloadType::VehicleIdentificationRequestVin => {
            if len < 17 {
                return None;
            }
            let vin: [u8; 17] = [
                b[start],
                b[start + 1],
                b[start + 2],
                b[start + 3],
                b[start + 4],
                b[start + 5],
                b[start + 6],
                b[start + 7],
                b[start + 8],
                b[start + 9],
                b[start + 10],
                b[start + 11],
                b[start + 12],
                b[start + 13],
                b[start + 14],
                b[start + 15],
                b[start + 16],
            ];
            proof {
                assert(vin@ =~= sb.subrange(0, 17));
            }
            Some(
                DoipPayload::VehicleIdentificationRequestVin(
                    crate::payload::VehicleIdentificationRequestVin { vin },
                ),
            )
        },
        PayloadType::VehicleAnnouncementMessage => {
            if len < 32 {
                return None;
            }
            let further_action = match ActionCode::from_byte(b[start + 31]) {
                Some(a) => a,
                None => {
                    return None;
                },
            };
            let vin_gid_sync: Option<SyncStatus> = if len > 32 {
                match SyncStatus::from_byte(b[start + 32]) {
                    Some(s) => Some(s),
                    None => {
                        return None;
                    },
                }
            } else {
                None
            };
            let vin: [u8; 17] = [
                b[start],
                b[start + 1],
                b[start + 2],
                b[start + 3],
                b[start + 4],
                b[start + 5],
                b[start + 6],
                b[start + 7],
                b[start + 8],
                b[start + 9],
                b[start + 10],
                b[start + 11],
                b[start + 12],
                b[start + 13],
                b[start + 14],
                b[start + 15],
                b[start + 16],
            ];
            let logical_address: [u8; 2] = [b[start + 17], b[start + 18]];
            let eid: [u8; 6] = [
                b[start + 19],
                b[start + 20],
                b[start + 21],
                b[start + 22],
                b[start + 23],
                b[start + 24],
            ];
            let gid: [u8; 6] = [
                b[start + 25],
                b[start + 26],
                b[start + 27],
                b[start + 28],
                b[start + 29],
                b[start + 30],
            ];
            proof {
                assert(vin@ =~= sb.subrange(0, 17));
                assert(logical_address@ =~= sb.subrange(17, 19));
                assert(eid@ =~= sb.subrange(19, 25));
                assert(gid@ =~= sb.subrange(25, 31));
            }
            Some(
                DoipPayload::VehicleAnnouncementMessage(
                    crate::payload::VehicleAnnouncementMessage {
                        vin,
                        logical_address,
                        eid,
                        gid,
                        further_action,
                        vin_gid_sync,
                    },
                ),
            )
        },
        PayloadType::RoutingActivationRequest => {
            if len < 7 {
                return None;
            }
            let activation_type = match ActivationType::from_byte(b[start + 2]) {
                Some(a) => a,
                None => {
                    return None;
                },
            };
            let source_address: [u8; 2] = [b[start], b[start + 1]];
            let buffer: [u8; 4] = [b[start + 3], b[start + 4], b[start + 5], b[start + 6]];
            proof {
                assert(source_address@ =~= sb.subrange(0, 2));
                assert(buffer@ =~= sb.subrange(3, 7));
            }
            Some(
                DoipPayload::RoutingActivationRequest(
                    crate::payload::RoutingActivationRequest {
                        source_address,
                        activation_type,
                        buffer,
                    },
                ),
            )
        },
        PayloadType::RoutingActivationResponse => {
            if len < 9 {
                return None;
            }
            let activation_code = match ActivationCode::from_byte(b[start + 4]) {
                Some(a) => a,
                None => {
                    return None;
                },
            };
            let logical_address: [u8; 2] = [b[start], b[start + 1]];
            let source_address: [u8; 2] = [b[start + 2], b[start + 3]];
            let buffer: [u8; 4] = [b[start + 5], b[start + 6], b[start + 7], b[start + 8]];
            proof {
                assert(logical_address@ =~= sb.subrange(0, 2));
                assert(source_address@ =~= sb.subrange(2, 4));
                assert(buffer@ =~= sb.subrange(5, 9));
            }
            Some(
                DoipPayload::RoutingActivationResponse(
                    crate::payload::RoutingActivationResponse {
                        logical_address,
                        source_address,
                        activation_code,
                        buffer,
                    },
                ),
            )
        },
        PayloadType::AliveCheckRequest => {
            Some(DoipPayload::AliveCheckRequest(crate::payload::AliveCheckRequest {  }))
        },
        PayloadType::AliveCheckResponse => {
            if len < 2 {
                return None;
            }
            let source_address: [u8; 2] = [b[start], b[start + 1]];
            proof {
                assert(source_address@ =~= sb.subrange(0, 2));
            }
            Some(
                DoipPayload::AliveCheckResponse(
                    crate::payload::AliveCheckResponse { source_address },
                ),
            )
        },
        PayloadType::EntityStatusRequest => {
            Some(DoipPayload::EntityStatusRequest(crate::payload::EntityStatusRequest {  }))
        },
        PayloadType::EntityStatusResponse => {
            if len < 7 {
                return None;
            }
            let node_type = match NodeType::from_byte(b[start]) {
                Some(n) => n,
                None => {
                    return None;
                },
            };
            let max_concurrent_sockets: [u8; 1] = [b[start + 1]];
            let currently_open_sockets: [u8; 1] = [b[start + 2]];
            let max_data_size: [u8; 4] = [b[start + 3], b[start + 4], b[start + 5], b[start + 6]];
            proof {
                assert(max_concurrent_sockets@ =~= sb.subrange(1, 2));
                assert(currently_open_sockets@ =~= sb.subrange(2, 3));
                assert(max_data_size@ =~= sb.subrange(3, 7));
            }
            Some(
                DoipPayload::EntityStatusResponse(
                    crate::payload::EntityStatusResponse {
                        node_type,
                        max_concurrent_sockets,
                        currently_open_sockets,
                        max_data_size,
                    },
                ),
            )
        },
        PayloadType::PowerInformationRequest => {
            Some(
                DoipPayload::PowerInformationRequest(crate::payload::PowerInformationRequest {  }),
            )
        },
        PayloadType::PowerInformationResponse => {
            if len < 1 {
                return None;
            }
            match PowerMode::from_byte(b[start]) {
                Some(m) => Some(
                    DoipPayload::PowerInformationResponse(
                        crate::payload::PowerInformationResponse { power_mode: m },
                    ),
                ),
                None => None,
            }
        },
        PayloadType::DiagnosticMessage => {
            if len < 4 {
                return None;
            }
            let source_address: [u8; 2] = [b[start], b[start + 1]];
            let target_address: [u8; 2] = [b[start + 2], b[start + 3]];
            let message = copy_range(b, start + 4, start + len);
            proof {
                assert(source_address@ =~= sb.subrange(0, 2));
                assert(target_address@ =~= sb.subrange(2, 4));
                assert(message@ =~= sb.subrange(4, sb.len() as int));
            }
            Some(
                DoipPayload::DiagnosticMessage(
                    crate::payload::DiagnosticMessage {
                        source_address,
                        target_address,
                        message,
                    },
                ),
            )
        },
        PayloadType::DiagnosticMessageAck => {
            if len < 5 {
                return None;
            }
            let ack_code = match DiagnosticAckCode::from_byte(b[start + 4]) {
                Some(c) => c,
                None => {
                    return None;
                },
            };
            let source_address: [u8; 2] = [b[start], b[start + 1]];
            let target_address: [u8; 2] = [b[start + 2], b[start + 3]];
            proof {
                assert(source_address@ =~= sb.subrange(0, 2));
                assert(target_address@ =~= sb.subrange(2, 4));
            }
            Some(
                DoipPayload::DiagnosticMessageAck(
                    crate::payload::DiagnosticMessageAck {
                        source_address,
                        target_address,
                        ack_code,
                    },
                ),
            )
        },
        PayloadType::DiagnosticMessageNack => {
            if len < 5 {
                return None;
            }
            let nack_code = match DiagnosticNackCode::from_byte(b[start + 4]) {
                Some(c) => c,
                None => {
                    return None;
                },
            };
            let source_address: [u8; 2] = [b[start], b[start + 1]];
            let target_address: [u8; 2] = [b[start + 2], b[start + 3]];
            proof {
                assert(source_address@ =~= sb.subrange(0, 2));
                assert(target_address@ =~= sb.subrange(2, 4));
            }
            Some(
                DoipPayload::DiagnosticMessageNack(
                    crate::payload::DiagnosticMessageNack {
                        source_address,
                        target_address,
                        nack_code,
                    },
                ),
            )
        },
    }
}

/// Decode the frame at the front of `b`.
///
/// Returns the message and the count of bytes it occupied; `None` when
/// the buffer does not yet hold a whole frame, which is the terminal
/// "no next message" signal on a cleanly closed stream; an error exactly
/// when the front of the buffer can never become a valid frame.
pub fn decode_frame(b: &[u8]) -> (r: Result<Option<(DoipMessage, usize)>, DecodeError>)
    ensures
        ({
            match spec_decode_frame(b@) {
                DecodeOutcome::Incomplete => r == Ok::<Option<(DoipMessage, usize)>, DecodeError>(
                    None,
                ),
                DecodeOutcome::Malformed(e) => r == Err::<
                    Option<(DoipMessage, usize)>,
                    DecodeError,
                >(e),
                DecodeOutcome::Frame(mv, n) => {
                    &&& r matches Ok(Some((m, c)))
                    &&& m@ == mv
                    &&& c == n
                    &&& m@.payload.wf()
                },
            }
        }),
{
    if b.len() < 8 {
        return Ok(None);
    }
    let protocol_version = match ProtocolVersion::from_byte(b[0]) {
        Some(v) => v,
        None => {
            return Err(DecodeError::InvalidHeader);
        },
    };
    let inverse_protocol_version = b[1];
    let payload_type = match PayloadType::from_tag(u16_from_bytes(b[2], b[3])) {
        Some(t) => t,
        None => {
            return Err(DecodeError::InvalidHeader);
        },
    };
    let payload_length = u32_from_bytes(b[4], b[5], b[6], b[7]);
    let len: usize = payload_length as usize;
    if b.len() - 8 < len {
        return Ok(None);
    }
    match parse_body(payload_type, b, 8, len) {
        None => Err(DecodeError::InvalidPayload),
        Some(payload) => {
            let header = DoipHeader {
                protocol_version,
                inverse_protocol_version,
                payload_type,
                payload_length,
            };
            Ok(Some((DoipMessage { header, payload }, 8 + len)))
        },
    }
}

} // verus!
