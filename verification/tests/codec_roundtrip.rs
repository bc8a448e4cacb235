use doip_sockets::codec::decode_frame;
use doip_sockets::codec::encode_message;
use doip_sockets::codes::ActionCode;
use doip_sockets::codes::ActivationCode;
use doip_sockets::codes::ActivationType;
use doip_sockets::codes::DiagnosticAckCode;
use doip_sockets::codes::DiagnosticNackCode;
use doip_sockets::codes::NackCode;
use doip_sockets::codes::NodeType;
use doip_sockets::codes::PowerMode;
use doip_sockets::codes::SyncStatus;
use doip_sockets::error::DecodeError;
use doip_sockets::message::DoipMessage;
use doip_sockets::payload::AliveCheckRequest;
use doip_sockets::payload::AliveCheckResponse;
use doip_sockets::payload::DiagnosticMessage;
use doip_sockets::payload::DiagnosticMessageAck;
use doip_sockets::payload::DiagnosticMessageNack;
use doip_sockets::payload::DoipPayload;
use doip_sockets::payload::EntityStatusRequest;
use doip_sockets::payload::EntityStatusResponse;
use doip_sockets::payload::GenericNack;
use doip_sockets::payload::PowerInformationRequest;
use doip_sockets::payload::PowerInformationResponse;
use doip_sockets::payload::RoutingActivationRequest;
use doip_sockets::payload::RoutingActivationResponse;
use doip_sockets::payload::VehicleAnnouncementMessage;
use doip_sockets::payload::VehicleIdentificationRequest;
use doip_sockets::payload::VehicleIdentificationRequestEid;
use doip_sockets::payload::VehicleIdentificationRequestVin;
use doip_sockets::version::ProtocolVersion;
use tokio_util::codec::Decoder;
use tokio_util::codec::Encoder;

fn all_payloads() -> Vec<DoipPayload> {
    vec![
        DoipPayload::GenericNack(GenericNack {
            nack_code: NackCode::InvalidPayloadLength,
        }),
        DoipPayload::VehicleIdentificationRequest(VehicleIdentificationRequest {}),
        DoipPayload::VehicleIdentificationRequestEid(VehicleIdentificationRequestEid {
            eid: [1, 2, 3, 4, 5, 6],
        }),
        DoipPayload::VehicleIdentificationRequestVin(VehicleIdentificationRequestVin {
            vin: [b'W'; 17],
        }),
        DoipPayload::VehicleAnnouncementMessage(VehicleAnnouncementMessage {
            vin: [3; 17],
            logical_address: [0x0e, 0x80],
            eid: [4; 6],
            gid: [5; 6],
            further_action: ActionCode::RoutingActivationRequired,
            vin_gid_sync: None,
        }),
        DoipPayload::VehicleAnnouncementMessage(VehicleAnnouncementMessage {
            vin: [3; 17],
            logical_address: [0x0e, 0x80],
            eid: [4; 6],
            gid: [5; 6],
            further_action: ActionCode::NoFurtherActionRequired,
            vin_gid_sync: Some(SyncStatus::VinGidNotSynchronised),
        }),
        DoipPayload::RoutingActivationRequest(RoutingActivationRequest {
            source_address: [0x0e, 0x80],
            activation_type: ActivationType::WwhObd,
            buffer: [0, 0, 0, 0],
        }),
        DoipPayload::RoutingActivationResponse(RoutingActivationResponse {
            logical_address: [0x0e, 0x80],
            source_address: [0x14, 0x11],
            activation_code: ActivationCode::SuccessfullyActivated,
            buffer: [0, 0, 0, 0],
        }),
        DoipPayload::AliveCheckRequest(AliveCheckRequest {}),
        DoipPayload::AliveCheckResponse(AliveCheckResponse {
            source_address: [0x0e, 0x80],
        }),
        DoipPayload::EntityStatusRequest(EntityStatusRequest {}),
        DoipPayload::EntityStatusResponse(EntityStatusResponse {
            node_type: NodeType::DoipNode,
            max_concurrent_sockets: [8],
            currently_open_sockets: [2],
            max_data_size: [0, 0, 0xff, 0xff],
        }),
        DoipPayload::PowerInformationRequest(PowerInformationRequest {}),
        DoipPayload::PowerInformationResponse(PowerInformationResponse {
            power_mode: PowerMode::NotReady,
        }),
        DoipPayload::DiagnosticMessage(DiagnosticMessage {
            source_address: [0x0e, 0x80],
            target_address: [0x14, 0x11],
            message: vec![0x22, 0xf1, 0x89, 0x01],
        }),
        DoipPayload::DiagnosticMessageAck(DiagnosticMessageAck {
            source_address: [0x14, 0x11],
            target_address: [0x0e, 0x80],
            ack_code: DiagnosticAckCode::Acknowledged,
        }),
        DoipPayload::DiagnosticMessageNack(DiagnosticMessageNack {
            source_address: [0x14, 0x11],
            target_address: [0x0e, 0x80],
            nack_code: DiagnosticNackCode::OutOfMemory,
        }),
    ]
}

#[test]
fn encode_then_decode_yields_the_original_for_every_variant() {
    for payload in all_payloads() {
        let message = DoipMessage::new(ProtocolVersion::Iso13400_2012, payload);
        let bytes = encode_message(&message);
        let (decoded, consumed) = decode_frame(&bytes).unwrap().unwrap();
        assert_eq!(consumed, bytes.len());
        assert_eq!(decoded, message);
    }
}

#[test]
fn decoding_ignores_trailing_bytes_of_the_next_frame() {
    let first = DoipMessage::new(
        ProtocolVersion::Iso13400_2012,
        DoipPayload::AliveCheckRequest(AliveCheckRequest {}),
    );
    let second = DoipMessage::new(
        ProtocolVersion::Iso13400_2012,
        DoipPayload::AliveCheckResponse(AliveCheckResponse {
            source_address: [0x0e, 0x80],
        }),
    );
    let mut bytes = encode_message(&first);
    let first_len = bytes.len();
    bytes.extend_from_slice(&encode_message(&second));

    let (decoded, consumed) = decode_frame(&bytes).unwrap().unwrap();
    assert_eq!(consumed, first_len);
    assert_eq!(decoded, first);

    let rest = &bytes[consumed..];
    let (decoded2, consumed2) = decode_frame(rest).unwrap().unwrap();
    assert_eq!(consumed2, rest.len());
    assert_eq!(decoded2, second);
}

#[test]
fn incomplete_frames_are_not_errors() {
    let message = DoipMessage::new(
        ProtocolVersion::Iso13400_2012,
        DoipPayload::RoutingActivationRequest(RoutingActivationRequest {
            source_address: [0x0e, 0x80],
            activation_type: ActivationType::Default,
            buffer: [0, 0, 0, 0],
        }),
    );
    let bytes = encode_message(&message);
    assert_eq!(decode_frame(&bytes[..5]), Ok(None));
    assert_eq!(decode_frame(&bytes[..12]), Ok(None));
    assert_eq!(decode_frame(&[]), Ok(None));
}

#[test]
fn unknown_version_or_type_is_an_invalid_header() {
    let message = DoipMessage::new(
        ProtocolVersion::Iso13400_2012,
        DoipPayload::AliveCheckRequest(AliveCheckRequest {}),
    );
    let mut bytes = encode_message(&message);
    bytes[0] = 0x05;
    assert_eq!(decode_frame(&bytes), Err(DecodeError::InvalidHeader));

    let mut bytes = encode_message(&message);
    bytes[2] = 0x99;
    bytes[3] = 0x99;
    assert_eq!(decode_frame(&bytes), Err(DecodeError::InvalidHeader));
}

#[test]
fn a_code_outside_its_set_is_an_invalid_payload() {
    let message = DoipMessage::new(
        ProtocolVersion::Iso13400_2012,
        DoipPayload::GenericNack(GenericNack {
            nack_code: NackCode::OutOfMemory,
        }),
    );
    let mut bytes = encode_message(&message);
    bytes[8] = 0x77;
    assert_eq!(decode_frame(&bytes), Err(DecodeError::InvalidPayload));
}

#[test]
fn reserved_codes_are_carried_like_any_other() {
    let payloads = vec![
        DoipPayload::RoutingActivationResponse(RoutingActivationResponse {
            logical_address: [0x0e, 0x80],
            source_address: [0x14, 0x11],
            activation_code: ActivationCode::ReservedByIso13400_0A,
            buffer: [0, 0, 0, 0],
        }),
        DoipPayload::VehicleAnnouncementMessage(VehicleAnnouncementMessage {
            vin: [1; 17],
            logical_address: [0x0e, 0x80],
            eid: [2; 6],
            gid: [3; 6],
            further_action: ActionCode::ReservedByIso13400_05,
            vin_gid_sync: Some(SyncStatus::ReservedByIso13400_0F),
        }),
        DoipPayload::DiagnosticMessageNack(DiagnosticMessageNack {
            source_address: [0x14, 0x11],
            target_address: [0x0e, 0x80],
            nack_code: DiagnosticNackCode::ReservedByIso13400_00,
        }),
    ];
    for payload in payloads {
        let message = DoipMessage::new(ProtocolVersion::Iso13400_2012, payload);
        let bytes = encode_message(&message);
        let (decoded, consumed) = decode_frame(&bytes).unwrap().unwrap();
        assert_eq!(consumed, bytes.len());
        assert_eq!(decoded, message);
    }
}

#[test]
fn announcement_encodes_to_the_documented_layout() {
    let message = DoipMessage::new(
        ProtocolVersion::Iso13400_2012,
        DoipPayload::VehicleAnnouncementMessage(VehicleAnnouncementMessage {
            vin: [0x11; 17],
            logical_address: [0x0e, 0x80],
            eid: [0x22; 6],
            gid: [0x33; 6],
            further_action: ActionCode::RoutingActivationRequired,
            vin_gid_sync: None,
        }),
    );
    let mut expected = vec![0x02, 0xFD, 0x00, 0x04, 0x00, 0x00, 0x00, 32];
    expected.extend_from_slice(&[0x11; 17]);
    expected.extend_from_slice(&[0x0e, 0x80]);
    expected.extend_from_slice(&[0x22; 6]);
    expected.extend_from_slice(&[0x33; 6]);
    expected.push(0x10);
    assert_eq!(encode_message(&message), expected);

    let message = DoipMessage::new(
        ProtocolVersion::Iso13400_2012,
        DoipPayload::VehicleAnnouncementMessage(VehicleAnnouncementMessage {
            vin: [0x11; 17],
            logical_address: [0x0e, 0x80],
            eid: [0x22; 6],
            gid: [0x33; 6],
            further_action: ActionCode::NoFurtherActionRequired,
            vin_gid_sync: Some(SyncStatus::VinGidSynchronized),
        }),
    );
    let bytes = encode_message(&message);
    assert_eq!(bytes[7], 33);
    assert_eq!(bytes.len(), 8 + 33);
    assert_eq!(bytes[8 + 31], 0x00);
    assert_eq!(bytes[8 + 32], 0x00);
}

#[test]
fn entity_status_response_encodes_to_the_documented_layout() {
    let message = DoipMessage::new(
        ProtocolVersion::Iso13400_2012,
        DoipPayload::EntityStatusResponse(EntityStatusResponse {
            node_type: NodeType::DoipNode,
            max_concurrent_sockets: [4],
            currently_open_sockets: [1],
            max_data_size: [0x00, 0x00, 0x0f, 0xff],
        }),
    );
    let expected = vec![
        0x02, 0xFD, 0x40, 0x02, 0x00, 0x00, 0x00, 7, 0x01, 4, 1, 0x00, 0x00, 0x0f, 0xff,
    ];
    assert_eq!(encode_message(&message), expected);
}

fn reference_message(
    payload_type: doip_definitions::header::PayloadType,
    payload_length: u32,
    payload: doip_definitions::payload::DoipPayload,
) -> doip_definitions::message::DoipMessage {
    doip_definitions::message::DoipMessage {
        header: doip_definitions::header::DoipHeader {
            protocol_version: doip_definitions::header::ProtocolVersion::Iso13400_2012,
            inverse_protocol_version: 0xFD,
            payload_type,
            payload_length,
        },
        payload,
    }
}

#[test]
fn encoding_matches_the_reference_codec_byte_for_byte() {
    let cases: Vec<(DoipPayload, doip_definitions::message::DoipMessage)> = vec![
        (
            DoipPayload::RoutingActivationRequest(RoutingActivationRequest {
                source_address: [0x0e, 0x80],
                activation_type: ActivationType::Default,
                buffer: [9, 8, 7, 6],
            }),
            reference_message(
                doip_definitions::header::PayloadType::RoutingActivationRequest,
                7,
                doip_definitions::payload::DoipPayload::RoutingActivationRequest(
                    doip_definitions::payload::RoutingActivationRequest {
                        source_address: [0x0e, 0x80],
                        activation_type: doip_definitions::payload::ActivationType::Default,
                        buffer: [9, 8, 7, 6],
                    },
                ),
            ),
        ),
        (
            DoipPayload::DiagnosticMessage(DiagnosticMessage {
                source_address: [0x0e, 0x80],
                target_address: [0x14, 0x11],
                message: vec![0x3e, 0x00],
            }),
            reference_message(
                doip_definitions::header::PayloadType::DiagnosticMessage,
                6,
                doip_definitions::payload::DoipPayload::DiagnosticMessage(
                    doip_definitions::payload::DiagnosticMessage {
                        source_address: [0x0e, 0x80],
                        target_address: [0x14, 0x11],
                        message: vec![0x3e, 0x00],
                    },
                ),
            ),
        ),
        (
            DoipPayload::VehicleIdentificationRequest(VehicleIdentificationRequest {}),
            reference_message(
                doip_definitions::header::PayloadType::VehicleIdentificationRequest,
                0,
                doip_definitions::payload::DoipPayload::VehicleIdentificationRequest(
                    doip_definitions::payload::VehicleIdentificationRequest {},
                ),
            ),
        ),
        (
            DoipPayload::GenericNack(GenericNack {
                nack_code: NackCode::MessageTooLarge,
            }),
            reference_message(
                doip_definitions::header::PayloadType::GenericNack,
                1,
                doip_definitions::payload::DoipPayload::GenericNack(
                    doip_definitions::payload::GenericNack {
                        nack_code: doip_definitions::payload::NackCode::MessageTooLarge,
                    },
                ),
            ),
        ),
    ];
    for (mine, reference) in cases {
        let message = DoipMessage::new(ProtocolVersion::Iso13400_2012, mine);
        let bytes = encode_message(&message);

        let mut codec = doip_codec::DoipCodec {};
        let mut buf = tokio_util::bytes::BytesMut::new();
        codec.encode(reference, &mut buf).unwrap();
        assert_eq!(bytes, buf.to_vec());
    }
}

#[test]
fn reference_codec_decodes_library_bytes() {
    let message = DoipMessage::new(
        ProtocolVersion::Iso13400_2012,
        DoipPayload::RoutingActivationResponse(RoutingActivationResponse {
            logical_address: [0x0e, 0x80],
            source_address: [0x14, 0x11],
            activation_code: ActivationCode::SuccessfullyActivated,
            buffer: [0, 0, 0, 0],
        }),
    );
    let bytes = encode_message(&message);

    let mut codec = doip_codec::DoipCodec {};
    let mut buf = tokio_util::bytes::BytesMut::from(bytes.as_slice());
    let decoded = codec.decode(&mut buf).unwrap().unwrap();
    assert_eq!(decoded.header.payload_length, 9);
    assert_eq!(
        decoded.payload,
        doip_definitions::payload::DoipPayload::RoutingActivationResponse(
            doip_definitions::payload::RoutingActivationResponse {
                logical_address: [0x0e, 0x80],
                source_address: [0x14, 0x11],
                activation_code: doip_definitions::payload::ActivationCode::SuccessfullyActivated,
                buffer: [0, 0, 0, 0],
            }
        )
    );
}
