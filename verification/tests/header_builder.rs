use doip_sockets::codes::ActionCode;
use doip_sockets::codes::ActivationCode;
use doip_sockets::codes::ActivationType;
use doip_sockets::codes::DiagnosticAckCode;
use doip_sockets::codes::DiagnosticNackCode;
use doip_sockets::codes::NackCode;
use doip_sockets::codes::NodeType;
use doip_sockets::codes::PowerMode;
use doip_sockets::codes::SyncStatus;
use doip_sockets::header::PayloadType;
use doip_sockets::new_header;
use doip_sockets::payload::AliveCheckRequest;
use doip_sockets::payload::AliveCheckResponse;
use doip_sockets::payload::DiagnosticMessage;
use doip_sockets::payload::DiagnosticMessageAck;
use doip_sockets::payload::DiagnosticMessageNack;
use doip_sockets::payload::DoipPayload;
use doip_sockets::payload::EntityStatusRequest;
use doip_sockets::payload::EntityStatusResponse;
use doip_sockets::payload::GenericNack;
use doip_sockets::payload::PowerInformationRequest;
use doip_sockets::payload::PowerInformationResponse;
use doip_sockets::payload::RoutingActivationRequest;
use doip_sockets::payload::RoutingActivationResponse;
use doip_sockets::payload::VehicleAnnouncementMessage;
use doip_sockets::payload::VehicleIdentificationRequest;
use doip_sockets::payload::VehicleIdentificationRequestEid;
use doip_sockets::payload::VehicleIdentificationRequestVin;
use doip_sockets::version::ProtocolVersion;

fn all_payloads() -> Vec<(DoipPayload, PayloadType, u32)> {
    vec![
        (
            DoipPayload::GenericNack(GenericNack {
                nack_code: NackCode::IncorrectPatternFormat,
            }),
            PayloadType::GenericNack,
            1,
        ),
        (
            DoipPayload::VehicleIdentificationRequest(VehicleIdentificationRequest {}),
            PayloadType::VehicleIdentificationRequest,
            0,
        ),
        (
            DoipPayload::VehicleIdentificationRequestEid(VehicleIdentificationRequestEid {
                eid: [1, 2, 3, 4, 5, 6],
            }),
            PayloadType::VehicleIdentificationRequestEid,
            6,
        ),
        (
            DoipPayload::VehicleIdentificationRequestVin(VehicleIdentificationRequestVin {
                vin: [7; 17],
            }),
            PayloadType::VehicleIdentificationRequestVin,
            17,
        ),
        (
            DoipPayload::VehicleAnnouncementMessage(VehicleAnnouncementMessage {
                vin: [9; 17],
                logical_address: [0x0e, 0x80],
                eid: [1; 6],
                gid: [2; 6],
                further_action: ActionCode::NoFurtherActionRequired,
                vin_gid_sync: None,
            }),
            PayloadType::VehicleAnnouncementMessage,
            32,
        ),
        (
            DoipPayload::VehicleAnnouncementMessage(VehicleAnnouncementMessage {
                vin: [9; 17],
                logical_address: [0x0e, 0x80],
                eid: [1; 6],
                gid: [2; 6],
                further_action: ActionCode::RoutingActivationRequired,
                vin_gid_sync: Some(SyncStatus::VinGidSynchronized),
            }),
            PayloadType::VehicleAnnouncementMessage,
            33,
        ),
        (
            DoipPayload::RoutingActivationRequest(RoutingActivationRequest {
                source_address: [0x0e, 0x80],
                activation_type: ActivationType::Default,
                buffer: [0, 0, 0, 0],
            }),
            PayloadType::RoutingActivationRequest,
            7,
        ),
        (
            DoipPayload::RoutingActivationResponse(RoutingActivationResponse {
                logical_address: [0x0e, 0x80],
                source_address: [0x14, 0x11],
                activation_code: ActivationCode::SuccessfullyActivated,
                buffer: [0, 0, 0, 0],
            }),
            PayloadType::RoutingActivationResponse,
            9,
        ),
        (
            DoipPayload::AliveCheckRequest(AliveCheckRequest {}),
            PayloadType::AliveCheckRequest,
            0,
        ),
        (
            DoipPayload::AliveCheckResponse(AliveCheckResponse {
                source_address: [0x0e, 0x80],
            }),
            PayloadType::AliveCheckResponse,
            2,
        ),
        (
            DoipPayload::EntityStatusRequest(EntityStatusRequest {}),
            PayloadType::EntityStatusRequest,
            0,
        ),
        (
            DoipPayload::EntityStatusResponse(EntityStatusResponse {
                node_type: NodeType::DoipGateway,
                max_concurrent_sockets: [4],
                currently_open_sockets: [1],
                max_data_size: [0, 0, 0x0f, 0xff],
            }),
            PayloadType::EntityStatusResponse,
            7,
        ),
        (
            DoipPayload::PowerInformationRequest(PowerInformationRequest {}),
            PayloadType::PowerInformationRequest,
            0,
        ),
        (
            DoipPayload::PowerInformationResponse(PowerInformationResponse {
                power_mode: PowerMode::Ready,
            }),
            PayloadType::PowerInformationResponse,
            1,
        ),
        (
            DoipPayload::DiagnosticMessage(DiagnosticMessage {
                source_address: [0x0e, 0x80],
                target_address: [0x14, 0x11],
                message: vec![0x22, 0xf1, 0x90],
            }),
            PayloadType::DiagnosticMessage,
            7,
        ),
        (
            DoipPayload::DiagnosticMessageAck(DiagnosticMessageAck {
                source_address: [0x14, 0x11],
                target_address: [0x0e, 0x80],
                ack_code: DiagnosticAckCode::Acknowledged,
            }),
            PayloadType::DiagnosticMessageAck,
            5,
        ),
        (
            DoipPayload::DiagnosticMessageNack(DiagnosticMessageNack {
                source_address: [0x14, 0x11],
                target_address: [0x0e, 0x80],
                nack_code: DiagnosticNackCode::TargetUnreachable,
            }),
            PayloadType::DiagnosticMessageNack,
            5,
        ),
    ]
}

#[test]
fn payload_length_matches_serialized_body_for_every_variant() {
    for (payload, expected_type, expected_len) in all_payloads() {
        let body = doip_sockets::codec::body_bytes(&payload);
        let header = new_header(ProtocolVersion::Iso13400_2012, &payload);
        assert_eq!(header.payload_type, expected_type);
        assert_eq!(header.payload_length, expected_len);
        assert_eq!(header.payload_length as usize, body.len());
    }
}

#[test]
fn diagnostic_message_length_is_sum_of_field_lengths() {
    let body = vec![0u8; 113];
    let payload = DoipPayload::DiagnosticMessage(DiagnosticMessage {
        source_address: [0x0e, 0x80],
        target_address: [0x14, 0x11],
        message: body,
    });
    let header = new_header(ProtocolVersion::Iso13400_2012, &payload);
    assert_eq!(header.payload_length, 2 + 2 + 113);
}

#[test]
fn inverse_protocol_version_is_bitwise_complement_for_every_version() {
    let versions = [
        (ProtocolVersion::ReservedVer, 0x00u8),
        (ProtocolVersion::Iso13400_2010, 0x01),
        (ProtocolVersion::Iso13400_2012, 0x02),
        (ProtocolVersion::Iso13400_2019, 0x03),
        (ProtocolVersion::Iso13400_2019Amd1, 0x04),
        (ProtocolVersion::DefaultValue, 0xFF),
    ];
    let payload = DoipPayload::AliveCheckRequest(AliveCheckRequest {});
    for (version, byte) in versions {
        let header = new_header(version, &payload);
        assert_eq!(version.to_byte(), byte);
        assert_eq!(header.inverse_protocol_version, !byte);
        assert_eq!(header.protocol_version, version);
    }
}
