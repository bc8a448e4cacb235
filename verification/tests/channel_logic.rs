use doip_sockets::channel::tcp_read_action;
use doip_sockets::channel::tcp_send_message;
use doip_sockets::channel::TcpReadAction;
use doip_sockets::codes::ActivationType;
use doip_sockets::codes::DiagnosticAckCode;
use doip_sockets::header::PayloadType;
use doip_sockets::message::DoipMessage;
use doip_sockets::payload::DiagnosticMessage;
use doip_sockets::payload::DoipPayload;
use doip_sockets::payload::RoutingActivationRequest;
use doip_sockets::version::ProtocolVersion;
use doip_sockets::SocketConfig;

#[test]
fn receiving_a_diagnostic_message_owes_an_acknowledgement() {
    let config = SocketConfig::new_tcp();
    let inbound = DoipMessage::new(
        ProtocolVersion::Iso13400_2012,
        DoipPayload::DiagnosticMessage(DiagnosticMessage {
            source_address: [0x0e, 0x80],
            target_address: [0x14, 0x11],
            message: vec![0x22, 0xf1, 0x90],
        }),
    );
    match tcp_read_action(&config, &inbound) {
        TcpReadAction::SendAck(ack) => {
            assert_eq!(ack.header.payload_type, PayloadType::DiagnosticMessageAck);
            assert_eq!(ack.header.payload_length, 5);
            match ack.payload {
                DoipPayload::DiagnosticMessageAck(a) => {
                    assert_eq!(a.source_address, [0x14, 0x11]);
                    assert_eq!(a.target_address, [0x0e, 0x80]);
                    assert_eq!(a.ack_code, DiagnosticAckCode::Acknowledged);
                }
                other => panic!("acknowledgement carries the wrong payload: {:?}", other),
            }
        }
        TcpReadAction::PassThrough => panic!("diagnostic message must trigger an ack"),
    }
}

#[test]
fn other_payloads_pass_through_without_an_acknowledgement() {
    let config = SocketConfig::new_tcp();
    let inbound = DoipMessage::new(
        ProtocolVersion::Iso13400_2012,
        DoipPayload::RoutingActivationRequest(RoutingActivationRequest {
            source_address: [0x0e, 0x80],
            activation_type: ActivationType::Default,
            buffer: [0, 0, 0, 0],
        }),
    );
    assert_eq!(tcp_read_action(&config, &inbound), TcpReadAction::PassThrough);
}

#[test]
fn acknowledgement_uses_the_channel_configuration() {
    let mut config = SocketConfig::new_tcp();
    config.set_protocol_version(ProtocolVersion::Iso13400_2019);
    let inbound = DoipMessage::new(
        ProtocolVersion::Iso13400_2012,
        DoipPayload::DiagnosticMessage(DiagnosticMessage {
            source_address: [1, 2],
            target_address: [3, 4],
            message: vec![],
        }),
    );
    match tcp_read_action(&config, &inbound) {
        TcpReadAction::SendAck(ack) => {
            assert_eq!(ack.header.protocol_version, ProtocolVersion::Iso13400_2019);
            assert_eq!(ack.header.inverse_protocol_version, !0x03u8);
        }
        TcpReadAction::PassThrough => panic!("diagnostic message must trigger an ack"),
    }
}

#[test]
fn default_configuration_uses_the_default_version_byte() {
    let config = SocketConfig::default();
    assert_eq!(config.protocol_version, ProtocolVersion::DefaultValue);
    assert_eq!(SocketConfig::new_tcp().protocol_version, ProtocolVersion::Iso13400_2012);
}

#[test]
fn sent_message_round_trips_through_the_channel_builder() {
    let config = SocketConfig::new_tcp();
    let payload = DoipPayload::DiagnosticMessage(DiagnosticMessage {
        source_address: [0x0e, 0x80],
        target_address: [0x14, 0x11],
        message: vec![0x31, 0x01, 0x02],
    });
    let message = tcp_send_message(&config, payload.clone()).unwrap();
    assert_eq!(message.payload, payload);
    assert_eq!(message.header.payload_length, 7);
}
