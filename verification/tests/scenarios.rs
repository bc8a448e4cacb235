//! End-to-end exchanges over in-memory byte streams: the same frames a
//! socket would carry, kept hermetic so the tests need no network.

use doip_sockets::channel::tcp_read_action;
use doip_sockets::channel::tcp_send_message;
use doip_sockets::channel::udp_send_message;
use doip_sockets::channel::TcpReadAction;
use doip_sockets::codec::decode_frame;
use doip_sockets::codec::encode_message;
use doip_sockets::codes::ActivationCode;
use doip_sockets::codes::ActivationType;
use doip_sockets::header::PayloadType;
use doip_sockets::message::DoipMessage;
use doip_sockets::payload::DiagnosticMessage;
use doip_sockets::payload::DoipPayload;
use doip_sockets::payload::RoutingActivationRequest;
use doip_sockets::payload::RoutingActivationResponse;
use doip_sockets::payload::VehicleIdentificationRequest;
use doip_sockets::SocketConfig;
use tokio::io::AsyncRead;
use tokio::io::AsyncReadExt;
use tokio::io::AsyncWrite;
use tokio::io::AsyncWriteExt;

fn runtime() -> tokio::runtime::Runtime {
    tokio::runtime::Builder::new_current_thread()
        .enable_all()
        .build()
        .unwrap()
}

async fn read_frame<S: AsyncRead + Unpin>(stream: &mut S, buf: &mut Vec<u8>) -> DoipMessage {
    loop {
        match decode_frame(buf).unwrap() {
            Some((message, consumed)) => {
                buf.drain(..consumed);
                return message;
            }
            None => {
                let mut tmp = [0u8; 1024];
                let n = stream.read(&mut tmp).await.unwrap();
                assert!(n > 0, "peer closed before a full frame arrived");
                buf.extend_from_slice(&tmp[..n]);
            }
        }
    }
}

/// The explicit receive step of a TCP channel: decode a frame and, when it
/// is a diagnostic message, transmit the owed acknowledgement before
/// surfacing the message.
async fn receive_with_ack<S: AsyncRead + AsyncWrite + Unpin>(
    stream: &mut S,
    buf: &mut Vec<u8>,
    config: &SocketConfig,
) -> DoipMessage {
    let message = read_frame(stream, buf).await;
    if let TcpReadAction::SendAck(ack) = tcp_read_action(config, &message) {
        stream.write_all(&encode_message(&ack)).await.unwrap();
    }
    message
}

#[test]
fn routing_activation_round_trip_between_client_and_server() {
    runtime().block_on(async {
        let (mut client, mut server) = tokio::io::duplex(4096);
        let config = SocketConfig::new_tcp();

        let request = RoutingActivationRequest {
            source_address: [0x0e, 0x80],
            activation_type: ActivationType::Default,
            buffer: [0, 0, 0, 0],
        };
        let message =
            tcp_send_message(&config, DoipPayload::RoutingActivationRequest(request)).unwrap();
        client.write_all(&encode_message(&message)).await.unwrap();

        let mut server_buf = Vec::new();
        let received = read_frame(&mut server, &mut server_buf).await;
        assert_eq!(received.payload, DoipPayload::RoutingActivationRequest(request));

        let response = RoutingActivationResponse {
            logical_address: [0x0e, 0x80],
            source_address: [0x14, 0x11],
            activation_code: ActivationCode::SuccessfullyActivated,
            buffer: [0, 0, 0, 0],
        };
        let reply =
            tcp_send_message(&config, DoipPayload::RoutingActivationResponse(response)).unwrap();
        server.write_all(&encode_message(&reply)).await.unwrap();

        let mut client_buf = Vec::new();
        let echo = read_frame(&mut client, &mut client_buf).await;
        assert_eq!(echo.payload, DoipPayload::RoutingActivationResponse(response));
    });
}

#[test]
fn receiving_a_diagnostic_message_sends_the_ack_back_to_the_peer() {
    runtime().block_on(async {
        let (mut client, mut server) = tokio::io::duplex(4096);
        let config = SocketConfig::new_tcp();

        let diagnostic = DiagnosticMessage {
            source_address: [0x0e, 0x80],
            target_address: [0x14, 0x11],
            message: vec![0x22, 0xf1, 0x90],
        };
        let outbound =
            tcp_send_message(&config, DoipPayload::DiagnosticMessage(diagnostic.clone())).unwrap();
        server.write_all(&encode_message(&outbound)).await.unwrap();

        let mut client_buf = Vec::new();
        let received = receive_with_ack(&mut client, &mut client_buf, &config).await;
        assert_eq!(received.payload, DoipPayload::DiagnosticMessage(diagnostic));

        let mut server_buf = Vec::new();
        let ack = read_frame(&mut server, &mut server_buf).await;
        assert_eq!(ack.header.payload_type, PayloadType::DiagnosticMessageAck);
        match ack.payload {
            DoipPayload::DiagnosticMessageAck(a) => {
                assert_eq!(a.source_address, [0x14, 0x11]);
                assert_eq!(a.target_address, [0x0e, 0x80]);
            }
            other => panic!("expected a diagnostic ack, got {:?}", other),
        }
    });
}

#[test]
fn split_halves_produce_the_same_bytes_as_the_unsplit_channel() {
    runtime().block_on(async {
        let config = SocketConfig::new_tcp();
        let payload = DoipPayload::DiagnosticMessage(DiagnosticMessage {
            source_address: [0x0e, 0x80],
            target_address: [0x14, 0x11],
            message: vec![0x19, 0x02, 0x0b],
        });
        let frame_len = {
            let message = tcp_send_message(&config, payload.clone()).unwrap();
            encode_message(&message).len()
        };

        let (mut unsplit, mut peer_a) = tokio::io::duplex(4096);
        let message = tcp_send_message(&config, payload.clone()).unwrap();
        unsplit.write_all(&encode_message(&message)).await.unwrap();
        let mut bytes_a = vec![0u8; frame_len];
        peer_a.read_exact(&mut bytes_a).await.unwrap();

        let (split, mut peer_b) = tokio::io::duplex(4096);
        // Splitting copies the configuration by value into each half, so
        // the write half frames exactly as the whole channel does.
        let half_config = config;
        let (_read_half, mut write_half) = tokio::io::split(split);
        let message = tcp_send_message(&half_config, payload.clone()).unwrap();
        write_half.write_all(&encode_message(&message)).await.unwrap();
        let mut bytes_b = vec![0u8; frame_len];
        peer_b.read_exact(&mut bytes_b).await.unwrap();

        assert_eq!(bytes_a, bytes_b);
    });
}

#[test]
fn udp_round_trip_preserves_payload_and_reports_the_sender() {
    // Datagram transports pair each message with its sender; an
    // in-memory queue models the exchange, keeping the test hermetic.
    let (tx, rx) = std::sync::mpsc::channel::<(Vec<u8>, String)>();
    let sender_label = String::from("peer-one");

    let config = SocketConfig::default();
    let payload = DoipPayload::VehicleIdentificationRequest(VehicleIdentificationRequest {});
    let message = udp_send_message(&config, payload.clone()).unwrap();
    tx.send((encode_message(&message), sender_label.clone())).unwrap();

    let (datagram, from) = rx.recv().unwrap();
    assert_eq!(from, sender_label);

    let (received, consumed) = decode_frame(&datagram).unwrap().unwrap();
    assert_eq!(consumed, datagram.len());
    assert_eq!(received.payload, payload);
    assert_eq!(
        received.header.payload_type,
        PayloadType::VehicleIdentificationRequest
    );
    assert_eq!(received.header.payload_length, 0);
}
