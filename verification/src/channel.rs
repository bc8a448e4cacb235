//! The protocol decisions of the send and receive paths.
//!
//! Sending builds a header for the payload after checking the transport's
//! capability set; receiving over a TCP-class channel must answer an
//! inbound diagnostic message with an acknowledgement before the message
//! reaches the caller.  The socket layer performs the I/O and feeds these
//! functions plain messages.

use vstd::prelude::*;

use crate::capability::is_tcp_payload;
use crate::capability::is_udp_payload;
use crate::capability::spec_tcp_payload_type;
use crate::capability::spec_udp_payload_type;
use crate::codes::DiagnosticAckCode;
use crate::error::SocketSendError;
use crate::message::DoipMessage;
use crate::payload::DiagnosticMessageAck;
use crate::payload::DoipPayload;
use crate::payload::PayloadView;
use crate::spec_header_for;
use crate::SocketConfig;

verus! {

/// Decide whether this payload's view fits the wire format; only the
/// diagnostic message can outgrow the header's length field.
pub fn payload_fits(p: &DoipPayload) -> (r: bool)
    ensures
        r == p.wf(),
{
    match p {
        DoipPayload::DiagnosticMessage(d) => d.message.len() <= 0xFFFF_FFFB,
        _ => true,
    }
}

/// Build the message a TCP-class channel sends for `payload`.
///
/// Succeeds exactly on the TCP-legal payload kinds whose body fits the
/// wire format; the message then carries the header owed for the payload
/// under the channel's configured version.
pub fn tcp_send_message(config: &SocketConfig, payload: DoipPayload) -> (r: Result<
    DoipMessage,
    SocketSendError,
>)
    ensures
        !spec_tcp_payload_type(payload.spec_payload_type()) ==> r == Err::<
            DoipMessage,
            SocketSendError,
        >(SocketSendError::InvalidTcpPayload),
        spec_tcp_payload_type(payload.spec_payload_type()) && !payload.wf() ==> r == Err::<
            DoipMessage,
            SocketSendError,
        >(SocketSendError::EncodeError),
        spec_tcp_payload_type(payload.spec_payload_type()) && payload.wf() ==> (r matches Ok(m)
            && m.payload == payload && m.header == spec_header_for(
            config.protocol_version,
            payload,
        ) && m.wf()),
{
    if !is_tcp_payload(&payload) {
        Err(SocketSendError::InvalidTcpPayload)
    } else if !payload_fits(&payload) {
        Err(SocketSendError::EncodeError)
    } else {
        Ok(DoipMessage::new(config.protocol_version, payload))
    }
}

/// Build the message the UDP socket sends for `payload`.
///
/// Succeeds exactly on the UDP-legal payload kinds whose body fits the
/// wire format.
pub fn udp_send_message(config: &SocketConfig, payload: DoipPayload) -> (r: Result<
    DoipMessage,
    SocketSendError,
>)
    ensures
        !spec_udp_payload_type(payload.spec_payload_type()) ==> r == Err::<
            DoipMessage,
            SocketSendError,
        >(SocketSendError::InvalidUdpPayload),
        spec_udp_payload_type(payload.spec_payload_type()) && !payload.wf() ==> r == Err::<
            DoipMessage,
            SocketSendError,
        >(SocketSendError::EncodeError),
        spec_udp_payload_type(payload.spec_payload_type()) && payload.wf() ==> (r matches Ok(m)
            && m.payload == payload && m.header == spec_header_for(
            config.protocol_version,
            payload,
        ) && m.wf()),
{
    if !is_udp_payload(&payload) {
        Err(SocketSendError::InvalidUdpPayload)
    } else if !payload_fits(&payload) {
        Err(SocketSendError::EncodeError)
    } else {
        Ok(DoipMessage::new(config.protocol_version, payload))
    }
}

/// What the read path must do before handing a decoded message to the
/// caller.
#[derive(Debug, Clone, PartialEq, Eq)]
pub enum TcpReadAction {
    /// The message may be returned as it is.
    PassThrough,
    /// This acknowledgement must be transmitted on the same channel first;
    /// if that send fails, the receive itself fails.
    SendAck(DoipMessage),
}

/// The acknowledgement payload owed for a diagnostic-message payload:
/// source and target addresses swapped, code `Acknowledged`.
pub open spec fn spec_ack_payload_for(p: PayloadView) -> PayloadView
    recommends
        p is DiagnosticMessage,
{
    match p {
        PayloadView::DiagnosticMessage { source_address, target_address, .. } => {
            PayloadView::DiagnosticMessageAck {
                source_address: target_address,
                target_address: source_address,
                ack_code: DiagnosticAckCode::Acknowledged,
            }
        },
        _ => p,
    }
}

/// The explicit protocol step a TCP-class `receive` makes after decoding a
/// frame: an inbound diagnostic message obliges the channel to send an
/// acknowledgement, built under the channel's own configuration, before
/// the message is surfaced; every other payload passes through.
pub fn tcp_read_action(config: &SocketConfig, msg: &DoipMessage) -> (r: TcpReadAction)
    ensures
        msg.payload is DiagnosticMessage <==> r is SendAck,
        r matches TcpReadAction::SendAck(ack) ==> {
            &&& ack@.payload == spec_ack_payload_for(msg@.payload)
            &&& ack.header == spec_header_for(config.protocol_version, ack.payload)
            &&& ack.wf()
        },
{
    match &msg.payload {
        DoipPayload::DiagnosticMessage(diag) => {
            let ack_payload = DoipPayload::DiagnosticMessageAck(
                DiagnosticMessageAck {
                    source_address: diag.target_address,
                    target_address: diag.source_address,
                    ack_code: DiagnosticAckCode::Acknowledged,
                },
            );
            TcpReadAction::SendAck(DoipMessage::new(config.protocol_version, ack_payload))
        },
        _ => TcpReadAction::PassThrough,
    }
}

} // verus!
