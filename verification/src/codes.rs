//! The closed code sets carried inside DoIP payload bodies, each with its
//! single wire byte.  Reserved codes are carried like any other, so a
//! frame holding one survives the round trip unchanged.

use vstd::prelude::*;

verus! {

/// Negative acknowledgement codes of a generic NACK payload.
#[derive(Debug, Clone, Copy, PartialEq, Eq, Structural)]
pub enum NackCode {
    /// The received header did not follow the frame pattern.
    IncorrectPatternFormat,
    /// The payload type tag was not recognized.
    UnknownPayloadType,
    /// The announced payload does not fit the receiver's buffers.
    MessageTooLarge,
    /// The receiver ran out of memory while handling the frame.
    OutOfMemory,
    /// The length field contradicts the payload type.
    InvalidPayloadLength,
}

impl NackCode {
    /// The wire byte of this NACK code.
    pub open spec fn spec_byte(self) -> u8 {
        match self {
            NackCode::IncorrectPatternFormat => 0x00,
            NackCode::UnknownPayloadType => 0x01,
            NackCode::MessageTooLarge => 0x02,
            NackCode::OutOfMemory => 0x03,
            NackCode::InvalidPayloadLength => 0x04,
        }
    }

    /// The NACK code a wire byte denotes, if any.
    pub open spec fn spec_from_byte(b: u8) -> Option<NackCode> {
        if b == 0x00 {
            Some(NackCode::IncorrectPatternFormat)
        } else if b == 0x01 {
            Some(NackCode::UnknownPayloadType)
        } else if b == 0x02 {
            Some(NackCode::MessageTooLarge)
        } else if b == 0x03 {
            Some(NackCode::OutOfMemory)
        } else if b == 0x04 {
            Some(NackCode::InvalidPayloadLength)
        } else {
            None
        }
    }

    /// Emit the wire byte of this NACK code.
    pub fn to_byte(self) -> (r: u8)
        ensures
            r == self.spec_byte(),
    {
        match self {
            NackCode::IncorrectPatternFormat => 0x00,
            NackCode::UnknownPayloadType => 0x01,
            NackCode::MessageTooLarge => 0x02,
            NackCode::OutOfMemory => 0x03,
            NackCode::InvalidPayloadLength => 0x04,
        }
    }

    /// Recognize a wire byte as a NACK code.
    pub fn from_byte(b: u8) -> (r: Option<NackCode>)
        ensures
            r == NackCode::spec_from_byte(b),
    {
        match b {
            0x00 => Some(NackCode::IncorrectPatternFormat),
            0x01 => Some(NackCode::UnknownPayloadType),
            0x02 => Some(NackCode::MessageTooLarge),
            0x03 => Some(NackCode::OutOfMemory),
            0x04 => Some(NackCode::InvalidPayloadLength),
            _ => None,
        }
    }
}

/// Routing-activation request kinds.
#[derive(Debug, Clone, Copy, PartialEq, Eq, Structural)]
pub enum ActivationType {
    /// Default activation.
    Default,
    /// WWH-OBD activation.
    WwhObd,
    /// Central-security activation.
    CentralSecurity,
}

impl ActivationType {
    /// The wire byte of this activation type.
    pub open spec fn spec_byte(self) -> u8 {
        match self {
            ActivationType::Default => 0x00,
            ActivationType::WwhObd => 0x01,
            ActivationType::CentralSecurity => 0x02,
        }
    }

    /// The activation type a wire byte denotes, if any.
    pub open spec fn spec_from_byte(b: u8) -> Option<ActivationType> {
        if b == 0x00 {
            Some(ActivationType::Default)
        } else if b == 0x01 {
            Some(ActivationType::WwhObd)
        } else if b == 0x02 {
            Some(ActivationType::CentralSecurity)
        } else {
            None
        }
    }

    /// Emit the wire byte of this activation type.
    pub fn to_byte(self) -> (r: u8)
        ensures
            r == self.spec_byte(),
    {
        match self {
            ActivationType::Default => 0x00,
            ActivationType::WwhObd => 0x01,
            ActivationType::CentralSecurity => 0x02,
        }
    }

    /// Recognize a wire byte as an activation type.
    pub fn from_byte(b: u8) -> (r: Option<ActivationType>)
        ensures
            r == ActivationType::spec_from_byte(b),
    {
        match b {
            0x00 => Some(ActivationType::Default),
            0x01 => Some(ActivationType::WwhObd),
            0x02 => Some(ActivationType::CentralSecurity),
            _ => None,
        }
    }
}

/// Routing-activation response codes.
#[derive(Debug, Clone, Copy, PartialEq, Eq, Structural)]
pub enum ActivationCode {
    /// Denied: the source address is unknown.
    DeniedUnknownSourceAddress,
    /// Denied: all TCP sockets are in use.
    DeniedTCPSocketsFull,
    /// Denied: a socket for this source is already connected.
    DeniedTCPSocketAlreadyConnected,
    /// Denied: the source is already active on another socket.
    DeniedSourceIsAlreadyActive,
    /// Denied: authentication is missing.
    DeniedMissingAuthentication,
    /// Denied: confirmation was rejected.
    DeniedRejectedConfirmation,
    /// Denied: the requested activation type is unsupported.
    DeniedUnsupportedRoutingActivationType,
    /// Denied: an encrypted TLS connection is required.
    DeniedRequestEncryptedTLSConnection,
    /// Reserved by ISO 13400.
    ReservedByIso13400_08,
    /// Reserved by ISO 13400.
    ReservedByIso13400_09,
    /// Reserved by ISO 13400.
    ReservedByIso13400_0A,
    /// Reserved by ISO 13400.
    ReservedByIso13400_0B,
    /// Reserved by ISO 13400.
    ReservedByIso13400_0C,
    /// Reserved by ISO 13400.
    ReservedByIso13400_0D,
    /// Reserved by ISO 13400.
    ReservedByIso13400_0E,
    /// Reserved by ISO 13400.
    ReservedByIso13400_0F,
    /// Routing was successfully activated.
    SuccessfullyActivated,
    /// Activated, but confirmation is still required.
    ActivatedConfirmationRequired,
}

impl ActivationCode {
    /// The wire byte of this activation code.
    pub open spec fn spec_byte(self) -> u8 {
        match self {
            ActivationCode::DeniedUnknownSourceAddress => 0x00,
            ActivationCode::DeniedTCPSocketsFull => 0x01,
            ActivationCode::DeniedTCPSocketAlreadyConnected => 0x02,
            ActivationCode::DeniedSourceIsAlreadyActive => 0x03,
            ActivationCode::DeniedMissingAuthentication => 0x04,
            ActivationCode::DeniedRejectedConfirmation => 0x05,
            ActivationCode::DeniedUnsupportedRoutingActivationType => 0x06,
            ActivationCode::DeniedRequestEncryptedTLSConnection => 0x07,
            ActivationCode::ReservedByIso13400_08 => 0x08,
            ActivationCode::ReservedByIso13400_09 => 0x09,
            ActivationCode::ReservedByIso13400_0A => 0x0A,
            ActivationCode::ReservedByIso13400_0B => 0x0B,
            ActivationCode::ReservedByIso13400_0C => 0x0C,
            ActivationCode::ReservedByIso13400_0D => 0x0D,
            ActivationCode::ReservedByIso13400_0E => 0x0E,
            ActivationCode::ReservedByIso13400_0F => 0x0F,
            ActivationCode::SuccessfullyActivated => 0x10,
            ActivationCode::ActivatedConfirmationRequired => 0x11,
        }
    }

    /// The activation code a wire byte denotes, if any.
    pub open spec fn spec_from_byte(b: u8) -> Option<ActivationCode> {
        if b == 0x00 {
            Some(ActivationCode::DeniedUnknownSourceAddress)
        } else if b == 0x01 {
            Some(ActivationCode::DeniedTCPSocketsFull)
        } else if b == 0x02 {
            Some(ActivationCode::DeniedTCPSocketAlreadyConnected)
        } else if b == 0x03 {
            Some(ActivationCode::DeniedSourceIsAlreadyActive)
        } else if b == 0x04 {
            Some(ActivationCode::DeniedMissingAuthentication)
        } else if b == 0x05 {
            Some(ActivationCode::DeniedRejectedConfirmation)
        } else if b == 0x06 {
            Some(ActivationCode::DeniedUnsupportedRoutingActivationType)
        } else if b == 0x07 {
            Some(ActivationCode::DeniedRequestEncryptedTLSConnection)
        } else if b == 0x08 {
            Some(ActivationCode::ReservedByIso13400_08)
        } else if b == 0x09 {
            Some(ActivationCode::ReservedByIso13400_09)
        } else if b == 0x0A {
            Some(ActivationCode::ReservedByIso13400_0A)
        } else if b == 0x0B {
            Some(ActivationCode::ReservedByIso13400_0B)
        } else if b == 0x0C {
            Some(ActivationCode::ReservedByIso13400_0C)
        } else if b == 0x0D {
            Some(ActivationCode::ReservedByIso13400_0D)
        } else if b == 0x0E {
            Some(ActivationCode::ReservedByIso13400_0E)
        } else if b == 0x0F {
            Some(ActivationCode::ReservedByIso13400_0F)
        } else if b == 0x10 {
            Some(ActivationCode::SuccessfullyActivated)
        } else if b == 0x11 {
            Some(ActivationCode::ActivatedConfirmationRequired)
        } else {
            None
        }
    }

    /// Emit the wire byte of this activation code.
    pub fn to_byte(self) -> (r: u8)
        ensures
            r == self.spec_byte(),
    {
        match self {
            ActivationCode::DeniedUnknownSourceAddress => 0x00,
            ActivationCode::DeniedTCPSocketsFull => 0x01,
            ActivationCode::DeniedTCPSocketAlreadyConnected => 0x02,
            ActivationCode::DeniedSourceIsAlreadyActive => 0x03,
            ActivationCode::DeniedMissingAuthentication => 0x04,
            ActivationCode::DeniedRejectedConfirmation => 0x05,
            ActivationCode::DeniedUnsupportedRoutingActivationType => 0x06,
            ActivationCode::DeniedRequestEncryptedTLSConnection => 0x07,
            ActivationCode::ReservedByIso13400_08 => 0x08,
            ActivationCode::ReservedByIso13400_09 => 0x09,
            ActivationCode::ReservedByIso13400_0A => 0x0A,
            ActivationCode::ReservedByIso13400_0B => 0x0B,
            ActivationCode::ReservedByIso13400_0C => 0x0C,
            ActivationCode::ReservedByIso13400_0D => 0x0D,
            ActivationCode::ReservedByIso13400_0E => 0x0E,
            ActivationCode::ReservedByIso13400_0F => 0x0F,
            ActivationCode::SuccessfullyActivated => 0x10,
            ActivationCode::ActivatedConfirmationRequired => 0x11,
        }
    }

    /// Recognize a wire byte as an activation code.
    pub fn from_byte(b: u8) -> (r: Option<ActivationCode>)
        ensures
            r == ActivationCode::spec_from_byte(b),
    {
        match b {
            0x00 => Some(ActivationCode::DeniedUnknownSourceAddress),
            0x01 => Some(ActivationCode::DeniedTCPSocketsFull),
            0x02 => Some(ActivationCode::DeniedTCPSocketAlreadyConnected),
            0x03 => Some(ActivationCode::DeniedSourceIsAlreadyActive),
            0x04 => Some(ActivationCode::DeniedMissingAuthentication),
            0x05 => Some(ActivationCode::DeniedRejectedConfirmation),
            0x06 => Some(ActivationCode::DeniedUnsupportedRoutingActivationType),
            0x07 => Some(ActivationCode::DeniedRequestEncryptedTLSConnection),
            0x08 => Some(ActivationCode::ReservedByIso13400_08),
            0x09 => Some(ActivationCode::ReservedByIso13400_09),
            0x0A => Some(ActivationCode::ReservedByIso13400_0A),
            0x0B => Some(ActivationCode::ReservedByIso13400_0B),
            0x0C => Some(ActivationCode::ReservedByIso13400_0C),
            0x0D => Some(ActivationCode::ReservedByIso13400_0D),
            0x0E => Some(ActivationCode::ReservedByIso13400_0E),
            0x0F => Some(ActivationCode::ReservedByIso13400_0F),
            0x10 => Some(ActivationCode::SuccessfullyActivated),
            0x11 => Some(ActivationCode::ActivatedConfirmationRequired),
            _ => None,
        }
    }
}

/// Positive acknowledgement codes of a diagnostic-message ACK.
#[derive(Debug, Clone, Copy, PartialEq, Eq, Structural)]
pub enum DiagnosticAckCode {
    /// The diagnostic message was acknowledged.
    Acknowledged,
}

impl DiagnosticAckCode {
    /// The wire byte of this acknowledgement code.
    pub open spec fn spec_byte(self) -> u8 {
        match self {
            DiagnosticAckCode::Acknowledged => 0x00,
        }
    }

    /// The acknowledgement code a wire byte denotes, if any.
    pub open spec fn spec_from_byte(b: u8) -> Option<DiagnosticAckCode> {
        if b == 0x00 {
            Some(DiagnosticAckCode::Acknowledged)
        } else {
            None
        }
    }

    /// Emit the wire byte of this acknowledgement code.
    pub fn to_byte(self) -> (r: u8)
        ensures
            r == self.spec_byte(),
    {
        match self {
            DiagnosticAckCode::Acknowledged => 0x00,
        }
    }

    /// Recognize a wire byte as an acknowledgement code.
    pub fn from_byte(b: u8) -> (r: Option<DiagnosticAckCode>)
        ensures
            r == DiagnosticAckCode::spec_from_byte(b),
    {
        match b {
            0x00 => Some(DiagnosticAckCode::Acknowledged),
            _ => None,
        }
    }
}

/// Negative acknowledgement codes of a diagnostic-message NACK.
#[derive(Debug, Clone, Copy, PartialEq, Eq, Structural)]
pub enum DiagnosticNackCode {
    /// Reserved by ISO 13400.
    ReservedByIso13400_00,
    /// Reserved by ISO 13400.
    ReservedByIso13400_01,
    /// The source address was invalid.
    InvalidSourceAddress,
    /// The target address is unknown.
    UnknownTargetAddress,
    /// The diagnostic message exceeds the permitted size.
    DiagnosticMessageTooLarge,
    /// The receiver ran out of memory.
    OutOfMemory,
    /// The target is unreachable.
    TargetUnreachable,
    /// The network is unknown.
    UnknownNetwork,
    /// A transport-protocol error occurred.
    TransportProtocolError,
}

impl DiagnosticNackCode {
    /// The wire byte of this negative acknowledgement code.
    pub open spec fn spec_byte(self) -> u8 {
        match self {
            DiagnosticNackCode::ReservedByIso13400_00 => 0x00,
            DiagnosticNackCode::ReservedByIso13400_01 => 0x01,
            DiagnosticNackCode::InvalidSourceAddress => 0x02,
            DiagnosticNackCode::UnknownTargetAddress => 0x03,
            DiagnosticNackCode::DiagnosticMessageTooLarge => 0x04,
            DiagnosticNackCode::OutOfMemory => 0x05,
            DiagnosticNackCode::TargetUnreachable => 0x06,
            DiagnosticNackCode::UnknownNetwork => 0x07,
            DiagnosticNackCode::TransportProtocolError => 0x08,
        }
    }

    /// The negative acknowledgement code a wire byte denotes, if any.
    pub open spec fn spec_from_byte(b: u8) -> Option<DiagnosticNackCode> {
        if b == 0x00 {
            Some(DiagnosticNackCode::ReservedByIso13400_00)
        } else if b == 0x01 {
            Some(DiagnosticNackCode::ReservedByIso13400_01)
        } else if b == 0x02 {
            Some(DiagnosticNackCode::InvalidSourceAddress)
        } else if b == 0x03 {
            Some(DiagnosticNackCode::UnknownTargetAddress)
        } else if b == 0x04 {
            Some(DiagnosticNackCode::DiagnosticMessageTooLarge)
        } else if b == 0x05 {
            Some(DiagnosticNackCode::OutOfMemory)
        } else if b == 0x06 {
            Some(DiagnosticNackCode::TargetUnreachable)
        } else if b == 0x07 {
            Some(DiagnosticNackCode::UnknownNetwork)
        } else if b == 0x08 {
            Some(DiagnosticNackCode::TransportProtocolError)
        } else {
            None
        }
    }

    /// Emit the wire byte of this negative acknowledgement code.
    pub fn to_byte(self) -> (r: u8)
        ensures
            r == self.spec_byte(),
    {
        match self {
            DiagnosticNackCode::ReservedByIso13400_00 => 0x00,
            DiagnosticNackCode::ReservedByIso13400_01 => 0x01,
            DiagnosticNackCode::InvalidSourceAddress => 0x02,
            DiagnosticNackCode::UnknownTargetAddress => 0x03,
            DiagnosticNackCode::DiagnosticMessageTooLarge => 0x04,
            DiagnosticNackCode::OutOfMemory => 0x05,
            DiagnosticNackCode::TargetUnreachable => 0x06,
            DiagnosticNackCode::UnknownNetwork => 0x07,
            DiagnosticNackCode::TransportProtocolError => 0x08,
        }
    }

    /// Recognize a wire byte as a negative acknowledgement code.
    pub fn from_byte(b: u8) -> (r: Option<DiagnosticNackCode>)
        ensures
            r == DiagnosticNackCode::spec_from_byte(b),
    {
        match b {
            0x00 => Some(DiagnosticNackCode::ReservedByIso13400_00),
            0x01 => Some(DiagnosticNackCode::ReservedByIso13400_01),
            0x02 => Some(DiagnosticNackCode::InvalidSourceAddress),
            0x03 => Some(DiagnosticNackCode::UnknownTargetAddress),
            0x04 => Some(DiagnosticNackCode::DiagnosticMessageTooLarge),
            0x05 => Some(DiagnosticNackCode::OutOfMemory),
            0x06 => Some(DiagnosticNackCode::TargetUnreachable),
            0x07 => Some(DiagnosticNackCode::UnknownNetwork),
            0x08 => Some(DiagnosticNackCode::TransportProtocolError),
            _ => None,
        }
    }
}

/// Further-action codes of a vehicle announcement.
#[derive(Debug, Clone, Copy, PartialEq, Eq, Structural)]
pub enum ActionCode {
    /// No further action is required.
    NoFurtherActionRequired,
    /// Reserved by ISO 13400.
    ReservedByIso13400_01,
    /// Reserved by ISO 13400.
    ReservedByIso13400_02,
    /// Reserved by ISO 13400.
    ReservedByIso13400_03,
    /// Reserved by ISO 13400.
    ReservedByIso13400_04,
    /// Reserved by ISO 13400.
    ReservedByIso13400_05,
    /// Reserved by ISO 13400.
    ReservedByIso13400_06,
    /// Reserved by ISO 13400.
    ReservedByIso13400_07,
    /// Reserved by ISO 13400.
    ReservedByIso13400_08,
    /// Reserved by ISO 13400.
    ReservedByIso13400_09,
    /// Reserved by ISO 13400.
    ReservedByIso13400_0A,
    /// Reserved by ISO 13400.
    ReservedByIso13400_0B,
    /// Reserved by ISO 13400.
    ReservedByIso13400_0C,
    /// Reserved by ISO 13400.
    ReservedByIso13400_0D,
    /// Reserved by ISO 13400.
    ReservedByIso13400_0E,
    /// Reserved by ISO 13400.
    ReservedByIso13400_0F,
    /// The announcing entity requires routing activation.
    RoutingActivationRequired,
}

impl ActionCode {
    /// The wire byte of this action code.
    pub open spec fn spec_byte(self) -> u8 {
        match self {
            ActionCode::NoFurtherActionRequired => 0x00,
            ActionCode::ReservedByIso13400_01 => 0x01,
            ActionCode::ReservedByIso13400_02 => 0x02,
            ActionCode::ReservedByIso13400_03 => 0x03,
            ActionCode::ReservedByIso13400_04 => 0x04,
            ActionCode::ReservedByIso13400_05 => 0x05,
            ActionCode::ReservedByIso13400_06 => 0x06,
            ActionCode::ReservedByIso13400_07 => 0x07,
            ActionCode::ReservedByIso13400_08 => 0x08,
            ActionCode::ReservedByIso13400_09 => 0x09,
            ActionCode::ReservedByIso13400_0A => 0x0A,
            ActionCode::ReservedByIso13400_0B => 0x0B,
            ActionCode::ReservedByIso13400_0C => 0x0C,
            ActionCode::ReservedByIso13400_0D => 0x0D,
            ActionCode::ReservedByIso13400_0E => 0x0E,
            ActionCode::ReservedByIso13400_0F => 0x0F,
            ActionCode::RoutingActivationRequired => 0x10,
        }
    }

    /// The action code a wire byte denotes, if any.
    pub open spec fn spec_from_byte(b: u8) -> Option<ActionCode> {
        if b == 0x00 {
            Some(ActionCode::NoFurtherActionRequired)
        } else if b == 0x01 {
            Some(ActionCode::ReservedByIso13400_01)
        } else if b == 0x02 {
            Some(ActionCode::ReservedByIso13400_02)
        } else if b == 0x03 {
            Some(ActionCode::ReservedByIso13400_03)
        } else if b == 0x04 {
            Some(ActionCode::ReservedByIso13400_04)
        } else if b == 0x05 {
            Some(ActionCode::ReservedByIso13400_05)
        } else if b == 0x06 {
            Some(ActionCode::ReservedByIso13400_06)
        } else if b == 0x07 {
            Some(ActionCode::ReservedByIso13400_07)
        } else if b == 0x08 {
            Some(ActionCode::ReservedByIso13400_08)
        } else if b == 0x09 {
            Some(ActionCode::ReservedByIso13400_09)
        } else if b == 0x0A {
            Some(ActionCode::ReservedByIso13400_0A)
        } else if b == 0x0B {
            Some(ActionCode::ReservedByIso13400_0B)
        } else if b == 0x0C {
            Some(ActionCode::ReservedByIso13400_0C)
        } else if b == 0x0D {
            Some(ActionCode::ReservedByIso13400_0D)
        } else if b == 0x0E {
            Some(ActionCode::ReservedByIso13400_0E)
        } else if b == 0x0F {
            Some(ActionCode::ReservedByIso13400_0F)
        } else if b == 0x10 {
            Some(ActionCode::RoutingActivationRequired)
        } else {
            None
        }
    }

    /// Emit the wire byte of this action code.
    pub fn to_byte(self) -> (r: u8)
        ensures
            r == self.spec_byte(),
    {
        match self {
            ActionCode::NoFurtherActionRequired => 0x00,
            ActionCode::ReservedByIso13400_01 => 0x01,
            ActionCode::ReservedByIso13400_02 => 0x02,
            ActionCode::ReservedByIso13400_03 => 0x03,
            ActionCode::ReservedByIso13400_04 => 0x04,
            ActionCode::ReservedByIso13400_05 => 0x05,
            ActionCode::ReservedByIso13400_06 => 0x06,
            ActionCode::ReservedByIso13400_07 => 0x07,
            ActionCode::ReservedByIso13400_08 => 0x08,
            ActionCode::ReservedByIso13400_09 => 0x09,
            ActionCode::ReservedByIso13400_0A => 0x0A,
            ActionCode::ReservedByIso13400_0B => 0x0B,
            ActionCode::ReservedByIso13400_0C => 0x0C,
            ActionCode::ReservedByIso13400_0D => 0x0D,
            ActionCode::ReservedByIso13400_0E => 0x0E,
            ActionCode::ReservedByIso13400_0F => 0x0F,
            ActionCode::RoutingActivationRequired => 0x10,
        }
    }

    /// Recognize a wire byte as an action code.
    pub fn from_byte(b: u8) -> (r: Option<ActionCode>)
        ensures
            r == ActionCode::spec_from_byte(b),
    {
        match b {
            0x00 => Some(ActionCode::NoFurtherActionRequired),
            0x01 => Some(ActionCode::ReservedByIso13400_01),
            0x02 => Some(ActionCode::ReservedByIso13400_02),
            0x03 => Some(ActionCode::ReservedByIso13400_03),
            0x04 => Some(ActionCode::ReservedByIso13400_04),
            0x05 => Some(ActionCode::ReservedByIso13400_05),
            0x06 => Some(ActionCode::ReservedByIso13400_06),
            0x07 => Some(ActionCode::ReservedByIso13400_07),
            0x08 => Some(ActionCode::ReservedByIso13400_08),
            0x09 => Some(ActionCode::ReservedByIso13400_09),
            0x0A => Some(ActionCode::ReservedByIso13400_0A),
            0x0B => Some(ActionCode::ReservedByIso13400_0B),
            0x0C => Some(ActionCode::ReservedByIso13400_0C),
            0x0D => Some(ActionCode::ReservedByIso13400_0D),
            0x0E => Some(ActionCode::ReservedByIso13400_0E),
            0x0F => Some(ActionCode::ReservedByIso13400_0F),
            0x10 => Some(ActionCode::RoutingActivationRequired),
            _ => None,
        }
    }
}

/// VIN/GID synchronisation states of a vehicle announcement.
#[derive(Debug, Clone, Copy, PartialEq, Eq, Structural)]
pub enum SyncStatus {
    /// VIN and GID are synchronized.
    VinGidSynchronized,
    /// Reserved by ISO 13400.
    ReservedByIso13400_01,
    /// Reserved by ISO 13400.
    ReservedByIso13400_02,
    /// Reserved by ISO 13400.
    ReservedByIso13400_03,
    /// Reserved by ISO 13400.
    ReservedByIso13400_04,
    /// Reserved by ISO 13400.
    ReservedByIso13400_05,
    /// Reserved by ISO 13400.
    ReservedByIso13400_06,
    /// Reserved by ISO 13400.
    ReservedByIso13400_07,
    /// Reserved by ISO 13400.
    ReservedByIso13400_08,
    /// Reserved by ISO 13400.
    ReservedByIso13400_09,
    /// Reserved by ISO 13400.
    ReservedByIso13400_0A,
    /// Reserved by ISO 13400.
    ReservedByIso13400_0B,
    /// Reserved by ISO 13400.
    ReservedByIso13400_0C,
    /// Reserved by ISO 13400.
    ReservedByIso13400_0D,
    /// Reserved by ISO 13400.
    ReservedByIso13400_0E,
    /// Reserved by ISO 13400.
    ReservedByIso13400_0F,
    /// VIN and GID are not synchronized.
    VinGidNotSynchronised,
}

impl SyncStatus {
    /// The wire byte of this synchronisation state.
    pub open spec fn spec_byte(self) -> u8 {
        match self {
            SyncStatus::VinGidSynchronized => 0x00,
            SyncStatus::ReservedByIso13400_01 => 0x01,
            SyncStatus::ReservedByIso13400_02 => 0x02,
            SyncStatus::ReservedByIso13400_03 => 0x03,
            SyncStatus::ReservedByIso13400_04 => 0x04,
            SyncStatus::ReservedByIso13400_05 => 0x05,
            SyncStatus::ReservedByIso13400_06 => 0x06,
            SyncStatus::ReservedByIso13400_07 => 0x07,
            SyncStatus::ReservedByIso13400_08 => 0x08,
            SyncStatus::ReservedByIso13400_09 => 0x09,
            SyncStatus::ReservedByIso13400_0A => 0x0A,
            SyncStatus::ReservedByIso13400_0B => 0x0B,
            SyncStatus::ReservedByIso13400_0C => 0x0C,
            SyncStatus::ReservedByIso13400_0D => 0x0D,
            SyncStatus::ReservedByIso13400_0E => 0x0E,
            SyncStatus::ReservedByIso13400_0F => 0x0F,
            SyncStatus::VinGidNotSynchronised => 0x10,
        }
    }

    /// The synchronisation state a wire byte denotes, if any.
    pub open spec fn spec_from_byte(b: u8) -> Option<SyncStatus> {
        if b == 0x00 {
            Some(SyncStatus::VinGidSynchronized)
        } else if b == 0x01 {
            Some(SyncStatus::ReservedByIso13400_01)
        } else if b == 0x02 {
            Some(SyncStatus::ReservedByIso13400_02)
        } else if b == 0x03 {
            Some(SyncStatus::ReservedByIso13400_03)
        } else if b == 0x04 {
            Some(SyncStatus::ReservedByIso13400_04)
        } else if b == 0x05 {
            Some(SyncStatus::ReservedByIso13400_05)
        } else if b == 0x06 {
            Some(SyncStatus::ReservedByIso13400_06)
        } else if b == 0x07 {
            Some(SyncStatus::ReservedByIso13400_07)
        } else if b == 0x08 {
            Some(SyncStatus::ReservedByIso13400_08)
        } else if b == 0x09 {
            Some(SyncStatus::ReservedByIso13400_09)
        } else if b == 0x0A {
            Some(SyncStatus::ReservedByIso13400_0A)
        } else if b == 0x0B {
            Some(SyncStatus::ReservedByIso13400_0B)
        } else if b == 0x0C {
            Some(SyncStatus::ReservedByIso13400_0C)
        } else if b == 0x0D {
            Some(SyncStatus::ReservedByIso13400_0D)
        } else if b == 0x0E {
            Some(SyncStatus::ReservedByIso13400_0E)
        } else if b == 0x0F {
            Some(SyncStatus::ReservedByIso13400_0F)
        } else if b == 0x10 {
            Some(SyncStatus::VinGidNotSynchronised)
        } else {
            None
        }
    }

    /// Emit the wire byte of this synchronisation state.
    pub fn to_byte(self) -> (r: u8)
        ensures
            r == self.spec_byte(),
    {
        match self {
            SyncStatus::VinGidSynchronized => 0x00,
            SyncStatus::ReservedByIso13400_01 => 0x01,
            SyncStatus::ReservedByIso13400_02 => 0x02,
            SyncStatus::ReservedByIso13400_03 => 0x03,
            SyncStatus::ReservedByIso13400_04 => 0x04,
            SyncStatus::ReservedByIso13400_05 => 0x05,
            SyncStatus::ReservedByIso13400_06 => 0x06,
            SyncStatus::ReservedByIso13400_07 => 0x07,
            SyncStatus::ReservedByIso13400_08 => 0x08,
            SyncStatus::ReservedByIso13400_09 => 0x09,
            SyncStatus::ReservedByIso13400_0A => 0x0A,
            SyncStatus::ReservedByIso13400_0B => 0x0B,
            SyncStatus::ReservedByIso13400_0C => 0x0C,
            SyncStatus::ReservedByIso13400_0D => 0x0D,
            SyncStatus::ReservedByIso13400_0E => 0x0E,
            SyncStatus::ReservedByIso13400_0F => 0x0F,
            SyncStatus::VinGidNotSynchronised => 0x10,
        }
    }

    /// Recognize a wire byte as a synchronisation state.
    pub fn from_byte(b: u8) -> (r: Option<SyncStatus>)
        ensures
            r == SyncStatus::spec_from_byte(b),
    {
        match b {
            0x00 => Some(SyncStatus::VinGidSynchronized),
            0x01 => Some(SyncStatus::ReservedByIso13400_01),
            0x02 => Some(SyncStatus::ReservedByIso13400_02),
            0x03 => Some(SyncStatus::ReservedByIso13400_03),
            0x04 => Some(SyncStatus::ReservedByIso13400_04),
            0x05 => Some(SyncStatus::ReservedByIso13400_05),
            0x06 => Some(SyncStatus::ReservedByIso13400_06),
            0x07 => Some(SyncStatus::ReservedByIso13400_07),
            0x08 => Some(SyncStatus::ReservedByIso13400_08),
            0x09 => Some(SyncStatus::ReservedByIso13400_09),
            0x0A => Some(SyncStatus::ReservedByIso13400_0A),
            0x0B => Some(SyncStatus::ReservedByIso13400_0B),
            0x0C => Some(SyncStatus::ReservedByIso13400_0C),
            0x0D => Some(SyncStatus::ReservedByIso13400_0D),
            0x0E => Some(SyncStatus::ReservedByIso13400_0E),
            0x0F => Some(SyncStatus::ReservedByIso13400_0F),
            0x10 => Some(SyncStatus::VinGidNotSynchronised),
            _ => None,
        }
    }
}

/// Kinds of DoIP entity reported in an entity-status response.
#[derive(Debug, Clone, Copy, PartialEq, Eq, Structural)]
pub enum NodeType {
    /// The entity is a DoIP gateway.
    DoipGateway,
    /// The entity is a DoIP node.
    DoipNode,
}

impl NodeType {
    /// The wire byte of this node type.
    pub open spec fn spec_byte(self) -> u8 {
        match self {
            NodeType::DoipGateway => 0x00,
            NodeType::DoipNode => 0x01,
        }
    }

    /// The node type a wire byte denotes, if any.
    pub open spec fn spec_from_byte(b: u8) -> Option<NodeType> {
        if b == 0x00 {
            Some(NodeType::DoipGateway)
        } else if b == 0x01 {
            Some(NodeType::DoipNode)
        } else {
            None
        }
    }

    /// Emit the wire byte of this node type.
    pub fn to_byte(self) -> (r: u8)
        ensures
            r == self.spec_byte(),
    {
        match self {
            NodeType::DoipGateway => 0x00,
            NodeType::DoipNode => 0x01,
        }
    }

    /// Recognize a wire byte as a node type.
    pub fn from_byte(b: u8) -> (r: Option<NodeType>)
        ensures
            r == NodeType::spec_from_byte(b),
    {
        match b {
            0x00 => Some(NodeType::DoipGateway),
            0x01 => Some(NodeType::DoipNode),
            _ => None,
        }
    }
}

/// Power modes reported in a power-information response.
#[derive(Debug, Clone, Copy, PartialEq, Eq, Structural)]
pub enum PowerMode {
    /// The entity is not ready.
    NotReady,
    /// The entity is ready.
    Ready,
    /// Power information is not supported.
    NotSupported,
}

impl PowerMode {
    /// The wire byte of this power mode.
    pub open spec fn spec_byte(self) -> u8 {
        match self {
            PowerMode::NotReady => 0x00,
            PowerMode::Ready => 0x01,
            PowerMode::NotSupported => 0x02,
        }
    }

    /// The power mode a wire byte denotes, if any.
    pub open spec fn spec_from_byte(b: u8) -> Option<PowerMode> {
        if b == 0x00 {
            Some(PowerMode::NotReady)
        } else if b == 0x01 {
            Some(PowerMode::Ready)
        } else if b == 0x02 {
            Some(PowerMode::NotSupported)
        } else {
            None
        }
    }

    /// Emit the wire byte of this power mode.
    pub fn to_byte(self) -> (r: u8)
        ensures
            r == self.spec_byte(),
    {
        match self {
            PowerMode::NotReady => 0x00,
            PowerMode::Ready => 0x01,
            PowerMode::NotSupported => 0x02,
        }
    }

    /// Recognize a wire byte as a power mode.
    pub fn from_byte(b: u8) -> (r: Option<PowerMode>)
        ensures
            r == PowerMode::spec_from_byte(b),
    {
        match b {
            0x00 => Some(PowerMode::NotReady),
            0x01 => Some(PowerMode::Ready),
            0x02 => Some(PowerMode::NotSupported),
            _ => None,
        }
    }
}

} // verus!
