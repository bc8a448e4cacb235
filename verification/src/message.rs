//! A complete DoIP message: one header and the payload it describes.

use vstd::prelude::*;

use crate::header::DoipHeader;
use crate::payload::DoipPayload;
use crate::payload::PayloadView;
use crate::spec_header_for;

verus! {

/// One frame's worth of typed content: the header and its payload.
#[derive(Debug, Clone, PartialEq, Eq)]
pub struct DoipMessage {
    /// The frame header describing the payload.
    pub header: DoipHeader,
    /// The payload the header announces.
    pub payload: DoipPayload,
}

/// The mathematical view of a message.
pub struct MessageView {
    /// The frame header.
    pub header: DoipHeader,
    /// The view of the payload.
    pub payload: PayloadView,
}

impl View for DoipMessage {
    type V = MessageView;

    open spec fn view(&self) -> MessageView {
        MessageView { header: self.header, payload: self.payload@ }
    }
}

impl MessageView {
    /// A message view is well formed when its payload is well formed and
    /// the header is exactly the one a conforming sender owes for that
    /// payload: complemented version byte, matching type tag, exact body
    /// length.
    pub open spec fn wf(self) -> bool {
        &&& self.payload.wf()
        &&& self.header.inverse_protocol_version == !self.header.protocol_version.spec_byte()
        &&& self.header.payload_type == self.payload.spec_payload_type()
        &&& self.header.payload_length == self.payload.spec_body_len()
    }
}

impl DoipMessage {
    /// A message is well formed when its view is.
    pub open spec fn wf(self) -> bool {
        self@.wf()
    }

    /// Pair a payload with the header it requires.
    pub fn new(protocol_version: crate::version::ProtocolVersion, payload: DoipPayload) -> (r:
        DoipMessage)
        requires
            payload.wf(),
        ensures
            r.header == spec_header_for(protocol_version, payload),
            r.payload == payload,
            r.wf(),
    {
        let header = crate::new_header(protocol_version, &payload);
        DoipMessage { header, payload }
    }
}

} // verus!
