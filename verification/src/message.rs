//! The closed set of messages that reach an application, and the events of
//! the channel that carries them.

use crate::header::MessageHeader;
use crate::payload::{bytes_debug_text, debug_text, VSomeipPayload};
use crate::return_code::ReturnCode;
use vstd::prelude::*;
use vstd::string::StringExecFns;

verus! {

/// An inbound message, by its kind on the wire.
#[derive(Debug)]
pub enum MessageType {
    /// Request message requiring a response returned back.
    Request { header: MessageHeader, data: VSomeipPayload },
    /// Request message without response (fire-and-forget).
    RequestNoReturn { header: MessageHeader, data: VSomeipPayload },
    /// Response to a request message.
    Response { header: MessageHeader, data: VSomeipPayload },
    /// Error message for exceptional cases where no response can be sent.
    Error { header: MessageHeader, return_code: ReturnCode, data: VSomeipPayload },
    /// Event notification (after the consumer subscribed to the event).
    Notification { header: MessageHeader, is_initial: bool, data: VSomeipPayload },
}

/// What a message is, with its payload as a sequence of octets.
pub enum MessageModel {
    Request { header: MessageHeader, data: Seq<u8> },
    RequestNoReturn { header: MessageHeader, data: Seq<u8> },
    Response { header: MessageHeader, data: Seq<u8> },
    Error { header: MessageHeader, return_code: ReturnCode, data: Seq<u8> },
    Notification { header: MessageHeader, is_initial: bool, data: Seq<u8> },
}

impl MessageModel {
    /// The header of the message.
    pub open spec fn header(&self) -> MessageHeader {
        match self {
            MessageModel::Request { header, .. } => *header,
            MessageModel::RequestNoReturn { header, .. } => *header,
            MessageModel::Response { header, .. } => *header,
            MessageModel::Error { header, .. } => *header,
            MessageModel::Notification { header, .. } => *header,
        }
    }

    /// The octets of the payload.
    pub open spec fn data(&self) -> Seq<u8> {
        match self {
            MessageModel::Request { data, .. } => *data,
            MessageModel::RequestNoReturn { data, .. } => *data,
            MessageModel::Response { data, .. } => *data,
            MessageModel::Error { data, .. } => *data,
            MessageModel::Notification { data, .. } => *data,
        }
    }

    /// The line that shows the message: its kind, the header's text, for an
    /// error the return code in brackets, and the payload's text in square
    /// brackets. A response and an error both show as `RESPONSE`.
    pub open spec fn text(&self, payload_text: Seq<char>) -> Seq<char> {
        match self {
            MessageModel::Request { header, .. } => "REQUEST "@ + header.text() + ": ["@
                + payload_text + "]"@,
            MessageModel::RequestNoReturn { header, .. } => "REQUEST(FF) "@ + header.text()
                + ": ["@ + payload_text + "]"@,
            MessageModel::Response { header, .. } => "RESPONSE "@ + header.text() + ": ["@
                + payload_text + "]"@,
            MessageModel::Error { header, return_code, .. } => "RESPONSE "@ + header.text()
                + " ("@ + return_code.text() + ")"@ + ": ["@ + payload_text + "]"@,
            MessageModel::Notification { header, .. } => "NOTIFICATION "@ + header.text()
                + ": ["@ + payload_text + "]"@,
        }
    }
}

impl View for MessageType {
    type V = MessageModel;

    open spec fn view(&self) -> MessageModel {
        match self {
            MessageType::Request { header, data } => MessageModel::Request {
                header: *header,
                data: data@,
            },
            MessageType::RequestNoReturn { header, data } => MessageModel::RequestNoReturn {
                header: *header,
                data: data@,
            },
            MessageType::Response { header, data } => MessageModel::Response {
                header: *header,
                data: data@,
            },
            MessageType::Error { header, return_code, data } => MessageModel::Error {
                header: *header,
                return_code: *return_code,
                data: data@,
            },
            MessageType::Notification { header, is_initial, data } => MessageModel::Notification {
                header: *header,
                is_initial: *is_initial,
                data: data@,
            },
        }
    }
}

impl MessageType {
    /// The payload of the message.
    pub fn payload(&self) -> (r: &VSomeipPayload)
        ensures
            r@ == self@.data(),
    {
        match self {
            MessageType::Request { data, .. } => data,
            MessageType::RequestNoReturn { data, .. } => data,
            MessageType::Response { data, .. } => data,
            MessageType::Error { data, .. } => data,
            MessageType::Notification { data, .. } => data,
        }
    }

    /// The line that shows the message, around a payload text that the caller
    /// supplies.
    pub fn render(&self, payload_text: &str) -> (r: String)
        ensures
            r@ == self@.text(payload_text@),
    {
        let mut out = String::new();
        match self {
            MessageType::Request { header, .. } => {
                out.append("REQUEST ");
                header.push_to(&mut out);
            },
            MessageType::RequestNoReturn { header, .. } => {
                out.append("REQUEST(FF) ");
                header.push_to(&mut out);
            },
            MessageType::Response { header, .. } => {
                out.append("RESPONSE ");
                header.push_to(&mut out);
            },
            MessageType::Error { header, return_code, .. } => {
                out.append("RESPONSE ");
                header.push_to(&mut out);
                out.append(" (");
                out.append(return_code.name());
                out.append(")");
            },
            MessageType::Notification { header, .. } => {
                out.append("NOTIFICATION ");
                header.push_to(&mut out);
            },
        }
        out.append(": [");
        out.append(payload_text);
        out.append("]");
        assert(out@ =~= self@.text(payload_text@));
        out
    }

    /// The line that shows the message, with the payload as a byte string.
    pub fn to_string(&self) -> (r: String)
        ensures
            r@ == self@.text(bytes_debug_text(self@.data())),
    {
        let shown = debug_text(self.payload().as_bytes_ref());
        self.render(shown.as_str())
    }
}

/// One event of the channel between the engine's callbacks and the
/// application.
#[derive(Debug)]
pub enum VSomeipMessage {
    /// Whether the application is registered with the runtime.
    RegistrationState(bool),
    /// A watched service instance came up or went down.
    ServiceAvailability { service_id: u16, instance_id: u16, avail: bool },
    /// An inbound message.
    Message(MessageType),
}

/// What an event is, with a message by its model.
pub enum EventModel {
    RegistrationState(bool),
    ServiceAvailability { service_id: u16, instance_id: u16, avail: bool },
    Message(MessageModel),
}

impl View for VSomeipMessage {
    type V = EventModel;

    open spec fn view(&self) -> EventModel {
        match self {
            VSomeipMessage::RegistrationState(on) => EventModel::RegistrationState(*on),
            VSomeipMessage::ServiceAvailability { service_id, instance_id, avail } => {
                EventModel::ServiceAvailability {
                    service_id: *service_id,
                    instance_id: *instance_id,
                    avail: *avail,
                }
            },
            VSomeipMessage::Message(m) => EventModel::Message(m@),
        }
    }
}

} // verus!
