//! The bridge from the engine's callbacks to the event channel. Each callback
//! becomes at most one event, pushed to the channel in the order in which the
//! engine calls.

use crate::header::{header_of, make_header, NativeHeader};
use crate::message::{EventModel, MessageModel, MessageType, VSomeipMessage};
use crate::payload::{NativePayload, VSomeipPayload};
use crate::return_code::{is_return_code, map_return_code, return_code_of};
use tokio::sync::mpsc::{UnboundedReceiver, UnboundedSender};
use vstd::prelude::*;

verus! {

/// The sending end of tokio's unbounded channel, carried through as it is.
#[verifier::external_type_specification]
#[verifier::external_body]
#[verifier::reject_recursive_types(T)]
pub struct ExUnboundedSender<T>(tokio::sync::mpsc::UnboundedSender<T>);

/// The receiving end of tokio's unbounded channel, carried through as it is.
#[verifier::external_type_specification]
#[verifier::external_body]
#[verifier::reject_recursive_types(T)]
pub struct ExUnboundedReceiver<T>(tokio::sync::mpsc::UnboundedReceiver<T>);

/// `tokio::sync::mpsc::unbounded_channel`: a fresh channel, as its two ends.
/// Nothing is claimed of them.
#[verifier::external_body]
pub(crate) fn channel_open() -> (r: (
    UnboundedSender<VSomeipMessage>,
    UnboundedReceiver<VSomeipMessage>,
)) {
    tokio::sync::mpsc::unbounded_channel()
}

/// `UnboundedSender::send`: never waits. Whether it succeeds depends on the
/// receiving end, so only this is claimed: on failure the error holds the
/// very event that was passed in, and it comes back.
#[verifier::external_body]
pub(crate) fn channel_send(target: &UnboundedSender<VSomeipMessage>, event: VSomeipMessage) -> (r:
    Result<(), VSomeipMessage>)
    ensures
        r matches Err(back) ==> back == event,
{
    match target.send(event) {
        Ok(()) => Ok(()),
        Err(e) => Err(e.0),
    }
}

/// The registration state in which the application is registered.
pub const ST_REGISTERED: u8 = 0x00;

/// The availability state in which a service instance can be used.
pub const AS_AVAILABLE: u8 = 0x02;

pub const MT_REQUEST: u8 = 0x00;

pub const MT_REQUEST_NO_RETURN: u8 = 0x01;

pub const MT_NOTIFICATION: u8 = 0x02;

pub const MT_REQUEST_ACK: u8 = 0x40;

pub const MT_REQUEST_NO_RETURN_ACK: u8 = 0x41;

pub const MT_NOTIFICATION_ACK: u8 = 0x42;

pub const MT_RESPONSE: u8 = 0x80;

pub const MT_ERROR: u8 = 0x81;

pub const MT_RESPONSE_ACK: u8 = 0xc0;

pub const MT_ERROR_ACK: u8 = 0xc1;

pub const MT_UNKNOWN: u8 = 0xff;

/// The kinds of message that reach the application.
pub open spec fn is_surfaced(message_type: u8) -> bool {
    message_type == MT_REQUEST || message_type == MT_REQUEST_NO_RETURN || message_type
        == MT_NOTIFICATION || message_type == MT_RESPONSE || message_type == MT_ERROR
}

/// The kinds that the bridge drops without a trace: the acknowledgments and
/// the kind "unknown".
pub open spec fn is_filtered(message_type: u8) -> bool {
    message_type == MT_REQUEST_ACK || message_type == MT_REQUEST_NO_RETURN_ACK || message_type
        == MT_NOTIFICATION_ACK || message_type == MT_RESPONSE_ACK || message_type == MT_ERROR_ACK
        || message_type == MT_UNKNOWN
}

/// A header that the bridge can work on: its kind is one that the protocol
/// defines, and where it is an error its return code is one too. Any other
/// header shows that engine and binding do not fit together.
pub open spec fn is_bridgeable(hdr: NativeHeader) -> bool {
    &&& is_surfaced(hdr.message_type) || is_filtered(hdr.message_type)
    &&& hdr.message_type == MT_ERROR ==> return_code_of(hdr.return_code) is Some
}

/// The message that an inbound header and payload stand for, if they stand
/// for one; none for the kinds that are dropped.
pub open spec fn inbound(hdr: NativeHeader, data: Seq<u8>) -> Option<MessageModel> {
    if hdr.message_type == MT_REQUEST {
        Some(MessageModel::Request { header: header_of(hdr), data })
    } else if hdr.message_type == MT_REQUEST_NO_RETURN {
        Some(MessageModel::RequestNoReturn { header: header_of(hdr), data })
    } else if hdr.message_type == MT_NOTIFICATION {
        Some(
            MessageModel::Notification {
                header: header_of(hdr),
                is_initial: hdr.is_initial,
                data,
            },
        )
    } else if hdr.message_type == MT_RESPONSE {
        Some(MessageModel::Response { header: header_of(hdr), data })
    } else if hdr.message_type == MT_ERROR && return_code_of(hdr.return_code) is Some {
        Some(
            MessageModel::Error {
                header: header_of(hdr),
                return_code: return_code_of(hdr.return_code)->0,
                data,
            },
        )
    } else {
        None
    }
}

/// The kinds that are passed on and the kinds that are dropped do not
/// overlap. A message is built for exactly the kinds that are passed on, with
/// the header and the payload that came in; for an acknowledgment or the kind
/// "unknown" none is built, whatever else the header holds.
pub proof fn lemma_inbound_kinds(hdr: NativeHeader, data: Seq<u8>)
    ensures
        !(is_surfaced(hdr.message_type) && is_filtered(hdr.message_type)),
        is_filtered(hdr.message_type) ==> inbound(hdr, data) is None,
        is_bridgeable(hdr) ==> (inbound(hdr, data) is Some <==> is_surfaced(hdr.message_type)),
        inbound(hdr, data) matches Some(m) ==> m.header() == header_of(hdr) && m.data() == data,
{
}

/// Whether the bridge can work on the header.
pub fn can_bridge(hdr: &NativeHeader) -> (r: bool)
    ensures
        r == is_bridgeable(*hdr),
{
    let t: u8 = hdr.message_type;
    if t == MT_ERROR {
        is_return_code(hdr.return_code)
    } else {
        t == MT_REQUEST || t == MT_REQUEST_NO_RETURN || t == MT_NOTIFICATION || t == MT_RESPONSE
            || t == MT_REQUEST_ACK || t == MT_REQUEST_NO_RETURN_ACK || t == MT_NOTIFICATION_ACK
            || t == MT_RESPONSE_ACK || t == MT_ERROR_ACK || t == MT_UNKNOWN
    }
}

/// Builds the typed message for an inbound header and payload. The
/// acknowledgments and the kind "unknown" give none.
pub fn inbound_message(msg_header: &NativeHeader, payload: NativePayload) -> (r: Option<
    MessageType,
>)
    requires
        is_bridgeable(*msg_header),
    ensures
        r is Some <==> is_surfaced(msg_header.message_type),
        r is None <==> is_filtered(msg_header.message_type),
        match r {
            Some(m) => inbound(*msg_header, payload@) == Some(m@),
            None => inbound(*msg_header, payload@) is None,
        },
{
    let data = VSomeipPayload::from(payload);
    let header = make_header(msg_header);
    let t: u8 = msg_header.message_type;
    if t == MT_REQUEST {
        Some(MessageType::Request { header, data })
    } else if t == MT_REQUEST_NO_RETURN {
        Some(MessageType::RequestNoReturn { header, data })
    } else if t == MT_NOTIFICATION {
        Some(MessageType::Notification { header, is_initial: msg_header.is_initial, data })
    } else if t == MT_RESPONSE {
        Some(MessageType::Response { header, data })
    } else if t == MT_ERROR {
        Some(
            MessageType::Error {
                header,
                return_code: map_return_code(msg_header.return_code),
                data,
            },
        )
    } else {
        None
    }
}

/// How a callback ended.
#[derive(Debug)]
pub enum Outcome {
    /// The event is in the channel.
    Queued,
    /// The message is of a kind that is dropped; nothing was pushed.
    Filtered,
    /// The receiving end of the channel is gone. The event could not be
    /// pushed and comes back.
    Closed(VSomeipMessage),
}

/// The outcome of a push, by what the channel answered.
pub fn push_outcome(answer: Result<(), VSomeipMessage>) -> (r: Outcome)
    ensures
        r == (match answer {
            Ok(_) => Outcome::Queued,
            Err(back) => Outcome::Closed(back),
        }),
{
    match answer {
        Ok(()) => Outcome::Queued,
        Err(back) => Outcome::Closed(back),
    }
}

/// The event for a change of the registration state: whether the engine
/// reports the application as registered.
pub fn state_event(state: u8) -> (r: VSomeipMessage)
    ensures
        r@ == EventModel::RegistrationState(state == ST_REGISTERED),
{
    VSomeipMessage::RegistrationState(state == ST_REGISTERED)
}

/// The event for a change of a service instance's availability.
pub fn availability_event(svc_id: u16, inst_id: u16, avail: u8) -> (r: VSomeipMessage)
    ensures
        r@ == (EventModel::ServiceAvailability {
            service_id: svc_id,
            instance_id: inst_id,
            avail: avail == AS_AVAILABLE,
        }),
{
    VSomeipMessage::ServiceAvailability {
        service_id: svc_id,
        instance_id: inst_id,
        avail: avail == AS_AVAILABLE,
    }
}

/// Callback for the registration state: pushes the event of `state_event`.
/// Where the channel is closed, that event comes back.
pub fn state_handler(state: u8, target: &UnboundedSender<VSomeipMessage>) -> (r: Outcome)
    ensures
        !(r is Filtered),
        r matches Outcome::Closed(lost) ==> lost@ == EventModel::RegistrationState(
            state == ST_REGISTERED,
        ),
{
    push_outcome(channel_send(target, state_event(state)))
}

/// Callback for availability: pushes the event of `availability_event`.
/// Where the channel is closed, that event comes back.
pub fn avail_handler(
    svc_id: u16,
    inst_id: u16,
    avail: u8,
    target: &UnboundedSender<VSomeipMessage>,
) -> (r: Outcome)
    ensures
        !(r is Filtered),
        r matches Outcome::Closed(lost) ==> lost@ == (EventModel::ServiceAvailability {
            service_id: svc_id,
            instance_id: inst_id,
            avail: avail == AS_AVAILABLE,
        }),
{
    push_outcome(channel_send(target, availability_event(svc_id, inst_id, avail)))
}

/// Callback for an inbound message: pushes the message of `inbound_message`,
/// or nothing where the kind is one that is dropped. Where the channel is
/// closed, the message comes back.
pub fn message_handler2(
    msg_header: &NativeHeader,
    payload: NativePayload,
    target: &UnboundedSender<VSomeipMessage>,
) -> (r: Outcome)
    requires
        is_bridgeable(*msg_header),
    ensures
        r is Filtered <==> is_filtered(msg_header.message_type),
        r matches Outcome::Closed(lost) ==> inbound(*msg_header, payload@) is Some && lost@
            == EventModel::Message(inbound(*msg_header, payload@)->0),
{
    match inbound_message(msg_header, payload) {
        Some(msg) => push_outcome(channel_send(target, VSomeipMessage::Message(msg))),
        None => Outcome::Filtered,
    }
}

} // verus!
