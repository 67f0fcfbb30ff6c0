//! The application handle. Every operation turns its typed arguments into
//! one call for the engine, in the engine's own plain terms; whoever owns the
//! engine performs the call.

use crate::bridge::channel_open;
use crate::header::{header_of, MessageHeader, NativeHeader};
use crate::ids::{EventGroupID, InstanceID, MajorVersion, MethodID, ServiceID, SessionID};
use crate::message::VSomeipMessage;
use crate::payload::bytes_contents;
use crate::return_code::{return_code_to_ffi, ReturnCode};
use crate::version::InterfaceVersion;
use bytes::Bytes;
use std::time::Duration;
use tokio::sync::mpsc::{UnboundedReceiver, UnboundedSender};
use vstd::prelude::*;

verus! {

/// The whole milliseconds in a `std::time::Duration`.
pub uninterp spec fn duration_millis(d: Duration) -> nat;

/// `Duration::as_millis`: the total number of whole milliseconds that the
/// duration holds.
#[verifier::external_body]
pub(crate) fn as_millis(d: &Duration) -> (r: u128)
    ensures
        r == duration_millis(*d),
{
    d.as_millis()
}

/// One call for the engine. Identifiers and versions are plain numbers, a
/// return code is its octet, and a length or a count is what fits in 32 bits.
#[derive(PartialEq, Eq, Debug)]
pub enum EngineCall {
    RequestService { service: u16, instance: u16, major: u8, minor: u32 },
    ReleaseService { service: u16, instance: u16, major: u8 },
    OfferService { service: u16, instance: u16, major: u8, minor: u32 },
    StopOfferService { service: u16, instance: u16, major: u8, minor: u32 },
    OfferEvent {
        service: u16,
        instance: u16,
        notifier: u16,
        event_groups: Vec<u16>,
        count: u32,
        is_field: bool,
        cycle_ms: u32,
        change_resets_cycle: bool,
        update_on_change: bool,
    },
    StopOfferEvent { service: u16, instance: u16, notifier: u16 },
    RequestEvent {
        service: u16,
        instance: u16,
        notifier: u16,
        event_groups: Vec<u16>,
        count: u32,
        is_field: bool,
    },
    ReleaseEvent { service: u16, instance: u16, notifier: u16 },
    Subscribe { service: u16, instance: u16, event_group: u16, notifier: u16, major: u8 },
    Unsubscribe { service: u16, instance: u16, event_group: u16 },
    Notify { service: u16, instance: u16, notifier: u16, force: bool, payload: Bytes, len: u32 },
    SendRequest {
        service: u16,
        instance: u16,
        method: u16,
        major: u8,
        reliable: bool,
        payload: Bytes,
        len: u32,
    },
    SendResponse {
        service: u16,
        instance: u16,
        method: u16,
        client: u16,
        session: u16,
        major: u8,
        reliable: bool,
        return_code: u8,
        payload: Bytes,
        len: u32,
    },
    SendError {
        service: u16,
        instance: u16,
        method: u16,
        client: u16,
        session: u16,
        major: u8,
        reliable: bool,
        return_code: u8,
    },
}

/// What is left of a number in 32 bits.
pub open spec fn low32(n: nat) -> u32 {
    (n % 0x1_0000_0000) as u32
}

/// The numbers of a list of event groups, in the same order.
pub open spec fn raw_ids(groups: Seq<EventGroupID>) -> Seq<u16> {
    Seq::new(groups.len(), |i: int| groups[i].0)
}

/// The cycle of an event in milliseconds as the engine takes it: zero for no
/// cycle, else the low 32 bits of the milliseconds.
pub open spec fn cycle_of(millis: Option<u128>) -> u32 {
    match millis {
        Some(ms) => low32(ms as nat),
        None => 0,
    }
}

/// The call that offers an event or a field.
pub open spec fn is_offer_event_call(
    call: EngineCall,
    service_id: ServiceID,
    instance_id: InstanceID,
    notifier_id: MethodID,
    groups: Seq<EventGroupID>,
    field: bool,
    millis: Option<u128>,
    resets: bool,
    on_change: bool,
) -> bool {
    call matches EngineCall::OfferEvent {
        service,
        instance,
        notifier,
        event_groups,
        count,
        is_field,
        cycle_ms,
        change_resets_cycle,
        update_on_change,
    } && service == service_id.0 && instance == instance_id.0 && notifier == notifier_id.0
        && event_groups@ == raw_ids(groups) && count == low32(groups.len()) && is_field == field
        && cycle_ms == cycle_of(millis) && change_resets_cycle == resets && update_on_change
        == on_change
}

/// The call that requests an event or a field.
pub open spec fn is_request_event_call(
    call: EngineCall,
    service_id: ServiceID,
    instance_id: InstanceID,
    notifier_id: MethodID,
    groups: Seq<EventGroupID>,
    field: bool,
) -> bool {
    call matches EngineCall::RequestEvent {
        service,
        instance,
        notifier,
        event_groups,
        count,
        is_field,
    } && service == service_id.0 && instance == instance_id.0 && notifier == notifier_id.0
        && event_groups@ == raw_ids(groups) && count == low32(groups.len()) && is_field == field
}

/// The call that publishes new data for an event or a field.
pub open spec fn is_notify_call(
    call: EngineCall,
    service_id: ServiceID,
    instance_id: InstanceID,
    notifier_id: MethodID,
    data: Seq<u8>,
    force_notification: bool,
) -> bool {
    call matches EngineCall::Notify { service, instance, notifier, force, payload, len }
        && service == service_id.0 && instance == instance_id.0 && notifier == notifier_id.0
        && force == force_notification && bytes_contents(payload) == data && len == low32(
        data.len(),
    )
}

/// The call that sends a request.
pub open spec fn is_request_call(
    call: EngineCall,
    service_id: ServiceID,
    instance_id: InstanceID,
    method_id: MethodID,
    major_version: MajorVersion,
    data: Seq<u8>,
    on_reliable: bool,
) -> bool {
    call matches EngineCall::SendRequest {
        service,
        instance,
        method,
        major,
        reliable,
        payload,
        len,
    } && service == service_id.0 && instance == instance_id.0 && method == method_id.0 && major
        == major_version.0 && reliable == on_reliable && bytes_contents(payload) == data && len
        == low32(data.len())
}

/// The call that answers the request with the given header.
pub open spec fn is_response_call(
    call: EngineCall,
    source_request: MessageHeader,
    code: ReturnCode,
    data: Seq<u8>,
) -> bool {
    call matches EngineCall::SendResponse {
        service,
        instance,
        method,
        client,
        session,
        major,
        reliable,
        return_code,
        payload,
        len,
    } && service == source_request.service_id.0 && instance == source_request.instance_id.0
        && method == source_request.method_id.0 && client == source_request.client_id.0
        && session == source_request.session_id.0 && major
        == source_request.interface_version.major.0 && reliable == source_request.reliable
        && return_code == code.wire() && bytes_contents(payload) == data && len == low32(
        data.len(),
    )
}

/// The call that answers the request with the given header by an error.
pub open spec fn error_call(source_request: MessageHeader, code: ReturnCode) -> EngineCall {
    EngineCall::SendError {
        service: source_request.service_id.0,
        instance: source_request.instance_id.0,
        method: source_request.method_id.0,
        client: source_request.client_id.0,
        session: source_request.session_id.0,
        major: source_request.interface_version.major.0,
        reliable: source_request.reliable,
        return_code: code.wire(),
    }
}

/// The session that a reply goes out under; none for a call that is no reply.
pub open spec fn reply_session(call: EngineCall) -> Option<u16> {
    match call {
        EngineCall::SendResponse { session, .. } => Some(session),
        EngineCall::SendError { session, .. } => Some(session),
        _ => None,
    }
}

/// A reply stays in the session of its request. The header that the bridge
/// builds for an inbound request carries the request's session; a response
/// or an error sent with that header goes out under the same session; and a
/// header with another session is not that header.
pub proof fn lemma_reply_keeps_session(
    request: NativeHeader,
    code: ReturnCode,
    data: Seq<u8>,
    call: EngineCall,
    other: MessageHeader,
)
    ensures
        header_of(request).session_id == SessionID(request.session),
        is_response_call(call, header_of(request), code, data) ==> reply_session(call) == Some(
            request.session,
        ),
        reply_session(error_call(header_of(request), code)) == Some(request.session),
        other.session_id != header_of(request).session_id ==> other != header_of(request),
{
}

/// The low 32 bits of a length.
pub fn length32(len: usize) -> (r: u32)
    ensures
        r == low32(len as nat),
{
    ((len as u64) % 0x1_0000_0000) as u32
}

/// The cycle as the engine takes it, from the milliseconds of the duration.
pub fn cycle_millis(millis: Option<u128>) -> (r: u32)
    ensures
        r == cycle_of(millis),
{
    match millis {
        Some(ms) => (ms % 0x1_0000_0000) as u32,
        None => 0,
    }
}

/// The numbers of the event groups, in order.
pub fn event_group_ids(groups: &Vec<EventGroupID>) -> (r: Vec<u16>)
    ensures
        r@ == raw_ids(groups@),
{
    let mut ids: Vec<u16> = Vec::new();
    let mut i: usize = 0;
    while i < groups.len()
        invariant
            i <= groups.len(),
            ids@ == raw_ids(groups@.subrange(0, i as int)),
        decreases groups.len() - i,
    {
        ids.push(groups[i].id());
        i += 1;
        assert(ids@ =~= raw_ids(groups@.subrange(0, i as int)));
    }
    assert(groups@.subrange(0, i as int) =~= groups@);
    ids
}

/// The application's handle on one engine instance. It owns the sending end
/// of the event channel, which the bridge's callbacks push to.
pub struct VSomeipApplication {
    app: usize,
    sender2: Box<UnboundedSender<VSomeipMessage>>,
}

impl VSomeipApplication {
    /// A handle always stands for an engine instance: zero is no instance.
    #[verifier::type_invariant]
    spec fn live(self) -> bool {
        self.app != 0
    }

    /// The engine's handle for this application.
    pub closed spec fn native(&self) -> usize {
        self.app
    }

    /// The sending end of the event channel that the handle owns.
    pub closed spec fn channel(&self) -> UnboundedSender<VSomeipMessage> {
        *self.sender2
    }

    /// Makes the handle for the engine instance that `app` stands for, and the
    /// event channel with it. An engine that could not make an instance hands
    /// out zero: then there is no handle and no channel.
    pub fn create(app: usize) -> (r: Result<(Self, UnboundedReceiver<VSomeipMessage>), ()>)
        ensures
            r is Err <==> app == 0,
            r matches Ok(made) ==> made.0.native() == app,
    {
        if app == 0 {
            return Err(());
        }
        let (sender, recv) = channel_open();
        let application = VSomeipApplication { app, sender2: Box::new(sender) };
        Ok((application, recv))
    }

    /// The engine's handle for this application; never zero.
    pub fn handle(&self) -> (r: usize)
        ensures
            r == self.native(),
            r != 0,
    {
        proof {
            use_type_invariant(self);
        }
        self.app
    }

    /// The sending end of the event channel, for the callbacks.
    pub fn sender(&self) -> (r: &UnboundedSender<VSomeipMessage>)
        ensures
            *r == self.channel(),
    {
        &*self.sender2
    }

    /// Requests a service. A consumer must request a service before it can
    /// use it; from then on it is told of the service's availability.
    pub fn request_service(
        &self,
        service_id: ServiceID,
        instance_id: InstanceID,
        version: InterfaceVersion,
    ) -> (r: EngineCall)
        ensures
            r == (EngineCall::RequestService {
                service: service_id.0,
                instance: instance_id.0,
                major: version.major.0,
                minor: version.minor.0,
            }),
    {
        EngineCall::RequestService {
            service: service_id.id(),
            instance: instance_id.id(),
            major: version.major.id(),
            minor: version.minor.id(),
        }
    }

    /// Releases a requested service. The minor version plays no part.
    pub fn release_service(
        &self,
        service_id: ServiceID,
        instance_id: InstanceID,
        version: InterfaceVersion,
    ) -> (r: EngineCall)
        ensures
            r == (EngineCall::ReleaseService {
                service: service_id.0,
                instance: instance_id.0,
                major: version.major.0,
            }),
    {
        EngineCall::ReleaseService {
            service: service_id.id(),
            instance: instance_id.id(),
            major: version.major.id(),
        }
    }

    /// A provider says that it is ready to serve the service instance. Where
    /// another provider already offers it, the engine keeps this one in
    /// reserve and tells nobody.
    pub fn offer_service(
        &self,
        service_id: ServiceID,
        instance_id: InstanceID,
        version: InterfaceVersion,
    ) -> (r: EngineCall)
        ensures
            r == (EngineCall::OfferService {
                service: service_id.0,
                instance: instance_id.0,
                major: version.major.0,
                minor: version.minor.0,
            }),
    {
        EngineCall::OfferService {
            service: service_id.id(),
            instance: instance_id.id(),
            major: version.major.id(),
            minor: version.minor.id(),
        }
    }

    /// A provider says that it no longer offers the service instance.
    pub fn stop_offer_service(
        &self,
        service_id: ServiceID,
        instance_id: InstanceID,
        version: InterfaceVersion,
    ) -> (r: EngineCall)
        ensures
            r == (EngineCall::StopOfferService {
                service: service_id.0,
                instance: instance_id.0,
                major: version.major.0,
                minor: version.minor.0,
            }),
    {
        EngineCall::StopOfferService {
            service: service_id.id(),
            instance: instance_id.id(),
            major: version.major.id(),
            minor: version.minor.id(),
        }
    }

    /// Offers an event or a field in the given event groups. The cycle is
    /// passed in whole milliseconds, zero where there is none.
    pub fn offer_event(
        &self,
        service_id: ServiceID,
        instance_id: InstanceID,
        notifier_id: MethodID,
        event_groups: Vec<EventGroupID>,
        is_field: bool,
        cycle: Option<Duration>,
        change_resets_cycle: bool,
        update_on_change: bool,
    ) -> (r: EngineCall)
        ensures
            is_offer_event_call(
                r,
                service_id,
                instance_id,
                notifier_id,
                event_groups@,
                is_field,
                match cycle {
                    Some(d) => Some(duration_millis(d) as u128),
                    None => None,
                },
                change_resets_cycle,
                update_on_change,
            ),
    {
        let millis: Option<u128> = match cycle {
            Some(d) => Some(as_millis(&d)),
            None => None,
        };
        EngineCall::OfferEvent {
            service: service_id.id(),
            instance: instance_id.id(),
            notifier: notifier_id.id(),
            event_groups: event_group_ids(&event_groups),
            count: length32(event_groups.len()),
            is_field,
            cycle_ms: cycle_millis(millis),
            change_resets_cycle,
            update_on_change,
        }
    }

    /// Same as `offer_event`, for a single event group.
    pub fn offer_event_seg(
        &self,
        service_id: ServiceID,
        instance_id: InstanceID,
        notifier_id: MethodID,
        event_group: EventGroupID,
        is_field: bool,
        cycle: Option<Duration>,
        change_resets_cycle: bool,
        update_on_change: bool,
    ) -> (r: EngineCall)
        ensures
            is_offer_event_call(
                r,
                service_id,
                instance_id,
                notifier_id,
                seq![event_group],
                is_field,
                match cycle {
                    Some(d) => Some(duration_millis(d) as u128),
                    None => None,
                },
                change_resets_cycle,
                update_on_change,
            ),
    {
        let mut groups: Vec<EventGroupID> = Vec::new();
        groups.push(event_group);
        assert(groups@ =~= seq![event_group]);
        self.offer_event(
            service_id,
            instance_id,
            notifier_id,
            groups,
            is_field,
            cycle,
            change_resets_cycle,
            update_on_change,
        )
    }

    /// Withdraws the offer of an event or a field.
    pub fn stop_offer_event(
        &self,
        service_id: ServiceID,
        instance_id: InstanceID,
        notifier_id: MethodID,
    ) -> (r: EngineCall)
        ensures
            r == (EngineCall::StopOfferEvent {
                service: service_id.0,
                instance: instance_id.0,
                notifier: notifier_id.0,
            }),
    {
        EngineCall::StopOfferEvent {
            service: service_id.id(),
            instance: instance_id.id(),
            notifier: notifier_id.id(),
        }
    }

    /// Requests an event of a service, which must come before subscribing to
    /// it. Name every event of an event group, also the ones of no interest:
    /// the engine otherwise discards initial notifications, for this consumer
    /// and for others.
    pub fn request_event(
        &self,
        service_id: ServiceID,
        instance_id: InstanceID,
        notifier_id: MethodID,
        event_groups: Vec<EventGroupID>,
        is_field: bool,
    ) -> (r: EngineCall)
        ensures
            is_request_event_call(
                r,
                service_id,
                instance_id,
                notifier_id,
                event_groups@,
                is_field,
            ),
    {
        EngineCall::RequestEvent {
            service: service_id.id(),
            instance: instance_id.id(),
            notifier: notifier_id.id(),
            event_groups: event_group_ids(&event_groups),
            count: length32(event_groups.len()),
            is_field,
        }
    }

    /// Same as `request_event`, for a single event group.
    pub fn request_event_seg(
        &self,
        service_id: ServiceID,
        instance_id: InstanceID,
        notifier_id: MethodID,
        event_group: EventGroupID,
        is_field: bool,
    ) -> (r: EngineCall)
        ensures
            is_request_event_call(
                r,
                service_id,
                instance_id,
                notifier_id,
                seq![event_group],
                is_field,
            ),
    {
        let mut groups: Vec<EventGroupID> = Vec::new();
        groups.push(event_group);
        assert(groups@ =~= seq![event_group]);
        self.request_event(service_id, instance_id, notifier_id, groups, is_field)
    }

    /// Releases a requested event.
    pub fn release_event(
        &self,
        service_id: ServiceID,
        instance_id: InstanceID,
        notifier_id: MethodID,
    ) -> (r: EngineCall)
        ensures
            r == (EngineCall::ReleaseEvent {
                service: service_id.0,
                instance: instance_id.0,
                notifier: notifier_id.0,
            }),
    {
        EngineCall::ReleaseEvent {
            service: service_id.id(),
            instance: instance_id.id(),
            notifier: notifier_id.id(),
        }
    }

    /// Subscribes to an event group. The notifier only selects which of the
    /// group's notifications are passed on to the application.
    pub fn subscribe(
        &self,
        service_id: ServiceID,
        instance_id: InstanceID,
        event_group_id: EventGroupID,
        notifier_id: MethodID,
        major_version: MajorVersion,
    ) -> (r: EngineCall)
        ensures
            r == (EngineCall::Subscribe {
                service: service_id.0,
                instance: instance_id.0,
                event_group: event_group_id.0,
                notifier: notifier_id.0,
                major: major_version.0,
            }),
    {
        EngineCall::Subscribe {
            service: service_id.id(),
            instance: instance_id.id(),
            event_group: event_group_id.id(),
            notifier: notifier_id.id(),
            major: major_version.id(),
        }
    }

    /// Ends the subscription to an event group.
    pub fn unsubscribe(
        &self,
        service_id: ServiceID,
        instance_id: InstanceID,
        event_group_id: EventGroupID,
    ) -> (r: EngineCall)
        ensures
            r == (EngineCall::Unsubscribe {
                service: service_id.0,
                instance: instance_id.0,
                event_group: event_group_id.0,
            }),
    {
        EngineCall::Unsubscribe {
            service: service_id.id(),
            instance: instance_id.id(),
            event_group: event_group_id.id(),
        }
    }

    /// Sets the data of an event or a field. The engine notifies where the
    /// data changed or `force_notification` is set.
    pub fn notify(
        &self,
        service_id: ServiceID,
        instance_id: InstanceID,
        notifier_id: MethodID,
        payload: &Bytes,
        force_notification: bool,
    ) -> (r: EngineCall)
        ensures
            is_notify_call(
                r,
                service_id,
                instance_id,
                notifier_id,
                bytes_contents(*payload),
                force_notification,
            ),
    {
        EngineCall::Notify {
            service: service_id.id(),
            instance: instance_id.id(),
            notifier: notifier_id.id(),
            force: force_notification,
            payload: payload.clone(),
            len: length32(payload.len()),
        }
    }

    /// Sends a request. The engine assigns the session when it performs the
    /// call; the response or error will carry the same session.
    pub fn send_request(
        &self,
        service_id: ServiceID,
        instance_id: InstanceID,
        method_id: MethodID,
        major: MajorVersion,
        payload: &Bytes,
        reliable: bool,
    ) -> (r: EngineCall)
        ensures
            is_request_call(
                r,
                service_id,
                instance_id,
                method_id,
                major,
                bytes_contents(*payload),
                reliable,
            ),
    {
        EngineCall::SendRequest {
            service: service_id.id(),
            instance: instance_id.id(),
            method: method_id.id(),
            major: major.id(),
            reliable,
            payload: payload.clone(),
            len: length32(payload.len()),
        }
    }

    /// Sends the response to the request whose header is `source_request`.
    pub fn send_response(
        &self,
        source_request: &MessageHeader,
        return_code: ReturnCode,
        payload: &Bytes,
    ) -> (r: EngineCall)
        ensures
            is_response_call(r, *source_request, return_code, bytes_contents(*payload)),
    {
        EngineCall::SendResponse {
            service: source_request.service_id.id(),
            instance: source_request.instance_id.id(),
            method: source_request.method_id.id(),
            client: source_request.client_id.id(),
            session: source_request.session_id.id(),
            major: source_request.interface_version.major.id(),
            reliable: source_request.reliable,
            return_code: return_code_to_ffi(return_code),
            payload: payload.clone(),
            len: length32(payload.len()),
        }
    }

    /// Sends an error in answer to the request whose header is
    /// `source_request`.
    pub fn send_error(&self, source_request: &MessageHeader, return_code: ReturnCode) -> (r:
        EngineCall)
        ensures
            r == error_call(*source_request, return_code),
    {
        EngineCall::SendError {
            service: source_request.service_id.id(),
            instance: source_request.instance_id.id(),
            method: source_request.method_id.id(),
            client: source_request.client_id.id(),
            session: source_request.session_id.id(),
            major: source_request.interface_version.major.id(),
            reliable: source_request.reliable,
            return_code: return_code_to_ffi(return_code),
        }
    }
}

} // verus!
