use bytes::Bytes;
use std::collections::HashMap;
use tokio::sync::mpsc::error::TryRecvError;
use tokio::sync::mpsc::UnboundedReceiver;
use vsomeiprs::application::{EngineCall, VSomeipApplication};
use vsomeiprs::bridge::{avail_handler, message_handler2, state_handler, Outcome};
use vsomeiprs::header::NativeHeader;
use vsomeiprs::ids::{EventGroupID, InstanceID, MajorVersion, MethodID, ServiceID};
use vsomeiprs::message::{MessageType, VSomeipMessage};
use vsomeiprs::payload::NativePayload;
use vsomeiprs::return_code::ReturnCode;
use vsomeiprs::version::InterfaceVersion;

/// Stands in for the engine between two applications: it assigns sessions and
/// turns each call that carries a message into the header and payload that
/// the receiving side's callback gets.
struct Wire {
    next_session: u16,
}

impl Wire {
    fn carry(&mut self, call: &EngineCall, client: u16) -> (NativeHeader, NativePayload, u16) {
        let blank = NativeHeader {
            service: 0,
            instance: 0,
            method: 0,
            client,
            session: 0,
            if_version: 0xff,
            message_type: 0xff,
            return_code: 0,
            is_reliable: false,
            is_initial: false,
        };
        match call {
            EngineCall::SendRequest { service, instance, method, major, reliable, payload, len } => {
                assert_eq!(*len as usize, payload.len());
                self.next_session += 1;
                let hdr = NativeHeader {
                    service: *service,
                    instance: *instance,
                    method: *method,
                    session: self.next_session,
                    if_version: *major,
                    message_type: 0x00,
                    is_reliable: *reliable,
                    ..blank
                };
                (hdr, NativePayload::Data(payload.clone()), self.next_session)
            }
            EngineCall::SendResponse {
                service,
                instance,
                method,
                client,
                session,
                major,
                reliable,
                return_code,
                payload,
                len,
            } => {
                assert_eq!(*len as usize, payload.len());
                let hdr = NativeHeader {
                    service: *service,
                    instance: *instance,
                    method: *method,
                    client: *client,
                    session: *session,
                    if_version: *major,
                    message_type: 0x80,
                    return_code: *return_code,
                    is_reliable: *reliable,
                    ..blank
                };
                (hdr, NativePayload::Data(payload.clone()), *session)
            }
            EngineCall::Notify { service, instance, notifier, payload, len, .. } => {
                assert_eq!(*len as usize, payload.len());
                let hdr = NativeHeader {
                    service: *service,
                    instance: *instance,
                    method: *notifier,
                    message_type: 0x02,
                    ..blank
                };
                (hdr, NativePayload::Data(payload.clone()), 0)
            }
            _ => panic!("the call carries no message"),
        }
    }
}

fn setup_app(handle: usize) -> (VSomeipApplication, UnboundedReceiver<VSomeipMessage>) {
    let (app, mut recv) = VSomeipApplication::create(handle).unwrap();
    assert!(matches!(state_handler(0, app.sender()), Outcome::Queued));
    assert!(matches!(recv.try_recv(), Ok(VSomeipMessage::RegistrationState(true))));
    (app, recv)
}

fn be32(octets: &[u8]) -> u32 {
    assert_eq!(octets.len(), 4);
    u32::from_be_bytes([octets[0], octets[1], octets[2], octets[3]])
}

#[test]
fn request_response_main() {
    const SERVICE_ID: ServiceID = ServiceID(0x002a);
    const INSTANCE_ID: InstanceID = InstanceID(101);
    const METHOD_ID: MethodID = MethodID(0x0002);
    const MAJOR: u8 = 2;
    const MINOR: u32 = 3;
    const MAX_COUNT_REQUESTS: u32 = 50;

    let version = InterfaceVersion::make_version(MAJOR, MINOR);
    let mut wire = Wire { next_session: 0 };
    let (papp, mut precv) = setup_app(1);
    let (capp, mut crecv) = setup_app(2);
    assert_eq!(
        papp.offer_service(SERVICE_ID, INSTANCE_ID, version),
        EngineCall::OfferService { service: 0x002a, instance: 101, major: 2, minor: 3 }
    );
    assert_eq!(
        capp.request_service(SERVICE_ID, INSTANCE_ID, version),
        EngineCall::RequestService { service: 0x002a, instance: 101, major: 2, minor: 3 }
    );
    assert!(matches!(avail_handler(0x002a, 101, 2, capp.sender()), Outcome::Queued));
    let mut available = false;
    if let Ok(VSomeipMessage::ServiceAvailability { service_id, instance_id, avail }) =
        crecv.try_recv()
    {
        if service_id == SERVICE_ID.id() && instance_id == INSTANCE_ID.id() {
            available = avail;
        }
    }
    assert!(available);

    let mut session_map = HashMap::<u16, u32>::new();
    let mut answered = 0u32;
    for counter in 0..=MAX_COUNT_REQUESTS {
        let pl = Bytes::copy_from_slice(&counter.to_be_bytes());
        let request =
            capp.send_request(SERVICE_ID, INSTANCE_ID, METHOD_ID, MajorVersion(MAJOR), &pl, false);
        let (hdr, data, session) = wire.carry(&request, 0x0102);
        session_map.insert(session, counter);
        assert!(matches!(message_handler2(&hdr, data, papp.sender()), Outcome::Queued));

        let response = match precv.try_recv() {
            Ok(VSomeipMessage::Message(MessageType::Request { header, data })) => {
                assert_eq!(header.service_id, SERVICE_ID);
                assert_eq!(header.instance_id, INSTANCE_ID);
                assert_eq!(header.method_id, METHOD_ID);
                assert_eq!(header.interface_version.major.id(), MAJOR);
                let payload = data.as_bytes_ref().as_ref();
                assert_eq!(payload.len(), 4);
                let input = be32(payload);
                let resp_pl = Bytes::copy_from_slice(&(input ^ 0x12345678u32).to_be_bytes());
                papp.send_response(&header, ReturnCode::Okay, &resp_pl)
            }
            _ => panic!("Unexpected event at the provider"),
        };
        let (hdr, data, _) = wire.carry(&response, 0);
        assert!(matches!(message_handler2(&hdr, data, capp.sender()), Outcome::Queued));

        match crecv.try_recv() {
            Ok(VSomeipMessage::Message(MessageType::Response { header, data })) => {
                assert_eq!(header.service_id, SERVICE_ID);
                assert_eq!(header.instance_id, INSTANCE_ID);
                assert_eq!(header.method_id, METHOD_ID);
                assert_eq!(header.interface_version.major.id(), MAJOR);
                let payload = data.as_bytes_ref().as_ref();
                assert_eq!(payload.len(), 4);
                let input = be32(payload) ^ 0x12345678;
                assert_eq!(session_map.get(&header.session_id.id()), Some(&input));
                assert_eq!(be32(payload), counter ^ 0x12345678);
                answered += 1;
            }
            _ => panic!("Unexpected event at the consumer"),
        }
    }
    assert_eq!(answered, MAX_COUNT_REQUESTS + 1);
    assert_eq!(session_map.len(), 51);
    assert_eq!(
        papp.stop_offer_service(SERVICE_ID, INSTANCE_ID, version),
        EngineCall::StopOfferService { service: 0x002a, instance: 101, major: 2, minor: 3 }
    );
    assert!(matches!(precv.try_recv(), Err(TryRecvError::Empty)));
    assert!(matches!(crecv.try_recv(), Err(TryRecvError::Empty)));
}

#[test]
fn field_notify_main() {
    const SERVICE_ID: ServiceID = ServiceID(0x4711);
    const INSTANCE_ID: InstanceID = InstanceID(42);
    const NOTIFIER_ID: MethodID = MethodID(0x8002);
    const EVENT_GROUP: EventGroupID = EventGroupID(8);
    const MAJOR: u8 = 3;
    const MINOR: u32 = 28;
    const MAX_COUNT_NOTIFICATION: u32 = 50;

    let version = InterfaceVersion::make_version(MAJOR, MINOR);
    let mut wire = Wire { next_session: 0 };
    let (papp, _precv) = setup_app(1);
    let (capp, mut crecv) = setup_app(2);

    assert_eq!(
        papp.offer_event_seg(SERVICE_ID, INSTANCE_ID, NOTIFIER_ID, EVENT_GROUP, true, None, true, true),
        EngineCall::OfferEvent {
            service: 0x4711,
            instance: 42,
            notifier: 0x8002,
            event_groups: vec![8],
            count: 1,
            is_field: true,
            cycle_ms: 0,
            change_resets_cycle: true,
            update_on_change: true,
        }
    );
    assert_eq!(
        papp.offer_service(SERVICE_ID, INSTANCE_ID, version),
        EngineCall::OfferService { service: 0x4711, instance: 42, major: 3, minor: 28 }
    );
    assert_eq!(
        capp.request_service(SERVICE_ID, INSTANCE_ID, version),
        EngineCall::RequestService { service: 0x4711, instance: 42, major: 3, minor: 28 }
    );
    assert_eq!(
        capp.request_event_seg(SERVICE_ID, INSTANCE_ID, NOTIFIER_ID, EVENT_GROUP, true),
        EngineCall::RequestEvent {
            service: 0x4711,
            instance: 42,
            notifier: 0x8002,
            event_groups: vec![8],
            count: 1,
            is_field: true,
        }
    );
    assert!(matches!(avail_handler(0x4711, 42, 2, capp.sender()), Outcome::Queued));

    for counter in 1..=MAX_COUNT_NOTIFICATION {
        let pl = Bytes::copy_from_slice(&counter.to_be_bytes());
        let call = papp.notify(SERVICE_ID, INSTANCE_ID, NOTIFIER_ID, &pl, true);
        let (hdr, data, _) = wire.carry(&call, 0);
        assert!(matches!(message_handler2(&hdr, data, capp.sender()), Outcome::Queued));
    }

    let mut subscribed = false;
    let mut notific_counter = 0u32;
    let mut counter = 0u32;
    loop {
        match crecv.try_recv() {
            Ok(VSomeipMessage::RegistrationState(rs)) => assert!(rs),
            Ok(VSomeipMessage::ServiceAvailability { service_id, instance_id, avail }) => {
                if service_id == SERVICE_ID.id() && instance_id == INSTANCE_ID.id() && avail {
                    assert_eq!(
                        capp.subscribe(
                            SERVICE_ID,
                            INSTANCE_ID,
                            EVENT_GROUP,
                            NOTIFIER_ID,
                            MajorVersion(MAJOR)
                        ),
                        EngineCall::Subscribe {
                            service: 0x4711,
                            instance: 42,
                            event_group: 8,
                            notifier: 0x8002,
                            major: 3
                        }
                    );
                    subscribed = true;
                }
            }
            Ok(VSomeipMessage::Message(MessageType::Notification { header, data, .. })) => {
                if header.service_id == SERVICE_ID && header.method_id == NOTIFIER_ID {
                    notific_counter += 1;
                    let datab = data.as_bytes_ref().as_ref();
                    assert_eq!(datab.len(), 4);
                    let seen = be32(datab);
                    assert!(seen >= counter);
                    assert_eq!(seen, counter + 1);
                    counter = seen;
                    if counter == MAX_COUNT_NOTIFICATION {
                        break;
                    }
                }
            }
            Ok(VSomeipMessage::Message(_)) => {}
            Err(_) => panic!("the channel ran dry before the last notification"),
        }
    }
    assert!(subscribed);
    assert_eq!(counter, MAX_COUNT_NOTIFICATION);
    assert_eq!(notific_counter, 50);
    assert!(matches!(crecv.try_recv(), Err(TryRecvError::Empty)));
    assert_eq!(
        capp.release_event(SERVICE_ID, INSTANCE_ID, NOTIFIER_ID),
        EngineCall::ReleaseEvent { service: 0x4711, instance: 42, notifier: 0x8002 }
    );
    assert_eq!(
        capp.release_service(SERVICE_ID, INSTANCE_ID, version),
        EngineCall::ReleaseService { service: 0x4711, instance: 42, major: 3 }
    );
}
