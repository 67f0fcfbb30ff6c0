use bytes::Bytes;
use tokio::sync::mpsc::error::TryRecvError;
use tokio::sync::mpsc::unbounded_channel;
use vsomeiprs::bridge::{
    avail_handler, availability_event, can_bridge, inbound_message, message_handler2,
    push_outcome, state_event, state_handler, Outcome,
};
use vsomeiprs::header::NativeHeader;
use vsomeiprs::ids::{any_minor_version, SessionID};
use vsomeiprs::message::{MessageType, VSomeipMessage};
use vsomeiprs::payload::{payload_to_bytes, NativePayload, VSomeipPayload};
use vsomeiprs::return_code::ReturnCode;

fn native(message_type: u8) -> NativeHeader {
    NativeHeader {
        service: 0x002a,
        instance: 101,
        method: 0x0002,
        client: 0x0001,
        session: 0x0007,
        if_version: 2,
        message_type,
        return_code: 0x00,
        is_reliable: false,
        is_initial: false,
    }
}

#[test]
fn empty_payload_is_an_empty_view() {
    assert_eq!(payload_to_bytes(NativePayload::Null).len(), 0);
    assert_eq!(payload_to_bytes(NativePayload::NoData).len(), 0);
    assert_eq!(payload_to_bytes(NativePayload::Data(Bytes::new())).len(), 0);
    let p = VSomeipPayload::from(NativePayload::Null);
    assert!(p.as_bytes_ref().is_empty());
    let p = VSomeipPayload::from(NativePayload::NoData);
    assert_eq!(p.as_bytes_ref().as_ref(), &[] as &[u8]);
    let p = VSomeipPayload::from(NativePayload::Data(Bytes::from_static(b"")));
    assert_eq!(p.as_bytes_ref().as_ref(), &[] as &[u8]);
}

#[test]
fn payload_shows_the_octets() {
    let p = VSomeipPayload::from(NativePayload::Data(Bytes::from_static(&[1, 2, 3, 0xff])));
    assert_eq!(p.as_bytes_ref().as_ref(), &[1u8, 2, 3, 0xff]);
    assert_eq!(p.as_bytes_ref().len(), 4);
    let b = payload_to_bytes(NativePayload::Data(Bytes::copy_from_slice(&[9, 8])));
    assert_eq!(b.as_ref(), &[9u8, 8]);
}

#[test]
fn state_callback_pushes_registration_state() {
    let (tx, mut rx) = unbounded_channel::<VSomeipMessage>();
    assert!(matches!(state_handler(0, &tx), Outcome::Queued));
    assert!(matches!(state_handler(1, &tx), Outcome::Queued));
    assert!(matches!(rx.try_recv(), Ok(VSomeipMessage::RegistrationState(true))));
    assert!(matches!(rx.try_recv(), Ok(VSomeipMessage::RegistrationState(false))));
    assert!(matches!(rx.try_recv(), Err(TryRecvError::Empty)));
    assert!(matches!(state_event(0), VSomeipMessage::RegistrationState(true)));
    assert!(matches!(state_event(7), VSomeipMessage::RegistrationState(false)));
}

#[test]
fn availability_callback_pushes_availability() {
    let (tx, mut rx) = unbounded_channel::<VSomeipMessage>();
    assert!(matches!(avail_handler(0x002a, 101, 2, &tx), Outcome::Queued));
    assert!(matches!(avail_handler(0x002a, 101, 0, &tx), Outcome::Queued));
    assert!(matches!(avail_handler(0x002b, 5, 1, &tx), Outcome::Queued));
    assert!(matches!(
        rx.try_recv(),
        Ok(VSomeipMessage::ServiceAvailability { service_id: 0x002a, instance_id: 101, avail: true })
    ));
    assert!(matches!(
        rx.try_recv(),
        Ok(VSomeipMessage::ServiceAvailability { service_id: 0x002a, instance_id: 101, avail: false })
    ));
    assert!(matches!(
        rx.try_recv(),
        Ok(VSomeipMessage::ServiceAvailability { service_id: 0x002b, instance_id: 5, avail: false })
    ));
    assert!(matches!(
        availability_event(1, 2, 0xff),
        VSomeipMessage::ServiceAvailability { service_id: 1, instance_id: 2, avail: false }
    ));
}

#[test]
fn closed_channel_is_reported() {
    let (tx, rx) = unbounded_channel::<VSomeipMessage>();
    drop(rx);
    assert!(matches!(
        state_handler(0, &tx),
        Outcome::Closed(VSomeipMessage::RegistrationState(true))
    ));
    assert!(matches!(
        avail_handler(1, 3, 2, &tx),
        Outcome::Closed(VSomeipMessage::ServiceAvailability {
            service_id: 1,
            instance_id: 3,
            avail: true
        })
    ));
    match message_handler2(&native(0x00), NativePayload::Data(Bytes::from_static(b"lost")), &tx) {
        Outcome::Closed(VSomeipMessage::Message(MessageType::Request { header, data })) => {
            assert_eq!(header.session_id, SessionID(7));
            assert_eq!(data.as_bytes_ref().as_ref(), b"lost");
        }
        _ => panic!("expected the request back"),
    }
    assert!(matches!(
        message_handler2(&native(0x40), NativePayload::Null, &tx),
        Outcome::Filtered
    ));
    assert!(matches!(push_outcome(Ok(())), Outcome::Queued));
    assert!(matches!(
        push_outcome(Err(VSomeipMessage::RegistrationState(false))),
        Outcome::Closed(VSomeipMessage::RegistrationState(false))
    ));
}

#[test]
fn message_kinds_become_typed_messages() {
    let (tx, mut rx) = unbounded_channel::<VSomeipMessage>();
    let data = || NativePayload::Data(Bytes::from_static(&[0xde, 0xad]));
    assert!(matches!(message_handler2(&native(0x00), data(), &tx), Outcome::Queued));
    assert!(matches!(message_handler2(&native(0x01), data(), &tx), Outcome::Queued));
    let mut n = native(0x02);
    n.is_initial = true;
    assert!(matches!(message_handler2(&n, data(), &tx), Outcome::Queued));
    assert!(matches!(message_handler2(&native(0x80), data(), &tx), Outcome::Queued));
    let mut e = native(0x81);
    e.return_code = 0x04;
    assert!(matches!(message_handler2(&e, NativePayload::Null, &tx), Outcome::Queued));

    match rx.try_recv() {
        Ok(VSomeipMessage::Message(MessageType::Request { header, data })) => {
            assert_eq!(header.service_id.id(), 0x002a);
            assert_eq!(header.instance_id.id(), 101);
            assert_eq!(header.method_id.id(), 2);
            assert_eq!(header.client_id.id(), 1);
            assert_eq!(header.session_id, SessionID(7));
            assert_eq!(header.interface_version.major.id(), 2);
            assert_eq!(header.interface_version.minor, any_minor_version());
            assert!(!header.reliable);
            assert_eq!(data.as_bytes_ref().as_ref(), &[0xdeu8, 0xad]);
        }
        _ => panic!("expected a request"),
    }
    assert!(matches!(
        rx.try_recv(),
        Ok(VSomeipMessage::Message(MessageType::RequestNoReturn { .. }))
    ));
    assert!(matches!(
        rx.try_recv(),
        Ok(VSomeipMessage::Message(MessageType::Notification { is_initial: true, .. }))
    ));
    assert!(matches!(rx.try_recv(), Ok(VSomeipMessage::Message(MessageType::Response { .. }))));
    match rx.try_recv() {
        Ok(VSomeipMessage::Message(MessageType::Error { return_code, data, .. })) => {
            assert_eq!(return_code, ReturnCode::NotReady);
            assert!(data.as_bytes_ref().is_empty());
        }
        _ => panic!("expected an error"),
    }
    assert!(matches!(rx.try_recv(), Err(TryRecvError::Empty)));
}

#[test]
fn acknowledgments_are_never_surfaced() {
    let (tx, mut rx) = unbounded_channel::<VSomeipMessage>();
    for kind in [0x40u8, 0x41, 0x42, 0xc0, 0xc1, 0xff] {
        assert!(can_bridge(&native(kind)));
        assert!(inbound_message(&native(kind), NativePayload::Null).is_none());
        let out = message_handler2(&native(kind), NativePayload::Data(Bytes::from_static(b"x")), &tx);
        assert!(matches!(out, Outcome::Filtered));
        assert!(matches!(rx.try_recv(), Err(TryRecvError::Empty)));
    }
}

#[test]
fn headers_the_bridge_cannot_work_on() {
    for kind in [0x00u8, 0x01, 0x02, 0x80, 0x81] {
        assert!(can_bridge(&native(kind)));
        assert!(inbound_message(&native(kind), NativePayload::Null).is_some());
    }
    for kind in [0x03u8, 0x3f, 0x43, 0x7f, 0x82, 0xc2, 0xfe] {
        assert!(!can_bridge(&native(kind)));
    }
    let mut e = native(0x81);
    e.return_code = 0x0b;
    assert!(!can_bridge(&e));
    e.return_code = 0xff;
    assert!(can_bridge(&e));
    let mut r = native(0x80);
    r.return_code = 0x0b;
    assert!(can_bridge(&r));
}

#[test]
fn message_display() {
    let data = NativePayload::Data(Bytes::from_static(&[1, 2, 0x41]));
    let m = inbound_message(&native(0x00), data).unwrap();
    assert_eq!(m.to_string(), "REQUEST 002a.0065.0002-2.- (0001:0007): [b\"\\x01\\x02A\"]");
    assert_eq!(m.render("payload"), "REQUEST 002a.0065.0002-2.- (0001:0007): [payload]");
    assert_eq!(m.payload().as_bytes_ref().as_ref(), &[1u8, 2, 0x41]);
    let m = inbound_message(&native(0x01), NativePayload::Null).unwrap();
    assert_eq!(m.to_string(), "REQUEST(FF) 002a.0065.0002-2.- (0001:0007): [b\"\"]");
    let m = inbound_message(&native(0x80), NativePayload::NoData).unwrap();
    assert_eq!(m.to_string(), "RESPONSE 002a.0065.0002-2.- (0001:0007): [b\"\"]");
    let m = inbound_message(&native(0x02), NativePayload::Null).unwrap();
    assert_eq!(m.render(""), "NOTIFICATION 002a.0065.0002-2.- (0001:0007): []");
    let mut e = native(0x81);
    e.return_code = 0x09;
    let m = inbound_message(&e, NativePayload::Null).unwrap();
    assert_eq!(
        m.to_string(),
        "RESPONSE 002a.0065.0002-2.- (0001:0007) (MALFORMED_MESSAGE): [b\"\"]"
    );
}

#[test]
fn notifications_arrive_once_and_in_order() {
    let (tx, mut rx) = unbounded_channel::<VSomeipMessage>();
    for counter in 1u32..=50 {
        let mut n = native(0x02);
        n.method = 0x8001;
        n.is_initial = counter == 1;
        let data = NativePayload::Data(Bytes::copy_from_slice(&counter.to_be_bytes()));
        assert!(matches!(message_handler2(&n, data, &tx), Outcome::Queued));
    }
    let mut expected = 1u32;
    loop {
        match rx.try_recv() {
            Ok(VSomeipMessage::Message(MessageType::Notification { header, is_initial, data })) => {
                assert_eq!(header.method_id.id(), 0x8001);
                let octets = data.as_bytes_ref().as_ref();
                assert_eq!(octets.len(), 4);
                let counter = u32::from_be_bytes([octets[0], octets[1], octets[2], octets[3]]);
                assert_eq!(counter, expected);
                assert_eq!(is_initial, counter == 1);
                expected += 1;
            }
            Ok(_) => panic!("unexpected event"),
            Err(TryRecvError::Empty) => break,
            Err(TryRecvError::Disconnected) => panic!("channel closed"),
        }
    }
    assert_eq!(expected, 51);
}
