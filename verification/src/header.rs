//! The header that every message carries, as the application sees it and as
//! the engine hands it over.

use crate::ids::{ClientID, InstanceID, MajorVersion, MethodID, MinorVersion, ServiceID, SessionID};
use crate::text::{hex4, push_hex4};
use crate::version::InterfaceVersion;
use vstd::prelude::*;
use vstd::string::StringExecFns;

verus! {

/// The header of an inbound message in the engine's own terms: plain numbers,
/// with the kind of the message and its return code as octets.
#[derive(PartialEq, Eq, Structural, Debug, Clone, Copy)]
pub struct NativeHeader {
    pub service: u16,
    pub instance: u16,
    pub method: u16,
    pub client: u16,
    pub session: u16,
    pub if_version: u8,
    pub message_type: u8,
    pub return_code: u8,
    pub is_reliable: bool,
    pub is_initial: bool,
}

/// Common elements of every message received or sent. Not all elements are
/// always meaningful or required.
#[derive(PartialEq, Eq, Structural, PartialOrd, Ord, Debug, Clone, Copy)]
pub struct MessageHeader {
    /// The service interface.
    pub service_id: ServiceID,
    /// The service instance.
    pub instance_id: InstanceID,
    /// The method within the service interface; for events, the notifier.
    pub method_id: MethodID,
    /// The requesting application. The engine fills it in on send.
    pub client_id: ClientID,
    /// Pairs a request with its response or error. The engine assigns it when
    /// a request is sent; a response or error repeats the request's session.
    pub session_id: SessionID,
    /// Version of the service interface. An inbound message shows the major
    /// part only.
    pub interface_version: InterfaceVersion,
    /// Whether the message travels on the reliable transport.
    pub reliable: bool,
}

/// The application's header for an engine header: the same numbers under
/// their types, the major version alone, and the transport.
pub open spec fn header_of(hdr: NativeHeader) -> MessageHeader {
    MessageHeader {
        service_id: ServiceID(hdr.service),
        instance_id: InstanceID(hdr.instance),
        method_id: MethodID(hdr.method),
        client_id: ClientID(hdr.client),
        session_id: SessionID(hdr.session),
        interface_version: InterfaceVersion {
            major: MajorVersion(hdr.if_version),
            minor: MinorVersion(0xffff_ffff),
        },
        reliable: hdr.is_reliable,
    }
}

/// Builds the application's header from the engine's.
pub fn make_header(hdr: &NativeHeader) -> (r: MessageHeader)
    ensures
        r == header_of(*hdr),
{
    MessageHeader {
        service_id: ServiceID::from(hdr.service),
        instance_id: InstanceID::from(hdr.instance),
        method_id: MethodID::from(hdr.method),
        client_id: ClientID::from(hdr.client),
        session_id: SessionID::from(hdr.session),
        interface_version: InterfaceVersion::make_major(hdr.if_version),
        reliable: hdr.is_reliable,
    }
}

impl MessageHeader {
    /// The text `service.instance.method-version (client:session)`, the
    /// identifiers in hexadecimal.
    pub open spec fn text(&self) -> Seq<char> {
        hex4(self.service_id.0) + "."@ + hex4(self.instance_id.0) + "."@ + hex4(self.method_id.0)
            + "-"@ + self.interface_version.text() + " ("@ + hex4(self.client_id.0) + ":"@ + hex4(
            self.session_id.0,
        ) + ")"@
    }

    /// Appends the header's text to `out`.
    pub fn push_to(&self, out: &mut String)
        ensures
            final(out)@ == old(out)@ + self.text(),
    {
        push_hex4(out, self.service_id.0);
        out.append(".");
        push_hex4(out, self.instance_id.0);
        out.append(".");
        push_hex4(out, self.method_id.0);
        out.append("-");
        self.interface_version.push_to(out);
        out.append(" (");
        push_hex4(out, self.client_id.0);
        out.append(":");
        push_hex4(out, self.session_id.0);
        out.append(")");
        assert(out@ =~= old(out)@ + self.text());
    }

    /// The header's text.
    pub fn to_string(&self) -> (r: String)
        ensures
            r@ == self.text(),
    {
        let mut out = String::new();
        self.push_to(&mut out);
        assert(out@ =~= self.text());
        out
    }
}

} // verus!
