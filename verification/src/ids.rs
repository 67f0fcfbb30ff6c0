//! Typed identifiers and version numbers. Each wraps one number; equality and
//! order are those of the number, and the reserved values take part in them
//! like any other.

use crate::text::{hex4, push_hex4};
use vstd::prelude::*;
use vstd::std_specs::convert::{FromSpec, FromSpecImpl};

verus! {

/// Identifier of a service interface.
#[derive(PartialEq, Eq, Structural, PartialOrd, Ord, Debug, Clone, Copy)]
pub struct ServiceID(pub u16);

impl ServiceID {
    /// The number inside.
    pub fn id(&self) -> (r: u16)
        ensures
            r == self.0,
    {
        self.0
    }

    /// Four lower-case hexadecimal digits.
    pub fn to_string(&self) -> (r: String)
        ensures
            r@ == hex4(self.0),
    {
        let mut out = String::new();
        push_hex4(&mut out, self.0);
        out
    }
}

impl From<u16> for ServiceID {
    fn from(id: u16) -> (r: Self)
        ensures
            r == ServiceID(id),
    {
        ServiceID(id)
    }
}

impl FromSpecImpl<u16> for ServiceID {
    open spec fn obeys_from_spec() -> bool {
        true
    }

    open spec fn from_spec(id: u16) -> Self {
        ServiceID(id)
    }
}

/// Identifier of one instance of a service.
#[derive(PartialEq, Eq, Structural, PartialOrd, Ord, Debug, Clone, Copy)]
pub struct InstanceID(pub u16);

impl InstanceID {
    /// The number inside.
    pub fn id(&self) -> (r: u16)
        ensures
            r == self.0,
    {
        self.0
    }

    /// Four lower-case hexadecimal digits.
    pub fn to_string(&self) -> (r: String)
        ensures
            r@ == hex4(self.0),
    {
        let mut out = String::new();
        push_hex4(&mut out, self.0);
        out
    }
}

impl From<u16> for InstanceID {
    fn from(id: u16) -> (r: Self)
        ensures
            r == InstanceID(id),
    {
        InstanceID(id)
    }
}

impl FromSpecImpl<u16> for InstanceID {
    open spec fn obeys_from_spec() -> bool {
        true
    }

    open spec fn from_spec(id: u16) -> Self {
        InstanceID(id)
    }
}

/// Identifier of a method within a service; for events also called the notifier.
#[derive(PartialEq, Eq, Structural, PartialOrd, Ord, Debug, Clone, Copy)]
pub struct MethodID(pub u16);

impl MethodID {
    /// The number inside.
    pub fn id(&self) -> (r: u16)
        ensures
            r == self.0,
    {
        self.0
    }

    /// Four lower-case hexadecimal digits.
    pub fn to_string(&self) -> (r: String)
        ensures
            r@ == hex4(self.0),
    {
        let mut out = String::new();
        push_hex4(&mut out, self.0);
        out
    }
}

impl From<u16> for MethodID {
    fn from(id: u16) -> (r: Self)
        ensures
            r == MethodID(id),
    {
        MethodID(id)
    }
}

impl FromSpecImpl<u16> for MethodID {
    open spec fn obeys_from_spec() -> bool {
        true
    }

    open spec fn from_spec(id: u16) -> Self {
        MethodID(id)
    }
}

/// Identifier of an event group, the unit of subscription.
#[derive(PartialEq, Eq, Structural, PartialOrd, Ord, Debug, Clone, Copy)]
pub struct EventGroupID(pub u16);

impl EventGroupID {
    /// The number inside.
    pub fn id(&self) -> (r: u16)
        ensures
            r == self.0,
    {
        self.0
    }

    /// Four lower-case hexadecimal digits.
    pub fn to_string(&self) -> (r: String)
        ensures
            r@ == hex4(self.0),
    {
        let mut out = String::new();
        push_hex4(&mut out, self.0);
        out
    }
}

impl From<u16> for EventGroupID {
    fn from(id: u16) -> (r: Self)
        ensures
            r == EventGroupID(id),
    {
        EventGroupID(id)
    }
}

impl FromSpecImpl<u16> for EventGroupID {
    open spec fn obeys_from_spec() -> bool {
        true
    }

    open spec fn from_spec(id: u16) -> Self {
        EventGroupID(id)
    }
}

/// Token that pairs a request with its response or error.
#[derive(PartialEq, Eq, Structural, PartialOrd, Ord, Debug, Clone, Copy)]
pub struct SessionID(pub u16);

impl SessionID {
    /// The number inside.
    pub fn id(&self) -> (r: u16)
        ensures
            r == self.0,
    {
        self.0
    }

    /// Four lower-case hexadecimal digits.
    pub fn to_string(&self) -> (r: String)
        ensures
            r@ == hex4(self.0),
    {
        let mut out = String::new();
        push_hex4(&mut out, self.0);
        out
    }
}

impl From<u16> for SessionID {
    fn from(id: u16) -> (r: Self)
        ensures
            r == SessionID(id),
    {
        SessionID(id)
    }
}

impl FromSpecImpl<u16> for SessionID {
    open spec fn obeys_from_spec() -> bool {
        true
    }

    open spec fn from_spec(id: u16) -> Self {
        SessionID(id)
    }
}

/// Identifier of a requesting application.
#[derive(PartialEq, Eq, Structural, PartialOrd, Ord, Debug, Clone, Copy)]
pub struct ClientID(pub u16);

impl ClientID {
    /// The number inside.
    pub fn id(&self) -> (r: u16)
        ensures
            r == self.0,
    {
        self.0
    }

    /// Four lower-case hexadecimal digits.
    pub fn to_string(&self) -> (r: String)
        ensures
            r@ == hex4(self.0),
    {
        let mut out = String::new();
        push_hex4(&mut out, self.0);
        out
    }
}

impl From<u16> for ClientID {
    fn from(id: u16) -> (r: Self)
        ensures
            r == ClientID(id),
    {
        ClientID(id)
    }
}

impl FromSpecImpl<u16> for ClientID {
    open spec fn obeys_from_spec() -> bool {
        true
    }

    open spec fn from_spec(id: u16) -> Self {
        ClientID(id)
    }
}

/// Major part of a service interface version.
#[derive(PartialEq, Eq, Structural, PartialOrd, Ord, Debug, Clone, Copy)]
pub struct MajorVersion(pub u8);

impl MajorVersion {
    /// The number inside.
    pub fn id(&self) -> (r: u8)
        ensures
            r == self.0,
    {
        self.0
    }
}

impl From<u8> for MajorVersion {
    fn from(id: u8) -> (r: Self)
        ensures
            r == MajorVersion(id),
    {
        MajorVersion(id)
    }
}

impl FromSpecImpl<u8> for MajorVersion {
    open spec fn obeys_from_spec() -> bool {
        true
    }

    open spec fn from_spec(id: u8) -> Self {
        MajorVersion(id)
    }
}

/// Minor part of a service interface version.
#[derive(PartialEq, Eq, Structural, PartialOrd, Ord, Debug, Clone, Copy)]
pub struct MinorVersion(pub u32);

impl MinorVersion {
    /// The number inside.
    pub fn id(&self) -> (r: u32)
        ensures
            r == self.0,
    {
        self.0
    }
}

impl From<u32> for MinorVersion {
    fn from(id: u32) -> (r: Self)
        ensures
            r == MinorVersion(id),
    {
        MinorVersion(id)
    }
}

impl FromSpecImpl<u32> for MinorVersion {
    open spec fn obeys_from_spec() -> bool {
        true
    }

    open spec fn from_spec(id: u32) -> Self {
        MinorVersion(id)
    }
}

/// Version of the protocol itself.
#[derive(PartialEq, Eq, Structural, PartialOrd, Ord, Debug, Clone, Copy)]
pub struct ProtocolVersion(pub u8);

impl ProtocolVersion {
    /// The number inside.
    pub fn id(&self) -> (r: u8)
        ensures
            r == self.0,
    {
        self.0
    }
}

impl From<u8> for ProtocolVersion {
    fn from(id: u8) -> (r: Self)
        ensures
            r == ProtocolVersion(id),
    {
        ProtocolVersion(id)
    }
}

impl FromSpecImpl<u8> for ProtocolVersion {
    open spec fn obeys_from_spec() -> bool {
        true
    }

    open spec fn from_spec(id: u8) -> Self {
        ProtocolVersion(id)
    }
}

/// Stands for every service.
pub open spec fn spec_any_service() -> ServiceID {
    ServiceID(0xffff)
}

/// Stands for every service.
#[verifier::when_used_as_spec(spec_any_service)]
pub fn any_service() -> (r: ServiceID)
    ensures
        r == spec_any_service(),
{
    ServiceID(0xffff)
}

/// Stands for every instance.
pub open spec fn spec_any_instance() -> InstanceID {
    InstanceID(0xffff)
}

/// Stands for every instance.
#[verifier::when_used_as_spec(spec_any_instance)]
pub fn any_instance() -> (r: InstanceID)
    ensures
        r == spec_any_instance(),
{
    InstanceID(0xffff)
}

/// Stands for every method.
pub open spec fn spec_any_method() -> MethodID {
    MethodID(0xffff)
}

/// Stands for every method.
#[verifier::when_used_as_spec(spec_any_method)]
pub fn any_method() -> (r: MethodID)
    ensures
        r == spec_any_method(),
{
    MethodID(0xffff)
}

/// The session of a message that belongs to no exchange.
pub open spec fn spec_no_session() -> SessionID {
    SessionID(0x0000)
}

/// The session of a message that belongs to no exchange.
#[verifier::when_used_as_spec(spec_no_session)]
pub fn no_session() -> (r: SessionID)
    ensures
        r == spec_no_session(),
{
    SessionID(0x0000)
}

/// The client of a message whose sender is not known; the engine fills it in on send.
pub open spec fn spec_unknown_client() -> ClientID {
    ClientID(0x0000)
}

/// The client of a message whose sender is not known; the engine fills it in on send.
#[verifier::when_used_as_spec(spec_unknown_client)]
pub fn unknown_client() -> (r: ClientID)
    ensures
        r == spec_unknown_client(),
{
    ClientID(0x0000)
}

/// Stands for every major version.
pub open spec fn spec_any_major_version() -> MajorVersion {
    MajorVersion(0xff)
}

/// Stands for every major version.
#[verifier::when_used_as_spec(spec_any_major_version)]
pub fn any_major_version() -> (r: MajorVersion)
    ensures
        r == spec_any_major_version(),
{
    MajorVersion(0xff)
}

/// Stands for every minor version.
pub open spec fn spec_any_minor_version() -> MinorVersion {
    MinorVersion(0xffff_ffff)
}

/// Stands for every minor version.
#[verifier::when_used_as_spec(spec_any_minor_version)]
pub fn any_minor_version() -> (r: MinorVersion)
    ensures
        r == spec_any_minor_version(),
{
    MinorVersion(0xffff_ffff)
}

/// Wrapping a number and reading it back gives the number, for every
/// identifier and version type.
pub proof fn lemma_id_round_trip(v16: u16, v8: u8, v32: u32)
    ensures
        <ServiceID as FromSpec<u16>>::from_spec(v16).0 == v16,
        <InstanceID as FromSpec<u16>>::from_spec(v16).0 == v16,
        <MethodID as FromSpec<u16>>::from_spec(v16).0 == v16,
        <EventGroupID as FromSpec<u16>>::from_spec(v16).0 == v16,
        <SessionID as FromSpec<u16>>::from_spec(v16).0 == v16,
        <ClientID as FromSpec<u16>>::from_spec(v16).0 == v16,
        <MajorVersion as FromSpec<u8>>::from_spec(v8).0 == v8,
        <MinorVersion as FromSpec<u32>>::from_spec(v32).0 == v32,
        <ProtocolVersion as FromSpec<u8>>::from_spec(v8).0 == v8,
{
}

/// A reserved value equals the identifier made from its own number and
/// differs from every identifier made from another number.
pub proof fn lemma_sentinel_equality(v16: u16, v8: u8, v32: u32)
    ensures
        any_service() == ServiceID(v16) <==> v16 == 0xffff,
        any_instance() == InstanceID(v16) <==> v16 == 0xffff,
        any_method() == MethodID(v16) <==> v16 == 0xffff,
        no_session() == SessionID(v16) <==> v16 == 0,
        unknown_client() == ClientID(v16) <==> v16 == 0,
        any_major_version() == MajorVersion(v8) <==> v8 == 0xff,
        any_minor_version() == MinorVersion(v32) <==> v32 == 0xffff_ffff,
{
}

} // verus!
