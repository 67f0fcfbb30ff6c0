//! Payload buffers: what the engine attaches to an inbound message, and the
//! byte view that the application gets of it.

use bytes::Bytes;
use vstd::prelude::*;

verus! {

/// The byte buffer of the `bytes` crate, known only by the octets it shows.
#[verifier::external_type_specification]
#[verifier::external_body]
pub struct ExBytes(bytes::Bytes);

/// The octets that a `bytes::Bytes` gives access to, in order: what its
/// `Deref` to a slice shows.
pub uninterp spec fn bytes_contents(b: Bytes) -> Seq<u8>;

/// `Bytes::new`: the source builds the handle over an empty static slice, so
/// it shows no octet.
pub assume_specification[ Bytes::new ]() -> (r: Bytes)
    ensures
        bytes_contents(r) == Seq::<u8>::empty(),
;

/// `Bytes::len`: the source returns the length field, which is the length of
/// the slice that the handle shows.
pub assume_specification[ Bytes::len ](b: &Bytes) -> (r: usize)
    ensures
        r == bytes_contents(*b).len(),
;

/// `Bytes::clone`: the copy is a second handle on the same octets.
pub assume_specification[ <Bytes as Clone>::clone ](b: &Bytes) -> (r: Bytes)
    ensures
        bytes_contents(r) == bytes_contents(*b),
;

/// The text that the `Debug` form of a `bytes::Bytes` with these octets has:
/// a byte string literal, with escapes for what is not printable.
pub uninterp spec fn bytes_debug_text(contents: Seq<u8>) -> Seq<char>;

/// `Debug` of `bytes::Bytes`: the source formats the slice that the handle
/// shows, octet by octet, so the text depends on the octets alone.
#[verifier::external_body]
pub(crate) fn debug_text(b: &Bytes) -> (r: String)
    ensures
        r@ == bytes_debug_text(bytes_contents(*b)),
{
    format!("{:?}", b)
}

/// What the engine attaches to an inbound message.
pub enum NativePayload {
    /// No payload object at all.
    Null,
    /// A payload object without data behind it.
    NoData,
    /// A payload object with these octets behind it.
    Data(Bytes),
}

impl View for NativePayload {
    type V = Seq<u8>;

    open spec fn view(&self) -> Seq<u8> {
        match self {
            NativePayload::Null => Seq::empty(),
            NativePayload::NoData => Seq::empty(),
            NativePayload::Data(b) => bytes_contents(*b),
        }
    }
}

/// The byte view of what the engine attached. A missing payload, one without
/// data and one of length zero all give the empty view; none is an error.
pub fn payload_to_bytes(payload: NativePayload) -> (r: Bytes)
    ensures
        bytes_contents(r) == payload@,
{
    match payload {
        NativePayload::Null => Bytes::new(),
        NativePayload::NoData => Bytes::new(),
        NativePayload::Data(b) => {
            if b.len() == 0 {
                assert(bytes_contents(b) =~= Seq::<u8>::empty());
                Bytes::new()
            } else {
                b
            }
        },
    }
}

/// The payload of an inbound message.
#[derive(Debug)]
pub struct VSomeipPayload {
    bytes: Bytes,
}

impl View for VSomeipPayload {
    type V = Seq<u8>;

    closed spec fn view(&self) -> Seq<u8> {
        bytes_contents(self.bytes)
    }
}

impl VSomeipPayload {
    /// Takes over what the engine attached to a message.
    pub fn from(value: NativePayload) -> (r: Self)
        ensures
            r@ == value@,
    {
        VSomeipPayload { bytes: payload_to_bytes(value) }
    }

    /// Returns the data within the payload as `Bytes` reference. This involves
    /// no copying; the reference lives no longer than the payload.
    pub fn as_bytes_ref(&self) -> (r: &Bytes)
        ensures
            bytes_contents(*r) == self@,
    {
        &self.bytes
    }
}

} // verus!
