//! Return codes of responses and errors, and their one-octet form on the
//! engine's side.

use vstd::prelude::*;

verus! {

pub const E_OK: u8 = 0x00;

pub const E_NOT_OK: u8 = 0x01;

pub const E_UNKNOWN_SERVICE: u8 = 0x02;

pub const E_UNKNOWN_METHOD: u8 = 0x03;

pub const E_NOT_READY: u8 = 0x04;

pub const E_NOT_REACHABLE: u8 = 0x05;

pub const E_TIMEOUT: u8 = 0x06;

pub const E_WRONG_PROTOCOL_VERSION: u8 = 0x07;

pub const E_WRONG_INTERFACE_VERSION: u8 = 0x08;

pub const E_MALFORMED_MESSAGE: u8 = 0x09;

pub const E_WRONG_MESSAGE_TYPE: u8 = 0x0a;

pub const E_UNKNOWN: u8 = 0xff;

/// Return code of a response or an error message.
#[derive(PartialEq, Eq, Structural, PartialOrd, Ord, Debug, Clone, Copy)]
pub enum ReturnCode {
    Okay,
    NotOk,
    UnknownService,
    UnknownMethod,
    NotReady,
    NotReachable,
    Timeout,
    WrongProtocolVersion,
    WrongInterfaceVersion,
    MalformedMessage,
    WrongMessageType,
    Unknown,
}

impl ReturnCode {
    /// Whether an application may put this code into a message it sends. The
    /// codes that only the engine detects are for receiving alone.
    pub open spec fn sendable(&self) -> bool {
        !(*self == ReturnCode::NotReachable || *self == ReturnCode::Timeout || *self
            == ReturnCode::UnknownService || *self == ReturnCode::WrongInterfaceVersion || *self
            == ReturnCode::WrongProtocolVersion)
    }

    /// The octet that stands for this code on the engine's side.
    pub open spec fn wire(&self) -> u8 {
        match self {
            ReturnCode::Okay => E_OK,
            ReturnCode::NotOk => E_NOT_OK,
            ReturnCode::UnknownService => E_UNKNOWN_SERVICE,
            ReturnCode::UnknownMethod => E_UNKNOWN_METHOD,
            ReturnCode::NotReady => E_NOT_READY,
            ReturnCode::NotReachable => E_NOT_REACHABLE,
            ReturnCode::Timeout => E_TIMEOUT,
            ReturnCode::WrongProtocolVersion => E_WRONG_PROTOCOL_VERSION,
            ReturnCode::WrongInterfaceVersion => E_WRONG_INTERFACE_VERSION,
            ReturnCode::MalformedMessage => E_MALFORMED_MESSAGE,
            ReturnCode::WrongMessageType => E_WRONG_MESSAGE_TYPE,
            ReturnCode::Unknown => E_UNKNOWN,
        }
    }

    /// The code's name in capitals.
    pub open spec fn text(&self) -> Seq<char> {
        match self {
            ReturnCode::Okay => "OK"@,
            ReturnCode::NotOk => "NOT_OK"@,
            ReturnCode::UnknownService => "UNKNOWN_SERVICE"@,
            ReturnCode::UnknownMethod => "UNKNOWN_METHOD"@,
            ReturnCode::NotReady => "NOT_READY"@,
            ReturnCode::NotReachable => "NOT_REACHABLE"@,
            ReturnCode::Timeout => "TIMEOUT"@,
            ReturnCode::WrongProtocolVersion => "WRONG_PROTOCOL_VERSION"@,
            ReturnCode::WrongInterfaceVersion => "WRONG_INTERFACE_VERSION"@,
            ReturnCode::MalformedMessage => "MALFORMED_MESSAGE"@,
            ReturnCode::WrongMessageType => "WRONG_MESSAGE_TYPE"@,
            ReturnCode::Unknown => "UNKNOWN"@,
        }
    }

    /// Returns whether an application is allowed to send the return code in a
    /// response.
    pub fn can_be_sent(&self) -> (r: bool)
        ensures
            r == self.sendable(),
            !r <==> (*self == ReturnCode::NotReachable || *self == ReturnCode::Timeout || *self
                == ReturnCode::UnknownService || *self == ReturnCode::WrongInterfaceVersion
                || *self == ReturnCode::WrongProtocolVersion),
    {
        match self {
            ReturnCode::NotReachable => false,
            ReturnCode::Timeout => false,
            ReturnCode::UnknownService => false,
            ReturnCode::WrongInterfaceVersion => false,
            ReturnCode::WrongProtocolVersion => false,
            _ => true,
        }
    }

    /// The name of the code.
    pub fn name(&self) -> (r: &'static str)
        ensures
            r@ == self.text(),
    {
        match self {
            ReturnCode::Okay => "OK",
            ReturnCode::NotOk => "NOT_OK",
            ReturnCode::UnknownService => "UNKNOWN_SERVICE",
            ReturnCode::UnknownMethod => "UNKNOWN_METHOD",
            ReturnCode::NotReady => "NOT_READY",
            ReturnCode::NotReachable => "NOT_REACHABLE",
            ReturnCode::Timeout => "TIMEOUT",
            ReturnCode::WrongProtocolVersion => "WRONG_PROTOCOL_VERSION",
            ReturnCode::WrongInterfaceVersion => "WRONG_INTERFACE_VERSION",
            ReturnCode::MalformedMessage => "MALFORMED_MESSAGE",
            ReturnCode::WrongMessageType => "WRONG_MESSAGE_TYPE",
            ReturnCode::Unknown => "UNKNOWN",
        }
    }

    /// The name of the code, as an owned string.
    pub fn to_string(&self) -> (r: String)
        ensures
            r@ == self.text(),
    {
        self.name().to_owned()
    }
}

/// The return code that an octet stands for, if it stands for one.
pub open spec fn return_code_of(rt: u8) -> Option<ReturnCode> {
    if rt == E_OK {
        Some(ReturnCode::Okay)
    } else if rt == E_NOT_OK {
        Some(ReturnCode::NotOk)
    } else if rt == E_UNKNOWN_SERVICE {
        Some(ReturnCode::UnknownService)
    } else if rt == E_UNKNOWN_METHOD {
        Some(ReturnCode::UnknownMethod)
    } else if rt == E_NOT_READY {
        Some(ReturnCode::NotReady)
    } else if rt == E_NOT_REACHABLE {
        Some(ReturnCode::NotReachable)
    } else if rt == E_TIMEOUT {
        Some(ReturnCode::Timeout)
    } else if rt == E_WRONG_PROTOCOL_VERSION {
        Some(ReturnCode::WrongProtocolVersion)
    } else if rt == E_WRONG_INTERFACE_VERSION {
        Some(ReturnCode::WrongInterfaceVersion)
    } else if rt == E_MALFORMED_MESSAGE {
        Some(ReturnCode::MalformedMessage)
    } else if rt == E_WRONG_MESSAGE_TYPE {
        Some(ReturnCode::WrongMessageType)
    } else if rt == E_UNKNOWN {
        Some(ReturnCode::Unknown)
    } else {
        None
    }
}

/// Whether the octet stands for a return code.
pub fn is_return_code(rt: u8) -> (r: bool)
    ensures
        r == (return_code_of(rt) is Some),
        r == (rt <= 0x0a || rt == 0xff),
{
    rt <= E_WRONG_MESSAGE_TYPE || rt == E_UNKNOWN
}

/// Decodes the octet of a return code. An octet that stands for none shows
/// that engine and binding do not fit together, and is left out.
pub fn map_return_code(rt: u8) -> (r: ReturnCode)
    requires
        return_code_of(rt) is Some,
    ensures
        return_code_of(rt) == Some(r),
        r.wire() == rt,
{
    if rt == E_OK {
        ReturnCode::Okay
    } else if rt == E_NOT_OK {
        ReturnCode::NotOk
    } else if rt == E_UNKNOWN_SERVICE {
        ReturnCode::UnknownService
    } else if rt == E_UNKNOWN_METHOD {
        ReturnCode::UnknownMethod
    } else if rt == E_NOT_READY {
        ReturnCode::NotReady
    } else if rt == E_NOT_REACHABLE {
        ReturnCode::NotReachable
    } else if rt == E_TIMEOUT {
        ReturnCode::Timeout
    } else if rt == E_WRONG_PROTOCOL_VERSION {
        ReturnCode::WrongProtocolVersion
    } else if rt == E_WRONG_INTERFACE_VERSION {
        ReturnCode::WrongInterfaceVersion
    } else if rt == E_MALFORMED_MESSAGE {
        ReturnCode::MalformedMessage
    } else if rt == E_WRONG_MESSAGE_TYPE {
        ReturnCode::WrongMessageType
    } else {
        ReturnCode::Unknown
    }
}

/// Encodes a return code as its octet.
pub fn return_code_to_ffi(rc: ReturnCode) -> (r: u8)
    ensures
        r == rc.wire(),
        return_code_of(r) == Some(rc),
{
    match rc {
        ReturnCode::Okay => E_OK,
        ReturnCode::NotOk => E_NOT_OK,
        ReturnCode::UnknownService => E_UNKNOWN_SERVICE,
        ReturnCode::UnknownMethod => E_UNKNOWN_METHOD,
        ReturnCode::NotReady => E_NOT_READY,
        ReturnCode::NotReachable => E_NOT_REACHABLE,
        ReturnCode::Timeout => E_TIMEOUT,
        ReturnCode::WrongProtocolVersion => E_WRONG_PROTOCOL_VERSION,
        ReturnCode::WrongInterfaceVersion => E_WRONG_INTERFACE_VERSION,
        ReturnCode::MalformedMessage => E_MALFORMED_MESSAGE,
        ReturnCode::WrongMessageType => E_WRONG_MESSAGE_TYPE,
        ReturnCode::Unknown => E_UNKNOWN,
    }
}

/// Encoding and decoding undo each other: every code decodes from its own
/// octet, and an octet that decodes to a code is that code's octet.
pub proof fn lemma_return_code_round_trip(rc: ReturnCode, rt: u8)
    ensures
        return_code_of(rc.wire()) == Some(rc),
        return_code_of(rt) == Some(rc) ==> rc.wire() == rt,
{
}

/// Transport over which a service is reachable.
#[derive(PartialEq, Eq, Structural, PartialOrd, Ord, Debug, Clone, Copy)]
pub enum Reliability {
    Reliable,
    Unreliable,
    Both,
    Unknown,
}

} // verus!
