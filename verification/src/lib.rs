//! Binding layer between an application and a service-oriented middleware
//! engine: typed identifiers, the message taxonomy, the bridge from engine
//! callbacks to one ordered event channel, and the calls that an application
//! hands to the engine.

pub mod application;
pub mod bridge;
pub mod header;
pub mod ids;
pub mod message;
pub mod payload;
pub mod return_code;
pub mod text;
pub mod version;

pub use application::{EngineCall, VSomeipApplication};
pub use header::{make_header, MessageHeader, NativeHeader};
pub use ids::{
    any_instance, any_major_version, any_method, any_minor_version, any_service, no_session,
    unknown_client, ClientID, EventGroupID, InstanceID, MajorVersion, MethodID, MinorVersion,
    ProtocolVersion, ServiceID, SessionID,
};
pub use message::{MessageType, VSomeipMessage};
pub use payload::{payload_to_bytes, NativePayload, VSomeipPayload};
pub use return_code::{map_return_code, return_code_to_ffi, Reliability, ReturnCode};
pub use version::InterfaceVersion;
