//! Verified core of a SOME/IP transport for uProtocol: identifier arithmetic,
//! message classification, the native frame wire format, and the registries
//! that track listeners, applications, offered services and RPC correlation.

pub mod ids;
pub mod status;
pub mod uuid;
pub mod frame_wire;
pub mod uri;
pub mod determine_message_type;
pub mod determinations;
pub mod vsomeip_offered_requested;
pub mod rpc_correlation;
pub mod listener_config;
pub mod bimaps;
pub mod listener_clients;
pub mod extern_fn_registry;
pub mod message_handler_registry;
pub mod listener_registry;
pub mod message_conversions;
pub mod client;
pub mod transport;
pub mod subscription_handler_registry;
pub mod client_listener_registry;
pub mod storage;
pub mod application_registry;
pub mod vsomeip_config;
