//! The decisions of the SOME/IP client: which registration filters ask for, which message
//! handler a registration installs or removes, how a uProtocol message becomes a SOME/IP message
//! and back, with the request correlation that this needs, and how the event loop routes a
//! command to the application that serves it.
use vstd::prelude::*;
use vstd::string::*;
use std::collections::HashSet;
use crate::ids::{ClientId, SessionId, ServiceId, InstanceId, MethodId, SomeIpRequestId, low_half, high_half,
    split_u32_to_u16, split_u32_to_u8, create_request_id};
use crate::status::{UCode, UStatus, decimal, decimal_text};
use crate::uuid::{UUID, is_uprotocol_uuid_bits};
use crate::uri::{UUri, UriView, uri_view, wildcard_authority, is_wildcard_authority, WILDCARD_UE_ID, WILDCARD_UE_VERSION_MAJOR,
    WILDCARD_RESOURCE_ID};
use crate::determinations::{RegistrationType, SomeIpMessageType, client_of, next_session_from, registration_of};
use crate::rpc_correlation::RpcCorrelation2;
use crate::message_conversions::{ReturnCode, DEFAULT_INSTANCE_ID};

verus! {

broadcast use vstd::std_specs::hash::group_hash_axioms;

/// The authority name under which messages from the mechatronics side appear.
pub open spec fn me_authority() -> Seq<char> {
    seq!['m', 'e', '_', 'a', 'u', 't', 'h', 'o', 'r', 'i', 't', 'y']
}

/// The authority name under which messages from the mechatronics side appear.
pub fn me_authority_name() -> (r: String)
    ensures
        r@ == me_authority(),
{
    let name = String::from_str("me_authority");
    proof {
        reveal_strlit("me_authority");
    }
    name
}

/// The service id that matches any service.
pub const ANY_SERVICE: ServiceId = 0xFFFF;

/// The instance id that matches any instance.
pub const ANY_INSTANCE: InstanceId = 0xFFFF;

/// The method id that matches any method.
pub const ANY_METHOD: MethodId = 0xFFFF;

/// The time to live that a request from SOME/IP gets, in milliseconds.
pub const INCOMING_REQUEST_TTL: u32 = 1000;

/// The kinds of uProtocol message.
#[derive(Clone, Copy, Debug, PartialEq, Eq, Structural)]
pub enum UMessageKind {
    Unspecified,
    Publish,
    Request,
    Response,
    Notification,
}

/// The attributes of a uProtocol message that the client reads and writes.
#[derive(Clone, Debug, PartialEq, Eq)]
pub struct UMessageAttributes {
    pub id: Option<UUID>,
    pub message_type: UMessageKind,
    pub source: Option<UUri>,
    pub sink: Option<UUri>,
    pub reqid: Option<UUID>,
    pub ttl: Option<u32>,
    pub commstatus: Option<UCode>,
}

/// A uProtocol message: attributes and an optional payload.
#[derive(Clone, Debug, PartialEq, Eq)]
pub struct UMessage {
    pub attributes: UMessageAttributes,
    pub payload: Option<Vec<u8>>,
}

/// The header of a SOME/IP message that the client sends; what it leaves unset is `None`.
#[derive(Clone, Copy, Debug, PartialEq, Eq)]
pub struct ClientVsomeipHeader {
    pub message_type: SomeIpMessageType,
    pub service_id: ServiceId,
    pub instance_id: InstanceId,
    pub method_id: MethodId,
    pub interface_version: Option<u8>,
    pub client_id: Option<ClientId>,
    pub session_id: Option<SessionId>,
    pub return_code: Option<ReturnCode>,
    /// Whether the service must be requested before the message goes out.
    pub request_service: bool,
}

/// A SOME/IP message that the client sends: header and payload.
#[derive(Clone, Debug, PartialEq, Eq)]
pub struct ClientVsomeipMessage {
    pub header: ClientVsomeipHeader,
    pub payload: Vec<u8>,
}

/// What the client reads of a SOME/IP message that arrives.
#[derive(Clone, Debug, PartialEq, Eq)]
pub struct IncomingVsomeipMessage {
    pub message_type: SomeIpMessageType,
    pub request_id: SomeIpRequestId,
    pub service_id: ServiceId,
    pub client_id: ClientId,
    pub method_id: MethodId,
    pub interface_version: u8,
    pub payload: Vec<u8>,
}

/// Where a message handler is installed: service, instance and method id.
#[derive(Clone, Copy, Debug, PartialEq, Eq, Structural)]
pub struct HandlerTarget {
    pub service_id: ServiceId,
    pub instance_id: InstanceId,
    pub method_id: MethodId,
}

/// What registering a listener does: offer a service, if any, then install the handler.
#[derive(Clone, Copy, Debug, PartialEq, Eq)]
pub struct RegistrationPlan {
    pub offer: Option<(ServiceId, InstanceId)>,
    pub handler: HandlerTarget,
}

/// The counter that numbers the requests of the client's applications; it wraps around.
pub struct SessionCounter {
    next: u16,
}

impl SessionCounter {
    /// The number that the next request gets.
    pub closed spec fn view(&self) -> u16 {
        self.next
    }

    /// A counter that starts at one.
    pub fn new() -> (r: SessionCounter)
        ensures
            r.view() == 1,
    {
        SessionCounter { next: 1 }
    }
}

/// The number that follows a session number, wrapping around after the largest `u16`.
pub open spec fn following_session(v: u16) -> u16 {
    if v == u16::MAX {
        0
    } else {
        (v + 1) as u16
    }
}

/// Hands out the counter's number and moves it on by one, wrapping around.
pub fn get_request_session_id(counter: &mut SessionCounter) -> (r: u16)
    ensures
        r == old(counter).view(),
        final(counter).view() == following_session(old(counter).view()),
{
    let current = counter.next;
    counter.next = if current == u16::MAX {
        0
    } else {
        current + 1
    };
    current
}

/// Whether a URI's every part but the authority is the wildcard.
pub open spec fn wildcard_ids(u: UUri) -> bool {
    u.ue_id == WILDCARD_UE_ID && u.ue_version_major == WILDCARD_UE_VERSION_MAJOR
        && u.resource_id == WILDCARD_RESOURCE_ID
}

/// The registration that the client reads from filters: with no sink, a publication under client
/// id zero; with the mechatronics authority and wildcards as source and all wildcards as sink,
/// every point-to-point message under the wildcard client; with a sink whose resource id is
/// zero, a response under the source's client; otherwise a request under the sink's client.
pub open spec fn client_registration_of(source_filter: UUri, sink_filter: Option<UUri>) -> RegistrationType {
    match sink_filter {
        None => RegistrationType::Publish(0),
        Some(sink) => if source_filter.authority_name@ == me_authority() && wildcard_ids(source_filter)
            && sink.authority_name@ == wildcard_authority() && wildcard_ids(sink) {
            RegistrationType::AllPointToPoint(0xFFFF)
        } else if sink.resource_id == 0 {
            RegistrationType::Response(client_of(source_filter.ue_id))
        } else {
            RegistrationType::Request(client_of(sink.ue_id))
        },
    }
}

/// The registration that filters ask for; see `client_registration_of`. It always succeeds.
pub fn determine_registration_type(source_filter: &UUri, sink_filter: &Option<UUri>) -> (r: Result<RegistrationType, UStatus>)
    ensures
        r == Ok::<RegistrationType, UStatus>(client_registration_of(*source_filter, *sink_filter)),
{
    match sink_filter {
        None => Ok(RegistrationType::Publish(0)),
        Some(sink) => {
            let me = me_authority_name();
            let streamer_use_case = source_filter.authority_name == me
                && source_filter.ue_id == WILDCARD_UE_ID
                && source_filter.ue_version_major == WILDCARD_UE_VERSION_MAJOR
                && source_filter.resource_id == WILDCARD_RESOURCE_ID
                && is_wildcard_authority(&sink.authority_name)
                && sink.ue_id == WILDCARD_UE_ID
                && sink.ue_version_major == WILDCARD_UE_VERSION_MAJOR
                && sink.resource_id == WILDCARD_RESOURCE_ID;
            if streamer_use_case {
                return Ok(RegistrationType::AllPointToPoint(0xFFFF));
            }
            if sink.resource_id == 0 {
                let (_, client_id) = split_u32_to_u16(source_filter.ue_id);
                Ok(RegistrationType::Response(client_id))
            } else {
                let (_, client_id) = split_u32_to_u16(sink.ue_id);
                Ok(RegistrationType::Request(client_id))
            }
        },
    }
}

/// The handler that a registration installs, and the service it offers first. A publication
/// installs it under the source's service and resource with the default instance, offering that
/// service; a request under the sink's service and resource with any instance, offering the
/// sink's service with the default instance; a response under the source's service and resource
/// with any instance; every point-to-point message under any service, instance and method.
pub open spec fn registration_plan_of(source_filter: UUri, sink_filter: Option<UUri>) -> Option<RegistrationPlan> {
    match client_registration_of(source_filter, sink_filter) {
        RegistrationType::Publish(_) => Some(RegistrationPlan {
            offer: Some((low_half(source_filter.ue_id) as u16, DEFAULT_INSTANCE_ID)),
            handler: HandlerTarget {
                service_id: low_half(source_filter.ue_id) as u16,
                instance_id: DEFAULT_INSTANCE_ID,
                method_id: low_half(source_filter.resource_id) as u16,
            },
        }),
        RegistrationType::Request(_) => match sink_filter {
            Some(sink) => Some(RegistrationPlan {
                offer: Some((low_half(sink.ue_id) as u16, DEFAULT_INSTANCE_ID)),
                handler: HandlerTarget {
                    service_id: low_half(sink.ue_id) as u16,
                    instance_id: ANY_INSTANCE,
                    method_id: low_half(sink.resource_id) as u16,
                },
            }),
            None => None,
        },
        RegistrationType::Response(_) => match sink_filter {
            Some(_) => Some(RegistrationPlan {
                offer: None,
                handler: HandlerTarget {
                    service_id: low_half(source_filter.ue_id) as u16,
                    instance_id: ANY_INSTANCE,
                    method_id: low_half(source_filter.resource_id) as u16,
                },
            }),
            None => None,
        },
        RegistrationType::AllPointToPoint(_) => Some(RegistrationPlan {
            offer: None,
            handler: HandlerTarget { service_id: ANY_SERVICE, instance_id: ANY_INSTANCE, method_id: ANY_METHOD },
        }),
    }
}

/// What registering a listener with filters does; see `registration_plan_of`. Filters that ask
/// for a request or response without a sink fail with invalid-argument.
pub fn register_listener_internal(source_filter: &UUri, sink_filter: &Option<UUri>) -> (r: Result<RegistrationPlan, UStatus>)
    ensures
        match registration_plan_of(*source_filter, *sink_filter) {
            Some(plan) => r == Ok::<RegistrationPlan, UStatus>(plan),
            None => r matches Err(e) && e.code == UCode::INVALID_ARGUMENT,
        },
{
    let registration_type = match determine_registration_type(source_filter, sink_filter) {
        Ok(t) => t,
        Err(_) => {
            return Err(UStatus::fail_with_code(UCode::INVALID_ARGUMENT, "Unable to map source and sink filters to uProtocol message type"));
        },
    };
    match registration_type {
        RegistrationType::Publish(_) => {
            let (_, service_id) = split_u32_to_u16(source_filter.ue_id);
            let (_, method_id) = split_u32_to_u16(source_filter.resource_id);
            Ok(RegistrationPlan {
                offer: Some((service_id, DEFAULT_INSTANCE_ID)),
                handler: HandlerTarget { service_id, instance_id: DEFAULT_INSTANCE_ID, method_id },
            })
        },
        RegistrationType::Request(_) => {
            let sink = match sink_filter {
                Some(s) => s,
                None => {
                    return Err(UStatus::fail_with_code(UCode::INVALID_ARGUMENT, "Request doesn't contain sink"));
                },
            };
            let (_, service_id) = split_u32_to_u16(sink.ue_id);
            let (_, method_id) = split_u32_to_u16(sink.resource_id);
            Ok(RegistrationPlan {
                offer: Some((service_id, DEFAULT_INSTANCE_ID)),
                handler: HandlerTarget { service_id, instance_id: ANY_INSTANCE, method_id },
            })
        },
        RegistrationType::Response(_) => {
            if sink_filter.is_none() {
                return Err(UStatus::fail_with_code(UCode::INVALID_ARGUMENT, "Request doesn't contain sink"));
            }
            let (_, service_id) = split_u32_to_u16(source_filter.ue_id);
            let (_, method_id) = split_u32_to_u16(source_filter.resource_id);
            Ok(RegistrationPlan { offer: None, handler: HandlerTarget { service_id, instance_id: ANY_INSTANCE, method_id } })
        },
        RegistrationType::AllPointToPoint(_) => Ok(RegistrationPlan {
            offer: None,
            handler: HandlerTarget { service_id: ANY_SERVICE, instance_id: ANY_INSTANCE, method_id: ANY_METHOD },
        }),
    }
}

/// The handler that unregistering a listener removes: a publication's under the source's service
/// and resource, a request's and a response's under the sink's, all with any instance; every
/// point-to-point message's under any service, instance and method.
pub open spec fn unregistration_target_of(source_filter: UUri, sink_filter: Option<UUri>) -> Option<HandlerTarget> {
    match client_registration_of(source_filter, sink_filter) {
        RegistrationType::Publish(_) => Some(HandlerTarget {
            service_id: low_half(source_filter.ue_id) as u16,
            instance_id: ANY_INSTANCE,
            method_id: low_half(source_filter.resource_id) as u16,
        }),
        RegistrationType::Request(_) | RegistrationType::Response(_) => match sink_filter {
            Some(sink) => Some(HandlerTarget {
                service_id: low_half(sink.ue_id) as u16,
                instance_id: ANY_INSTANCE,
                method_id: low_half(sink.resource_id) as u16,
            }),
            None => None,
        },
        RegistrationType::AllPointToPoint(_) => Some(
            HandlerTarget { service_id: ANY_SERVICE, instance_id: ANY_INSTANCE, method_id: ANY_METHOD },
        ),
    }
}

/// The handler that unregistering a listener with filters removes; see
/// `unregistration_target_of`. Filters that ask for a request or response without a sink fail
/// with invalid-argument.
pub fn unregister_listener_internal(source_filter: &UUri, sink_filter: &Option<UUri>) -> (r: Result<HandlerTarget, UStatus>)
    ensures
        match unregistration_target_of(*source_filter, *sink_filter) {
            Some(t) => r == Ok::<HandlerTarget, UStatus>(t),
            None => r matches Err(e) && e.code == UCode::INVALID_ARGUMENT,
        },
{
    let registration_type = match determine_registration_type(source_filter, sink_filter) {
        Ok(t) => t,
        Err(_) => {
            return Err(UStatus::fail_with_code(UCode::INVALID_ARGUMENT, "Unable to map source and sink filters to uProtocol message type"));
        },
    };
    match registration_type {
        RegistrationType::Publish(_) => {
            let (_, service_id) = split_u32_to_u16(source_filter.ue_id);
            let (_, method_id) = split_u32_to_u16(source_filter.resource_id);
            Ok(HandlerTarget { service_id, instance_id: ANY_INSTANCE, method_id })
        },
        RegistrationType::Request(_) | RegistrationType::Response(_) => {
            let sink = match sink_filter {
                Some(s) => s,
                None => {
                    return Err(UStatus::fail_with_code(UCode::INVALID_ARGUMENT, "Request doesn't contain sink"));
                },
            };
            let (_, service_id) = split_u32_to_u16(sink.ue_id);
            let (_, method_id) = split_u32_to_u16(sink.resource_id);
            Ok(HandlerTarget { service_id, instance_id: ANY_INSTANCE, method_id })
        },
        RegistrationType::AllPointToPoint(_) => Ok(
            HandlerTarget { service_id: ANY_SERVICE, instance_id: ANY_INSTANCE, method_id: ANY_METHOD },
        ),
    }
}

/// The bytes of an optional payload, none as no bytes.
pub open spec fn payload_bytes(payload: Option<Vec<u8>>) -> Seq<u8> {
    match payload {
        Some(p) => p@,
        None => Seq::empty(),
    }
}

/// The lowest byte of a 32-bit value.
pub open spec fn low_byte(value: u32) -> u8 {
    (value as int % 0x100) as u8
}

/// The header of a publication from a source: a notification under the source's service and
/// resource with the default instance, whose service is requested first.
pub open spec fn publish_header_of(source: UUri) -> ClientVsomeipHeader {
    ClientVsomeipHeader {
        message_type: SomeIpMessageType::MT_NOTIFICATION,
        service_id: low_half(source.ue_id) as u16,
        instance_id: DEFAULT_INSTANCE_ID,
        method_id: low_half(source.resource_id) as u16,
        interface_version: None,
        client_id: None,
        session_id: None,
        return_code: None,
        request_service: true,
    }
}

/// The header of a request to a sink: its service and resource with the default instance, the
/// lowest byte of its major version, and an OK return code; SOME/IP sets client and session.
pub open spec fn request_header_of(sink: UUri) -> ClientVsomeipHeader {
    ClientVsomeipHeader {
        message_type: SomeIpMessageType::MT_REQUEST,
        service_id: low_half(sink.ue_id) as u16,
        instance_id: DEFAULT_INSTANCE_ID,
        method_id: low_half(sink.resource_id) as u16,
        interface_version: Some(low_byte(sink.ue_version_major)),
        client_id: None,
        session_id: None,
        return_code: Some(ReturnCode::E_OK),
        request_service: false,
    }
}

/// The header of a response from a source to the SOME/IP request with the given id: the source's
/// service and resource with the default instance, the lowest byte of its major version, client
/// and session id from the request id; with an OK status a response, otherwise an error.
pub open spec fn response_header_of(source: UUri, request_id: SomeIpRequestId, commstatus: Option<UCode>) -> ClientVsomeipHeader {
    let ok = commstatus == Some(UCode::OK);
    ClientVsomeipHeader {
        message_type: if ok { SomeIpMessageType::MT_RESPONSE } else { SomeIpMessageType::MT_ERROR },
        service_id: low_half(source.ue_id) as u16,
        instance_id: DEFAULT_INSTANCE_ID,
        method_id: low_half(source.resource_id) as u16,
        interface_version: Some(low_byte(source.ue_version_major)),
        client_id: Some(high_half(request_id) as u16),
        session_id: Some(low_half(request_id) as u16),
        return_code: Some(if ok { ReturnCode::E_OK } else { ReturnCode::E_NOT_OK }),
        request_service: false,
    }
}

/// What converting a message needs of the caller: a request that can be converted carries an id,
/// and the session count of its source's client is not at the largest `u16`; a response that can
/// be converted carries the id of its request.
pub open spec fn convertible(umsg: UMessage, sessions: Map<ClientId, SessionId>) -> bool {
    match (umsg.attributes.source, umsg.attributes.sink) {
        (Some(source), Some(_)) => match umsg.attributes.message_type {
            UMessageKind::Request => umsg.attributes.id is Some
                && next_session_from(sessions, low_half(source.ue_id) as u16, 0) < u16::MAX,
            UMessageKind::Response => umsg.attributes.reqid is Some,
            _ => true,
        },
        _ => true,
    }
}

/// What converting a message does; see `convert_umsg_to_vsomeip_msg`.
pub open spec fn umsg_conversion(
    umsg: UMessage,
    before: RpcCorrelation2,
    counter_before: u16,
    app_client_id: ClientId,
    r: Result<ClientVsomeipMessage, UStatus>,
    after: RpcCorrelation2,
    counter_after: u16,
) -> bool {
    &&& (!(umsg.attributes.source is Some && umsg.attributes.sink is Some
            && umsg.attributes.message_type == UMessageKind::Request) ==> counter_after == counter_before)
    &&& match umsg.attributes.source {
            None => r matches Err(e) && e.code == UCode::INVALID_ARGUMENT && after == before,
            Some(source) => match umsg.attributes.message_type {
                UMessageKind::Publish => {
                    &&& r matches Ok(m) && m.header == publish_header_of(source)
                        && m.payload@ == payload_bytes(umsg.payload)
                    &&& after == before
                },
                UMessageKind::Request => match umsg.attributes.sink {
                    None => r matches Err(e) && e.code == UCode::INVALID_ARGUMENT && after == before,
                    Some(sink) => {
                        let client_id = low_half(source.ue_id) as u16;
                        let session = next_session_from(before.sessions(), client_id, 0);
                        let app_request_id = (app_client_id as int * 0x1_0000 + counter_before as int) as u32;
                        &&& counter_after == following_session(counter_before)
                        &&& r matches Ok(m) && m.header == request_header_of(sink) && m.payload@ == payload_bytes(umsg.payload)
                        &&& after.sessions() == before.sessions().insert(client_id, (session + 1) as u16)
                        &&& after.ue_correlation() == if before.ue_correlation().contains_key(app_request_id) {
                            before.ue_correlation()
                        } else {
                            before.ue_correlation().insert(app_request_id, umsg.attributes.id.unwrap())
                        }
                        &&& after.me_correlation() == before.me_correlation()
                    },
                },
                UMessageKind::Response => match umsg.attributes.sink {
                    None => r matches Err(e) && e.code == UCode::INVALID_ARGUMENT && after == before,
                    Some(_) => {
                        let reqid = umsg.attributes.reqid.unwrap();
                        &&& after.ue_correlation() == before.ue_correlation()
                        &&& after.sessions() == before.sessions()
                        &&& if before.me_correlation().contains_key(reqid) {
                            &&& r matches Ok(m)
                                && m.header == response_header_of(source, before.me_correlation()[reqid], umsg.attributes.commstatus)
                                && m.payload@ == payload_bytes(umsg.payload)
                            &&& after.me_correlation() == before.me_correlation().remove(reqid)
                        } else {
                            &&& r matches Err(e) && e.code == UCode::NOT_FOUND
                            &&& after.me_correlation() == before.me_correlation()
                        }
                    },
                },
                _ => r matches Err(e) && e.code == UCode::INTERNAL && after == before,
            },
        }
}

/// Converts a uProtocol message into the SOME/IP message to send.
///
/// A message without a source, or a request or response without a sink, fails with
/// invalid-argument; a type other than publish, request and response fails with internal. A
/// request counts a session of its source's client (starting at zero), takes a number from the
/// session counter, and records its id under the SOME/IP request id of the sending application's
/// client and that number, unless one is recorded there. A response takes out the SOME/IP request id recorded for the id
/// of its request, failing with not-found when there is none. Failures change nothing.
pub fn convert_umsg_to_vsomeip_msg(
    umsg: &UMessage,
    correlation: &mut RpcCorrelation2,
    session_counter: &mut SessionCounter,
    app_client_id: ClientId,
) -> (r: Result<ClientVsomeipMessage, UStatus>)
    requires
        convertible(*umsg, old(correlation).sessions()),
    ensures
        umsg_conversion(*umsg, *old(correlation), old(session_counter).view(), app_client_id, r, *final(correlation),
            final(session_counter).view()),
{
    let source = match &umsg.attributes.source {
        Some(s) => s,
        None => {
            return Err(UStatus::fail_with_code(UCode::INVALID_ARGUMENT, "Message has no source UUri"));
        },
    };
    let payload = match &umsg.attributes.message_type {
        UMessageKind::Publish | UMessageKind::Request | UMessageKind::Response => match &umsg.payload {
            Some(bytes) => bytes.clone(),
            None => Vec::new(),
        },
        _ => Vec::new(),
    };
    match umsg.attributes.message_type {
        UMessageKind::Publish => {
            let (_instance_id, service_id) = split_u32_to_u16(source.ue_id);
            let (_, method_id) = split_u32_to_u16(source.resource_id);
            Ok(ClientVsomeipMessage {
                header: ClientVsomeipHeader {
                    message_type: SomeIpMessageType::MT_NOTIFICATION,
                    service_id,
                    instance_id: DEFAULT_INSTANCE_ID,
                    method_id,
                    interface_version: None,
                    client_id: None,
                    session_id: None,
                    return_code: None,
                    request_service: true,
                },
                payload,
            })
        },
        UMessageKind::Request => {
            let sink = match &umsg.attributes.sink {
                Some(s) => s,
                None => {
                    return Err(UStatus::fail_with_code(UCode::INVALID_ARGUMENT, "Message has no sink UUri"));
                },
            };
            let (_instance_id, service_id) = split_u32_to_u16(sink.ue_id);
            let (_, method_id) = split_u32_to_u16(sink.resource_id);
            let (_, _, _, interface_version) = split_u32_to_u8(sink.ue_version_major);
            let (_, client_id) = split_u32_to_u16(source.ue_id);
            let req_id = match &umsg.attributes.id {
                Some(id) => *id,
                None => {
                    assert(false);
                    return Err(UStatus::fail_with_code(UCode::INVALID_ARGUMENT, "Message has no id"));
                },
            };
            let _session_id = correlation.retrieve_session_id_from(client_id, 0);
            let app_session_id = get_request_session_id(session_counter);
            let app_request_id = create_request_id(app_client_id, app_session_id);
            let _ = correlation.insert_ue_request_correlation(app_request_id, &req_id);
            Ok(ClientVsomeipMessage {
                header: ClientVsomeipHeader {
                    message_type: SomeIpMessageType::MT_REQUEST,
                    service_id,
                    instance_id: DEFAULT_INSTANCE_ID,
                    method_id,
                    interface_version: Some(interface_version),
                    client_id: None,
                    session_id: None,
                    return_code: Some(ReturnCode::E_OK),
                    request_service: false,
                },
                payload,
            })
        },
        UMessageKind::Response => {
            if umsg.attributes.sink.is_none() {
                return Err(UStatus::fail_with_code(UCode::INVALID_ARGUMENT, "Message has no sink UUri"));
            }
            let (_instance_id, service_id) = split_u32_to_u16(source.ue_id);
            let (_, method_id) = split_u32_to_u16(source.resource_id);
            let (_, _, _, interface_version) = split_u32_to_u8(source.ue_version_major);
            let req_id = match &umsg.attributes.reqid {
                Some(id) => id,
                None => {
                    assert(false);
                    return Err(UStatus::fail_with_code(UCode::INVALID_ARGUMENT, "Message has no reqid"));
                },
            };
            let request_id = correlation.remove_me_request_correlation(req_id)?;
            let (client_id, session_id) = split_u32_to_u16(request_id);
            let ok = match umsg.attributes.commstatus {
                Some(UCode::OK) => true,
                _ => false,
            };
            let (return_code, message_type) = if ok {
                (ReturnCode::E_OK, SomeIpMessageType::MT_RESPONSE)
            } else {
                (ReturnCode::E_NOT_OK, SomeIpMessageType::MT_ERROR)
            };
            Ok(ClientVsomeipMessage {
                header: ClientVsomeipHeader {
                    message_type,
                    service_id,
                    instance_id: DEFAULT_INSTANCE_ID,
                    method_id,
                    interface_version: Some(interface_version),
                    client_id: Some(client_id),
                    session_id: Some(session_id),
                    return_code: Some(return_code),
                    request_service: false,
                },
                payload,
            })
        },
        _ => Err(UStatus::fail_with_code(UCode::INTERNAL, "Trying to convert an unspecified or notification message type.")),
    }
}

/// Whether a URI has the given authority name, uEntity id, major version and resource id.
pub open spec fn uri_is(u: UUri, authority_name: Seq<char>, ue_id: u32, ue_version_major: u32, resource_id: u32) -> bool {
    u.authority_name@ == authority_name && u.ue_id == ue_id && u.ue_version_major == ue_version_major
        && u.resource_id == resource_id
}

/// Whether a message has the given source: the mechatronics authority with the service, interface
/// version and method of a SOME/IP message.
pub open spec fn from_me_service(umsg: UMessage, msg: IncomingVsomeipMessage) -> bool {
    umsg.attributes.source matches Some(s) && uri_is(s, me_authority(), msg.service_id as u32,
        msg.interface_version as u32, msg.method_id as u32)
}

/// Whether `up_rust`'s message builder accepts a request to `sink` with reply-to address
/// `reply_to`, time to live `ttl` and the message id with the given halves. Its validation reads
/// these attributes alone; how it judges them takes pages to state.
pub uninterp spec fn request_builds(sink: UriView, reply_to: UriView, ttl: u32, id_msb: u64, id_lsb: u64) -> bool;

/// Whether `up_rust`'s message builder accepts a publication on `topic` with the message id with
/// the given halves. Its validation reads these attributes alone.
pub uninterp spec fn publish_builds(topic: UriView, id_msb: u64, id_lsb: u64) -> bool;

/// Whether `up_rust`'s message builder accepts a response to `reply_to` for the request with the
/// given id halves, from `invoked`, with the message id with the given halves. Its validation
/// reads these attributes alone.
pub uninterp spec fn response_builds(
    reply_to: UriView,
    reqid_msb: u64,
    reqid_lsb: u64,
    invoked: UriView,
    id_msb: u64,
    id_lsb: u64,
) -> bool;

/// Calls `up_rust::UMessageBuilder::request(sink, reply_to, ttl)`, sets the message id with
/// `with_message_id` (which asserts a uProtocol id, hence the `requires`) and calls `build`,
/// reporting whether the builder's attribute validation accepted the message. The payload, which
/// the validation does not read, is not handed over.
#[verifier::external_body]
fn request_builder_accepts(sink: &UUri, reply_to: &UUri, ttl: u32, id: UUID) -> (r: bool)
    requires
        is_uprotocol_uuid_bits(id.msb, id.lsb),
    ensures
        r == request_builds(uri_view(*sink), uri_view(*reply_to), ttl, id.msb, id.lsb),
{
    let sink = up_rust::UUri { authority_name: sink.authority_name.clone(), ue_id: sink.ue_id,
        ue_version_major: sink.ue_version_major, resource_id: sink.resource_id, ..Default::default() };
    let reply_to = up_rust::UUri { authority_name: reply_to.authority_name.clone(), ue_id: reply_to.ue_id,
        ue_version_major: reply_to.ue_version_major, resource_id: reply_to.resource_id, ..Default::default() };
    let id = up_rust::UUID { msb: id.msb, lsb: id.lsb, ..Default::default() };
    up_rust::UMessageBuilder::request(sink, reply_to, ttl).with_message_id(id).build().is_ok()
}

/// Calls `up_rust::UMessageBuilder::publish(topic)`, sets the message id with `with_message_id`
/// and calls `build`, reporting whether the builder's attribute validation accepted the message.
/// The status code, which this builder refuses on a publication and the validation does not
/// read, is not handed over.
#[verifier::external_body]
fn publish_builder_accepts(topic: &UUri, id: UUID) -> (r: bool)
    requires
        is_uprotocol_uuid_bits(id.msb, id.lsb),
    ensures
        r == publish_builds(uri_view(*topic), id.msb, id.lsb),
{
    let topic = up_rust::UUri { authority_name: topic.authority_name.clone(), ue_id: topic.ue_id,
        ue_version_major: topic.ue_version_major, resource_id: topic.resource_id, ..Default::default() };
    let id = up_rust::UUID { msb: id.msb, lsb: id.lsb, ..Default::default() };
    up_rust::UMessageBuilder::publish(topic).with_message_id(id).build().is_ok()
}

/// Calls `up_rust::UMessageBuilder::response(reply_to, reqid, invoked)`, sets the message id with
/// `with_message_id` and calls `build`, reporting whether the builder's attribute validation
/// accepted the message. The status code and payload, which the validation does not read, are
/// not handed over.
#[verifier::external_body]
fn response_builder_accepts(reply_to: &UUri, reqid: UUID, invoked: &UUri, id: UUID) -> (r: bool)
    requires
        is_uprotocol_uuid_bits(id.msb, id.lsb),
    ensures
        r == response_builds(uri_view(*reply_to), reqid.msb, reqid.lsb, uri_view(*invoked), id.msb, id.lsb),
{
    let reply_to = up_rust::UUri { authority_name: reply_to.authority_name.clone(), ue_id: reply_to.ue_id,
        ue_version_major: reply_to.ue_version_major, resource_id: reply_to.resource_id, ..Default::default() };
    let invoked = up_rust::UUri { authority_name: invoked.authority_name.clone(), ue_id: invoked.ue_id,
        ue_version_major: invoked.ue_version_major, resource_id: invoked.resource_id, ..Default::default() };
    let reqid = up_rust::UUID { msb: reqid.msb, lsb: reqid.lsb, ..Default::default() };
    let id = up_rust::UUID { msb: id.msb, lsb: id.lsb, ..Default::default() };
    up_rust::UMessageBuilder::response(reply_to, reqid, invoked).with_message_id(id).build().is_ok()
}

/// The service that a SOME/IP message names, under the mechatronics authority.
pub open spec fn me_service_view(msg: IncomingVsomeipMessage) -> UriView {
    (me_authority(), msg.service_id as u32, msg.interface_version as u32, msg.method_id as u32)
}

/// Whether the request that a SOME/IP request becomes builds: its id is a uProtocol id and the
/// builder accepts it.
pub open spec fn incoming_request_builds(msg: IncomingVsomeipMessage, authority_name: Seq<char>, new_id: UUID) -> bool {
    is_uprotocol_uuid_bits(new_id.msb, new_id.lsb) && request_builds(
        (authority_name, msg.service_id as u32, msg.interface_version as u32, msg.method_id as u32),
        (me_authority(), msg.client_id as u32, 1, 0),
        INCOMING_REQUEST_TTL,
        new_id.msb,
        new_id.lsb,
    )
}

/// Whether the publication that a SOME/IP notification becomes builds.
pub open spec fn incoming_publish_builds(msg: IncomingVsomeipMessage, new_id: UUID) -> bool {
    is_uprotocol_uuid_bits(new_id.msb, new_id.lsb) && publish_builds(me_service_view(msg), new_id.msb, new_id.lsb)
}

/// Whether the response that a SOME/IP response or error becomes, for the uProtocol request id
/// `reqid`, builds.
pub open spec fn incoming_response_builds(msg: IncomingVsomeipMessage, authority_name: Seq<char>, reqid: UUID, new_id: UUID) -> bool {
    is_uprotocol_uuid_bits(new_id.msb, new_id.lsb) && response_builds(
        (authority_name, msg.client_id as u32, 1, 0),
        reqid.msb,
        reqid.lsb,
        me_service_view(msg),
        new_id.msb,
        new_id.lsb,
    )
}

/// Takes a message that was built by hand, given whether the uProtocol builder accepts it: an
/// accepted message comes back, and the SOME/IP request id to record, if any, is recorded under
/// its id unless one is recorded there; a refused one fails with internal and changes nothing.
pub fn accept_built_message(
    umsg: UMessage,
    builds: bool,
    record: Option<(UUID, SomeIpRequestId)>,
    correlation: &mut RpcCorrelation2,
) -> (r: Result<UMessage, UStatus>)
    ensures
        final(correlation).sessions() == old(correlation).sessions(),
        final(correlation).ue_correlation() == old(correlation).ue_correlation(),
        if builds {
            &&& r == Ok::<UMessage, UStatus>(umsg)
            &&& final(correlation).me_correlation() == match record {
                Some((id, request_id)) => if old(correlation).me_correlation().contains_key(id) {
                    old(correlation).me_correlation()
                } else {
                    old(correlation).me_correlation().insert(id, request_id)
                },
                None => old(correlation).me_correlation(),
            }
        } else {
            &&& r matches Err(e) && e.code == UCode::INTERNAL
            &&& final(correlation).me_correlation() == old(correlation).me_correlation()
        },
{
    if !builds {
        return Err(UStatus::fail_with_code(UCode::INTERNAL, "Unable to build UMessage from vsomeip message"));
    }
    match record {
        Some((id, request_id)) => {
            let _ = correlation.insert_me_request_correlation(id, request_id);
        },
        None => {},
    }
    Ok(umsg)
}

/// Converts a SOME/IP message that arrived into a uProtocol message with the given id.
///
/// A request becomes a request from the mechatronics side's client of the message to the local
/// authority's service, interface version and method, with a time to live of a second and the
/// payload; its SOME/IP request id is recorded under the new id unless one is recorded there. A
/// notification becomes a publication with an OK status and no payload. A response or an error
/// takes out the uProtocol request id recorded for its SOME/IP request id, failing with
/// not-found when there is none, and becomes a response to the sending client, with an OK or an
/// internal status and the payload. Any other type fails with out-of-range. A message that the
/// uProtocol builder refuses (its id is no uProtocol id, or its attributes do not validate)
/// fails with internal; a refused request records nothing, while a refused response has taken
/// its record out already. Other failures change nothing.
pub fn convert_vsomeip_msg_to_umsg(
    msg: &IncomingVsomeipMessage,
    authority_name: &String,
    correlation: &mut RpcCorrelation2,
    new_id: UUID,
) -> (r: Result<UMessage, UStatus>)
    ensures
        final(correlation).sessions() == old(correlation).sessions(),
        match msg.message_type {
            SomeIpMessageType::MT_REQUEST => {
                &&& final(correlation).ue_correlation() == old(correlation).ue_correlation()
                &&& if incoming_request_builds(*msg, authority_name@, new_id) {
                    &&& r matches Ok(m) && m.attributes.id == Some(new_id)
                        && m.attributes.message_type == UMessageKind::Request
                        && from_me_service_client(m, *msg)
                        && (m.attributes.sink matches Some(k) && uri_is(k, authority_name@, msg.service_id as u32,
                            msg.interface_version as u32, msg.method_id as u32))
                        && m.attributes.reqid is None && m.attributes.ttl == Some(INCOMING_REQUEST_TTL)
                        && m.attributes.commstatus is None
                        && (m.payload matches Some(p) && p@ == msg.payload@)
                    &&& final(correlation).me_correlation() == if old(correlation).me_correlation().contains_key(new_id) {
                        old(correlation).me_correlation()
                    } else {
                        old(correlation).me_correlation().insert(new_id, msg.request_id)
                    }
                } else {
                    &&& r matches Err(e) && e.code == UCode::INTERNAL
                    &&& final(correlation).me_correlation() == old(correlation).me_correlation()
                }
            },
            SomeIpMessageType::MT_NOTIFICATION => {
                &&& final(correlation).ue_correlation() == old(correlation).ue_correlation()
                &&& final(correlation).me_correlation() == old(correlation).me_correlation()
                &&& if incoming_publish_builds(*msg, new_id) {
                    r matches Ok(m) && m.attributes.id == Some(new_id)
                        && m.attributes.message_type == UMessageKind::Publish
                        && from_me_service(m, *msg)
                        && m.attributes.sink is None && m.attributes.reqid is None && m.attributes.ttl is None
                        && m.attributes.commstatus == Some(UCode::OK) && m.payload is None
                } else {
                    r matches Err(e) && e.code == UCode::INTERNAL
                }
            },
            SomeIpMessageType::MT_RESPONSE | SomeIpMessageType::MT_ERROR => {
                &&& final(correlation).me_correlation() == old(correlation).me_correlation()
                &&& if old(correlation).ue_correlation().contains_key(msg.request_id) {
                    let reqid = old(correlation).ue_correlation()[msg.request_id];
                    &&& final(correlation).ue_correlation() == old(correlation).ue_correlation().remove(msg.request_id)
                    &&& if incoming_response_builds(*msg, authority_name@, reqid, new_id) {
                        r matches Ok(m) && m.attributes.id == Some(new_id)
                            && m.attributes.message_type == UMessageKind::Response
                            && from_me_service(m, *msg)
                            && (m.attributes.sink matches Some(k) && uri_is(k, authority_name@, msg.client_id as u32, 1, 0))
                            && m.attributes.reqid == Some(reqid)
                            && m.attributes.ttl is None
                            && m.attributes.commstatus == Some(if msg.message_type == SomeIpMessageType::MT_RESPONSE {
                                UCode::OK
                            } else {
                                UCode::INTERNAL
                            })
                            && (m.payload matches Some(p) && p@ == msg.payload@)
                    } else {
                        r matches Err(e) && e.code == UCode::INTERNAL
                    }
                } else {
                    &&& r matches Err(e) && e.code == UCode::NOT_FOUND
                    &&& final(correlation).ue_correlation() == old(correlation).ue_correlation()
                }
            },
            _ => {
                &&& r matches Err(e) && e.code == UCode::OUT_OF_RANGE
                &&& final(correlation).ue_correlation() == old(correlation).ue_correlation()
                &&& final(correlation).me_correlation() == old(correlation).me_correlation()
            },
        },
{
    let id_ok = new_id.is_uprotocol_uuid();
    let me_source = UUri {
        authority_name: me_authority_name(),
        ue_id: msg.service_id as u32,
        ue_version_major: msg.interface_version as u32,
        resource_id: msg.method_id as u32,
    };
    match msg.message_type {
        SomeIpMessageType::MT_REQUEST => {
            let sink = UUri {
                authority_name: authority_name.clone(),
                ue_id: msg.service_id as u32,
                ue_version_major: msg.interface_version as u32,
                resource_id: msg.method_id as u32,
            };
            let source = UUri {
                authority_name: me_authority_name(),
                ue_id: msg.client_id as u32,
                ue_version_major: 1,
                resource_id: 0,
            };
            let builds = id_ok && request_builder_accepts(&sink, &source, INCOMING_REQUEST_TTL, new_id);
            let umsg = UMessage {
                attributes: UMessageAttributes {
                    id: Some(new_id),
                    message_type: UMessageKind::Request,
                    source: Some(source),
                    sink: Some(sink),
                    reqid: None,
                    ttl: Some(INCOMING_REQUEST_TTL),
                    commstatus: None,
                },
                payload: Some(msg.payload.clone()),
            };
            accept_built_message(umsg, builds, Some((new_id, msg.request_id)), correlation)
        },
        SomeIpMessageType::MT_NOTIFICATION => {
            let builds = id_ok && publish_builder_accepts(&me_source, new_id);
            let umsg = UMessage {
                attributes: UMessageAttributes {
                    id: Some(new_id),
                    message_type: UMessageKind::Publish,
                    source: Some(me_source),
                    sink: None,
                    reqid: None,
                    ttl: None,
                    commstatus: Some(UCode::OK),
                },
                payload: None,
            };
            accept_built_message(umsg, builds, None, correlation)
        },
        SomeIpMessageType::MT_RESPONSE | SomeIpMessageType::MT_ERROR => {
            let sink = UUri {
                authority_name: authority_name.clone(),
                ue_id: msg.client_id as u32,
                ue_version_major: 1,
                resource_id: 0,
            };
            let req_id = correlation.remove_ue_request_correlation(msg.request_id)?;
            let builds = id_ok && response_builder_accepts(&sink, req_id, &me_source, new_id);
            let commstatus = match msg.message_type {
                SomeIpMessageType::MT_RESPONSE => UCode::OK,
                _ => UCode::INTERNAL,
            };
            let umsg = UMessage {
                attributes: UMessageAttributes {
                    id: Some(new_id),
                    message_type: UMessageKind::Response,
                    source: Some(me_source),
                    sink: Some(sink),
                    reqid: Some(req_id),
                    ttl: None,
                    commstatus: Some(commstatus),
                },
                payload: Some(msg.payload.clone()),
            };
            accept_built_message(umsg, builds, None, correlation)
        },
        _ => Err(UStatus::fail_with_code(UCode::OUT_OF_RANGE, "Not one of the handled message types from SOME/IP")),
    }
}

/// Whether a message comes from the mechatronics side's client of a SOME/IP message, version one,
/// resource zero.
pub open spec fn from_me_service_client(umsg: UMessage, msg: IncomingVsomeipMessage) -> bool {
    umsg.attributes.source matches Some(s) && uri_is(s, me_authority(), msg.client_id as u32, 1, 0)
}

/// What sending a message through an application does: an unspecified message or a notification
/// fails with invalid-argument; otherwise the message is converted, and a message that does not
/// convert is dropped without failing (`None`), leaving the correlation as the conversion does.
pub fn send_internal(
    umsg: &UMessage,
    correlation: &mut RpcCorrelation2,
    session_counter: &mut SessionCounter,
    app_client_id: ClientId,
) -> (r: Result<Option<ClientVsomeipMessage>, UStatus>)
    requires
        convertible(*umsg, old(correlation).sessions()),
    ensures
        match umsg.attributes.message_type {
            UMessageKind::Unspecified | UMessageKind::Notification => r matches Err(e)
                && e.code == UCode::INVALID_ARGUMENT && *final(correlation) == *old(correlation)
                && final(session_counter).view() == old(session_counter).view(),
            _ => exists|converted: Result<ClientVsomeipMessage, UStatus>| {
                &&& umsg_conversion(*umsg, *old(correlation), old(session_counter).view(), app_client_id, converted,
                    *final(correlation), final(session_counter).view())
                &&& r == match converted {
                    Ok(m) => Ok::<Option<ClientVsomeipMessage>, UStatus>(Some(m)),
                    Err(_) => Ok::<Option<ClientVsomeipMessage>, UStatus>(None),
                }
            },
        },
{
    match umsg.attributes.message_type {
        UMessageKind::Unspecified => Err(UStatus::fail_with_code(UCode::INVALID_ARGUMENT, "Unspecified message type not supported")),
        UMessageKind::Notification => Err(UStatus::fail_with_code(UCode::INVALID_ARGUMENT, "Notification is not supported")),
        _ => match convert_umsg_to_vsomeip_msg(umsg, correlation, session_counter, app_client_id) {
            Ok(m) => Ok(Some(m)),
            Err(_) => Ok(None),
        },
    }
}

/// Finds the application that serves a command: the client id of the registration that the
/// filters ask for, which must be running. No source fails with invalid-argument; a client id
/// without a running application fails with not-found.
pub fn route_to_application(running: &HashSet<ClientId>, source_filter: &Option<UUri>, sink_filter: &Option<UUri>)
    -> (r: Result<ClientId, UStatus>)
    ensures
        match source_filter {
            None => r matches Err(e) && e.code == UCode::INVALID_ARGUMENT,
            Some(source) => {
                let client_id = client_registration_of(*source, *sink_filter).spec_client_id();
                if running@.contains(client_id) {
                    r == Ok::<ClientId, UStatus>(client_id)
                } else {
                    r matches Err(e) && e.code == UCode::NOT_FOUND
                }
            },
        },
{
    let source = match source_filter {
        Some(s) => s,
        None => {
            return Err(UStatus::fail_with_code(UCode::INVALID_ARGUMENT, "UMessage provided with no source"));
        },
    };
    let registration_type = determine_registration_type(source, sink_filter)?;
    let client_id = registration_type.client_id();
    if running.contains(&client_id) {
        Ok(client_id)
    } else {
        Err(UStatus::fail_with_code(UCode::NOT_FOUND, "Unable to find application"))
    }
}

/// An authority name, an underscore and a client id in decimal.
fn format_app_name(authority_name: &str, client_id: ClientId) -> (r: String)
    ensures
        r@ == authority_name@ + seq!['_'] + decimal(client_id as nat),
{
    proof {
        reveal_strlit("_");
    }
    let digits = decimal_text(client_id as u64);
    let r = String::from_str(authority_name).concat("_").concat(digits.as_str());
    assert(r@ =~= authority_name@ + seq!['_'] + decimal(client_id as nat));
    r
}

/// The name of the SOME/IP application that serves a client id of an authority.
pub struct VsomeipAppName {
    authority_name: String,
    client_id: ClientId,
    app_name: String,
}

impl VsomeipAppName {
    /// The authority name, the client id and the application name.
    pub closed spec fn view(&self) -> (Seq<char>, ClientId, Seq<char>) {
        (self.authority_name@, self.client_id, self.app_name@)
    }

    /// The application name of a client id under an authority: the authority name, an
    /// underscore and the client id in decimal.
    pub fn new(authority_name: &String, client_id: ClientId) -> (r: VsomeipAppName)
        ensures
            r.view() == (authority_name@, client_id, authority_name@ + seq!['_'] + decimal(client_id as nat)),
    {
        VsomeipAppName {
            authority_name: authority_name.clone(),
            client_id,
            app_name: format_app_name(authority_name.as_str(), client_id),
        }
    }

    /// The application name.
    pub fn app_name(&self) -> (r: String)
        ensures
            r@ == self.view().2,
    {
        self.app_name.clone()
    }
}

/// A response to a request that arrived from SOME/IP goes back to the client and session of that
/// request: once the request's SOME/IP request id is recorded under the id of the uProtocol
/// request made of it, a response to that id carries the request id's client and session, and
/// taking the record out leaves the correlation as it was before the request.
pub proof fn lemma_client_response_goes_back_to_request(
    before: Map<UUID, SomeIpRequestId>,
    id: UUID,
    request_id: SomeIpRequestId,
    source: UUri,
    commstatus: Option<UCode>,
)
    requires
        !before.contains_key(id),
    ensures
        before.insert(id, request_id).contains_key(id),
        response_header_of(source, before.insert(id, request_id)[id], commstatus).client_id == Some(high_half(request_id) as u16),
        response_header_of(source, before.insert(id, request_id)[id], commstatus).session_id == Some(low_half(request_id) as u16),
        before.insert(id, request_id).remove(id) == before,
{
    assert(before.insert(id, request_id).remove(id) =~= before);
}

/// A response from SOME/IP answers the uProtocol request that was sent under its SOME/IP request
/// id: the request's id recorded under the application's client and session comes back as the
/// response's request id, and taking the record out leaves the correlation as it was before.
pub proof fn lemma_response_answers_sent_request(
    before: Map<SomeIpRequestId, UUID>,
    app_client_id: ClientId,
    app_session_id: SessionId,
    id: UUID,
)
    requires
        !before.contains_key((app_client_id as int * 0x1_0000 + app_session_id as int) as u32),
    ensures
        ({
            let request_id = (app_client_id as int * 0x1_0000 + app_session_id as int) as u32;
            &&& before.insert(request_id, id).contains_key(request_id)
            &&& before.insert(request_id, id)[request_id] == id
            &&& before.insert(request_id, id).remove(request_id) == before
            &&& high_half(request_id) == app_client_id
            &&& low_half(request_id) == app_session_id
        }),
{
    let request_id = (app_client_id as int * 0x1_0000 + app_session_id as int) as u32;
    crate::ids::lemma_request_id_round_trip(app_client_id, app_session_id);
    assert(before.insert(request_id, id).remove(request_id) =~= before);
}

/// A listener whose sink filter names resource zero listens for responses, and is served by the
/// client of the source filter's uEntity: the lower 16 bits of its id. The client reads such
/// filters as the transport's own registration rules do.
pub proof fn lemma_response_listener_served_by_source_client(source_filter: UUri, sink: UUri)
    requires
        sink.resource_id == 0,
    ensures
        client_registration_of(source_filter, Some(sink)) matches RegistrationType::Response(c)
            && c as int == source_filter.ue_id as int % 0x1_0000,
        client_registration_of(source_filter, Some(sink)) == registration_of(source_filter, Some(sink)),
{
}

/// A listener whose sink filter names a method (resource id neither zero nor the wildcard) listens
/// for requests, and is served by the client of the sink filter's uEntity: the lower 16 bits of
/// its id.
pub proof fn lemma_request_listener_served_by_sink_client(source_filter: UUri, sink: UUri)
    requires
        sink.resource_id != 0,
        sink.resource_id != WILDCARD_RESOURCE_ID,
    ensures
        client_registration_of(source_filter, Some(sink)) matches RegistrationType::Request(c)
            && c as int == sink.ue_id as int % 0x1_0000,
{
}

/// Unregistering a publication or request listener removes the handler that registering it
/// installed: the same service and method. For a publication listener these are the lower 16
/// bits of the source filter's uEntity id and resource id.
pub proof fn lemma_unregistration_removes_registered_handler(source_filter: UUri, sink_filter: Option<UUri>)
    requires
        client_registration_of(source_filter, sink_filter) is Publish
            || client_registration_of(source_filter, sink_filter) is Request,
    ensures
        registration_plan_of(source_filter, sink_filter) matches Some(plan)
            && unregistration_target_of(source_filter, sink_filter) matches Some(target)
            && target.service_id == plan.handler.service_id && target.method_id == plan.handler.method_id,
        sink_filter is None ==> (unregistration_target_of(source_filter, sink_filter) matches Some(target)
            && target.service_id as int == source_filter.ue_id as int % 0x1_0000
            && target.method_id as int == source_filter.resource_id as int % 0x1_0000),
{
}

/// A publication goes out as a notification on the service and event that a listener for it,
/// registered with the publication's source as filter, installs its handler under: the lower 16
/// bits of the source's uEntity id and resource id, on the default instance.
pub proof fn lemma_publication_reaches_registered_listener(source: UUri)
    ensures
        registration_plan_of(source, None) matches Some(plan)
            && publish_header_of(source).service_id == plan.handler.service_id
            && publish_header_of(source).method_id == plan.handler.method_id
            && publish_header_of(source).instance_id == plan.handler.instance_id,
        publish_header_of(source).message_type == SomeIpMessageType::MT_NOTIFICATION,
        publish_header_of(source).service_id as int == source.ue_id as int % 0x1_0000,
        publish_header_of(source).method_id as int == source.resource_id as int % 0x1_0000,
        publish_header_of(source).instance_id == 1,
{
}

/// A response goes back from the service and method that its source names and that the request
/// it answers was addressed to: the lower 16 bits of the source's uEntity id and resource id, on
/// the default instance. Its client and session ids are the two halves of the SOME/IP request
/// id, which they make up again.
pub proof fn lemma_response_goes_out_from_its_source(source: UUri, request_id: SomeIpRequestId, commstatus: Option<UCode>)
    ensures
        response_header_of(source, request_id, commstatus).service_id == request_header_of(source).service_id,
        response_header_of(source, request_id, commstatus).method_id == request_header_of(source).method_id,
        response_header_of(source, request_id, commstatus).service_id as int == source.ue_id as int % 0x1_0000,
        response_header_of(source, request_id, commstatus).method_id as int == source.resource_id as int % 0x1_0000,
        response_header_of(source, request_id, commstatus).instance_id == 1,
        response_header_of(source, request_id, commstatus).interface_version
            == Some((source.ue_version_major as int % 0x100) as u8),
        response_header_of(source, request_id, commstatus).client_id matches Some(c)
            && response_header_of(source, request_id, commstatus).session_id matches Some(s)
            && c as int * 0x1_0000 + s as int == request_id as int,
        commstatus == Some(UCode::OK) ==> response_header_of(source, request_id, commstatus).message_type
            == SomeIpMessageType::MT_RESPONSE && response_header_of(source, request_id, commstatus).return_code
            == Some(ReturnCode::E_OK),
        commstatus != Some(UCode::OK) ==> response_header_of(source, request_id, commstatus).message_type
            == SomeIpMessageType::MT_ERROR && response_header_of(source, request_id, commstatus).return_code
            == Some(ReturnCode::E_NOT_OK),
{
    let h = response_header_of(source, request_id, commstatus);
    assert(h.client_id->0 as int == request_id as int / 0x1_0000);
    assert(h.session_id->0 as int == request_id as int % 0x1_0000);
}

/// A request goes to the service and method that its sink names: the lower 16 bits of the
/// sink's uEntity id and resource id, on the default instance.
pub proof fn lemma_request_goes_to_its_sink(sink: UUri)
    ensures
        request_header_of(sink).service_id as int == sink.ue_id as int % 0x1_0000,
        request_header_of(sink).method_id as int == sink.resource_id as int % 0x1_0000,
        request_header_of(sink).instance_id == 1,
{
}

/// Registering a listener installs its handler on the service and method that its filters name:
/// a publication listener on the lower 16 bits of the source filter's uEntity id and resource id,
/// on the default instance, offering that service; a request listener on those of the sink
/// filter, on any instance, offering the sink's service on the default instance; a response
/// listener on those of the source filter, on any instance, offering nothing; the point-to-point
/// listener on any service, instance and method. Unregistering a request or response listener
/// removes the handler on the sink filter's service and method.
pub proof fn lemma_handlers_sit_on_the_named_method(source_filter: UUri, sink_filter: Option<UUri>)
    ensures
        sink_filter is None ==> (registration_plan_of(source_filter, sink_filter) matches Some(plan)
            && plan.handler.service_id as int == source_filter.ue_id as int % 0x1_0000
            && plan.handler.method_id as int == source_filter.resource_id as int % 0x1_0000
            && plan.handler.instance_id == 1
            && plan.offer == Some((plan.handler.service_id, 1u16))),
        (sink_filter is Some && client_registration_of(source_filter, sink_filter) is Request) ==> (
            registration_plan_of(source_filter, sink_filter) matches Some(plan)
            && plan.handler.service_id as int == sink_filter.unwrap().ue_id as int % 0x1_0000
            && plan.handler.method_id as int == sink_filter.unwrap().resource_id as int % 0x1_0000
            && plan.handler.instance_id == ANY_INSTANCE
            && plan.offer == Some((plan.handler.service_id, 1u16))),
        (sink_filter is Some && client_registration_of(source_filter, sink_filter) is Response) ==> (
            registration_plan_of(source_filter, sink_filter) matches Some(plan)
            && plan.handler.service_id as int == source_filter.ue_id as int % 0x1_0000
            && plan.handler.method_id as int == source_filter.resource_id as int % 0x1_0000
            && plan.handler.instance_id == ANY_INSTANCE
            && plan.offer is None),
        client_registration_of(source_filter, sink_filter) is AllPointToPoint ==> (
            registration_plan_of(source_filter, sink_filter) matches Some(plan)
            && plan.handler == HandlerTarget { service_id: ANY_SERVICE, instance_id: ANY_INSTANCE, method_id: ANY_METHOD }
            && plan.offer is None),
        (sink_filter is Some && (client_registration_of(source_filter, sink_filter) is Request
            || client_registration_of(source_filter, sink_filter) is Response)) ==> (
            unregistration_target_of(source_filter, sink_filter) matches Some(target)
            && target.service_id as int == sink_filter.unwrap().ue_id as int % 0x1_0000
            && target.method_id as int == sink_filter.unwrap().resource_id as int % 0x1_0000
            && target.instance_id == ANY_INSTANCE),
{
}

} // verus!
