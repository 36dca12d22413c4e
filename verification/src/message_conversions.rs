//! What turns a uProtocol frame into a SOME/IP message and back: the header fields that a SOME/IP
//! message gets from a frame's URIs, the bookkeeping of offered events and of request
//! correlation, and the checks on a message that arrives.
use vstd::prelude::*;
use crate::ids::{ClientId, SessionId, ServiceId, InstanceId, MethodId, EventId, SomeIpRequestId,
    high_half, low_half, split_u32_to_u16, split_u32_to_u8};
use crate::status::{UCode, UStatus};
use crate::uri::{UUri, UriView, uri_view, uri_of_text, parse_uri};
use crate::uuid::UUID;
use crate::frame_wire::{UOwnedFrame, encode_frame, frame_well_formed, optional_text,
    decode_frame_payload, lemma_frame_encoding_is_injective, decodes, decoded};
use crate::determinations::SomeIpMessageType;
use crate::vsomeip_offered_requested::VsomeipOfferedRequested;
use crate::rpc_correlation::InMemoryRpcCorrelationRegistry;

verus! {

/// What turning a publication with the given source text into a notification does: a source
/// that does not parse fails with invalid-argument and changes nothing; otherwise the event is
/// the lower half of the source's uEntity id and resource id, on the default instance, it is
/// recorded as offered, the answer says whether it was offered for the first time, and the other
/// sets of the registry stay as they were.
pub open spec fn publish_outcome(
    source_text: Seq<char>,
    before: VsomeipOfferedRequested,
    r: Result<NotificationTarget, UStatus>,
    after: VsomeipOfferedRequested,
) -> bool {
    match uri_of_text(source_text) {
        None => r matches Err(e) && e.code == UCode::INVALID_ARGUMENT && after == before,
        Some(source) => r matches Ok(t)
            && t.service_id == low_half(source.1)
            && t.instance_id == DEFAULT_INSTANCE_ID
            && t.event_id == low_half(source.3)
            && t.offer_first == !before.offered_events().contains((t.service_id, t.instance_id, t.event_id))
            && after.offered_events() == before.offered_events().insert((t.service_id, t.instance_id, t.event_id))
            && after.offered_services() == before.offered_services()
            && after.requested_services() == before.requested_services()
            && after.requested_events() == before.requested_events(),
    }
}

/// The SOME/IP return codes that the transport sets.
#[allow(non_camel_case_types)]
#[derive(Clone, Copy, Debug, PartialEq, Eq, Structural)]
pub enum ReturnCode {
    E_OK,
    E_NOT_OK,
    E_UNKNOWN_SERVICE,
    E_NOT_REACHABLE,
    E_TIMEOUT,
    E_WRONG_PROTOCOL_VERSION,
    E_MALFORMED_MESSAGE,
    E_WRONG_MESSAGE_TYPE,
    E_UNKNOWN,
}

/// The header of a SOME/IP message to send. Client and session ids are set only on responses;
/// on a request the SOME/IP application fills them in.
#[derive(Clone, Copy, Debug, PartialEq, Eq)]
pub struct VsomeipMessageHeader {
    pub service_id: ServiceId,
    pub instance_id: InstanceId,
    pub method_id: MethodId,
    pub interface_version: u8,
    pub client_id: Option<ClientId>,
    pub session_id: Option<SessionId>,
    pub return_code: ReturnCode,
    pub message_type: SomeIpMessageType,
}

/// The event that a publication goes out as, and whether it had to be offered first.
#[derive(Clone, Copy, Debug, PartialEq, Eq)]
pub struct NotificationTarget {
    pub service_id: ServiceId,
    pub instance_id: InstanceId,
    pub event_id: EventId,
    pub offer_first: bool,
}

/// The instance that the transport addresses: instances are not told apart on SOME/IP.
pub const DEFAULT_INSTANCE_ID: InstanceId = 1;

/// The SOME/IP return code for a uProtocol status code.
pub open spec fn return_code_of(code: UCode) -> ReturnCode {
    match code {
        UCode::OK => ReturnCode::E_OK,
        UCode::INVALID_ARGUMENT => ReturnCode::E_WRONG_MESSAGE_TYPE,
        UCode::DEADLINE_EXCEEDED => ReturnCode::E_TIMEOUT,
        UCode::NOT_FOUND => ReturnCode::E_UNKNOWN_SERVICE,
        UCode::UNAVAILABLE => ReturnCode::E_UNKNOWN_SERVICE,
        UCode::DATA_LOSS => ReturnCode::E_MALFORMED_MESSAGE,
        UCode::INTERNAL => ReturnCode::E_NOT_REACHABLE,
        UCode::UNKNOWN => ReturnCode::E_NOT_OK,
        UCode::FAILED_PRECONDITION => ReturnCode::E_WRONG_PROTOCOL_VERSION,
        _ => ReturnCode::E_UNKNOWN,
    }
}

/// The header of a request to the service that a URI names: its service id is the lower half of
/// the uEntity id, its method id the lower half of the resource id, its interface version the
/// lowest byte of the major version.
pub open spec fn request_header_of(sink: UriView) -> VsomeipMessageHeader {
    VsomeipMessageHeader {
        service_id: low_half(sink.1) as u16,
        instance_id: DEFAULT_INSTANCE_ID,
        method_id: low_half(sink.3) as u16,
        interface_version: (sink.2 as int % 0x100) as u8,
        client_id: None,
        session_id: None,
        return_code: ReturnCode::E_OK,
        message_type: SomeIpMessageType::MT_REQUEST,
    }
}

/// The header of a directed notification to the method that a URI names: addressed as a request
/// is, but sent as a request that expects no return.
pub open spec fn directed_notification_header_of(sink: UriView) -> VsomeipMessageHeader {
    VsomeipMessageHeader { message_type: SomeIpMessageType::MT_REQUEST_NO_RETURN, ..request_header_of(sink) }
}

/// The header of the response from the method that a URI names to the SOME/IP request with the
/// given id: the request id splits into client and session id; without a status, or with OK, it
/// is a response, otherwise an error with the matching return code.
pub open spec fn response_header_of(source: UriView, request_id: SomeIpRequestId, commstatus: Option<UCode>) -> VsomeipMessageHeader {
    let (return_code, message_type) = match commstatus {
        None => (ReturnCode::E_OK, SomeIpMessageType::MT_RESPONSE),
        Some(UCode::OK) => (ReturnCode::E_OK, SomeIpMessageType::MT_RESPONSE),
        Some(code) => (return_code_of(code), SomeIpMessageType::MT_ERROR),
    };
    VsomeipMessageHeader {
        service_id: low_half(source.1) as u16,
        instance_id: DEFAULT_INSTANCE_ID,
        method_id: low_half(source.3) as u16,
        interface_version: (source.2 as int % 0x100) as u8,
        client_id: Some(high_half(request_id) as u16),
        session_id: Some(low_half(request_id) as u16),
        return_code,
        message_type,
    }
}

/// Whether the transport hands a SOME/IP message of this type on without recording anything.
pub open spec fn passes_through(message_type: SomeIpMessageType) -> bool {
    message_type == SomeIpMessageType::MT_NOTIFICATION || message_type == SomeIpMessageType::MT_RESPONSE
        || message_type == SomeIpMessageType::MT_ERROR
}

/// Conversions from uProtocol frames to SOME/IP messages.
pub struct UFrameToVsomeipMessage;

impl UFrameToVsomeipMessage {
    /// The SOME/IP return code for a uProtocol status code.
    pub fn ucode_to_vsomeip_err_code(ucode: UCode) -> (r: ReturnCode)
        ensures
            r == return_code_of(ucode),
    {
        match ucode {
            UCode::OK => ReturnCode::E_OK,
            UCode::INVALID_ARGUMENT => ReturnCode::E_WRONG_MESSAGE_TYPE,
            UCode::DEADLINE_EXCEEDED => ReturnCode::E_TIMEOUT,
            UCode::NOT_FOUND => ReturnCode::E_UNKNOWN_SERVICE,
            UCode::UNAVAILABLE => ReturnCode::E_UNKNOWN_SERVICE,
            UCode::DATA_LOSS => ReturnCode::E_MALFORMED_MESSAGE,
            UCode::INTERNAL => ReturnCode::E_NOT_REACHABLE,
            UCode::UNKNOWN => ReturnCode::E_NOT_OK,
            UCode::FAILED_PRECONDITION => ReturnCode::E_WRONG_PROTOCOL_VERSION,
            _ => ReturnCode::E_UNKNOWN,
        }
    }

    /// The event that a publication from a source URI goes out as: the service id is the lower
    /// half of its uEntity id, the event id the lower half of its resource id. An event offered
    /// for the first time is recorded as offered, and the answer says that it must be offered.
    pub fn notification_target(source: &UUri, registry: &mut VsomeipOfferedRequested) -> (r: NotificationTarget)
        ensures
            r.service_id == low_half(source.ue_id),
            r.instance_id == DEFAULT_INSTANCE_ID,
            r.event_id == low_half(source.resource_id),
            r.offer_first == !old(registry).offered_events().contains((r.service_id, r.instance_id, r.event_id)),
            final(registry).offered_events() == old(registry).offered_events().insert((r.service_id, r.instance_id, r.event_id)),
            final(registry).offered_services() == old(registry).offered_services(),
            final(registry).requested_services() == old(registry).requested_services(),
            final(registry).requested_events() == old(registry).requested_events(),
    {
        let (_instance_id, service_id) = split_u32_to_u16(source.ue_id);
        let instance_id = DEFAULT_INSTANCE_ID;
        let (_, event_id) = split_u32_to_u16(source.resource_id);
        let offer_first = !registry.is_event_offered(service_id, instance_id, event_id);
        if offer_first {
            registry.insert_event_offered(service_id, instance_id, event_id);
        } else {
            assert(registry.offered_events().insert((service_id, instance_id, event_id)) =~= registry.offered_events());
        }
        NotificationTarget { service_id, instance_id, event_id, offer_first }
    }

    /// The event that a publication frame goes out as, by its source URI; see
    /// `notification_target`. A source that does not parse fails with invalid-argument and
    /// changes nothing.
    pub fn frame_publish_to_vsomeip_notification(frame: &UOwnedFrame, registry: &mut VsomeipOfferedRequested)
        -> (r: Result<NotificationTarget, UStatus>)
        ensures
            publish_outcome(frame.metadata.attributes.source@, *old(registry), r, *final(registry)),
            frame_well_formed(frame@) ==> r is Ok,
    {
        match parse_uri(frame.metadata.attributes.source.as_str()) {
            Some(source) => Ok(Self::notification_target(&source, registry)),
            None => Err(UStatus::fail_with_code(UCode::INVALID_ARGUMENT, "Publish frame has an invalid source UUri")),
        }
    }

    /// The header of a request to the service that a sink URI names; see `request_header_of`.
    pub fn request_header(sink: &UUri) -> (r: VsomeipMessageHeader)
        ensures
            r == request_header_of(uri_view(*sink)),
    {
        let (_instance_id, service_id) = split_u32_to_u16(sink.ue_id);
        let (_, method_id) = split_u32_to_u16(sink.resource_id);
        let (_, _, _, interface_version) = split_u32_to_u8(sink.ue_version_major);
        VsomeipMessageHeader {
            service_id,
            instance_id: DEFAULT_INSTANCE_ID,
            method_id,
            interface_version,
            client_id: None,
            session_id: None,
            return_code: ReturnCode::E_OK,
            message_type: SomeIpMessageType::MT_REQUEST,
        }
    }

    /// The header of the SOME/IP request that a request frame goes out as, by its sink URI. A
    /// frame without a sink, or with one that does not parse, fails with invalid-argument.
    pub fn frame_request_to_vsomeip_message(frame: &UOwnedFrame) -> (r: Result<VsomeipMessageHeader, UStatus>)
        ensures
            match optional_text(frame.metadata.attributes.sink) {
                None => r matches Err(e) && e.code == UCode::INVALID_ARGUMENT,
                Some(sink) => match uri_of_text(sink) {
                    None => r matches Err(e) && e.code == UCode::INVALID_ARGUMENT,
                    Some(v) => r == Ok::<VsomeipMessageHeader, UStatus>(request_header_of(v)),
                },
            },
    {
        let sink = match &frame.metadata.attributes.sink {
            Some(s) => s,
            None => {
                return Err(UStatus::fail_with_code(UCode::INVALID_ARGUMENT, "Request frame has no sink UUri"));
            },
        };
        match parse_uri(sink.as_str()) {
            Some(sink) => Ok(Self::request_header(&sink)),
            None => Err(UStatus::fail_with_code(UCode::INVALID_ARGUMENT, "Request frame has an invalid sink UUri")),
        }
    }

    /// The header of the SOME/IP message that a directed notification frame goes out as: a
    /// request that expects no return, to the service and method that its sink names. A frame
    /// without a sink, or with one that does not parse, fails with invalid-argument.
    pub fn frame_notification_to_vsomeip_message(frame: &UOwnedFrame) -> (r: Result<VsomeipMessageHeader, UStatus>)
        ensures
            match optional_text(frame.metadata.attributes.sink) {
                None => r matches Err(e) && e.code == UCode::INVALID_ARGUMENT,
                Some(sink) => match uri_of_text(sink) {
                    None => r matches Err(e) && e.code == UCode::INVALID_ARGUMENT,
                    Some(v) => r == Ok::<VsomeipMessageHeader, UStatus>(directed_notification_header_of(v)),
                },
            },
    {
        let sink = match &frame.metadata.attributes.sink {
            Some(s) => s,
            None => {
                return Err(UStatus::fail_with_code(UCode::INVALID_ARGUMENT, "Notification frame has no sink UUri"));
            },
        };
        match parse_uri(sink.as_str()) {
            Some(sink) => {
                let header = Self::request_header(&sink);
                Ok(VsomeipMessageHeader { message_type: SomeIpMessageType::MT_REQUEST_NO_RETURN, ..header })
            },
            None => Err(UStatus::fail_with_code(UCode::INVALID_ARGUMENT, "Notification frame has an invalid sink UUri")),
        }
    }

    /// The header of the response from the method that a source URI names to the SOME/IP request
    /// with the given id; see `response_header_of`.
    pub fn response_header(source: &UUri, request_id: SomeIpRequestId, commstatus: Option<UCode>) -> (r: VsomeipMessageHeader)
        ensures
            r == response_header_of(uri_view(*source), request_id, commstatus),
            r.service_id as int == source.ue_id as int % 0x1_0000,
            r.method_id as int == source.resource_id as int % 0x1_0000,
    {
        let (_instance_id, service_id) = split_u32_to_u16(source.ue_id);
        let (_, method_id) = split_u32_to_u16(source.resource_id);
        let (_, _, _, interface_version) = split_u32_to_u8(source.ue_version_major);
        let (client_id, session_id) = split_u32_to_u16(request_id);
        let (return_code, message_type) = match commstatus {
            Some(UCode::OK) | None => (ReturnCode::E_OK, SomeIpMessageType::MT_RESPONSE),
            Some(code) => (Self::ucode_to_vsomeip_err_code(code), SomeIpMessageType::MT_ERROR),
        };
        VsomeipMessageHeader {
            service_id,
            instance_id: DEFAULT_INSTANCE_ID,
            method_id,
            interface_version,
            client_id: Some(client_id),
            session_id: Some(session_id),
            return_code,
            message_type,
        }
    }

    /// The header of the SOME/IP response that a response frame goes out as. The SOME/IP request
    /// id that its request id was recorded with is taken out of the registry and gives client and
    /// session id. A source that does not parse, or no request id, fails with invalid-argument; a
    /// request id with nothing recorded fails with not-found. A failure changes nothing.
    pub fn frame_response_to_vsomeip_message(frame: &UOwnedFrame, registry: &mut InMemoryRpcCorrelationRegistry)
        -> (r: Result<VsomeipMessageHeader, UStatus>)
        ensures
            match uri_of_text(frame.metadata.attributes.source@) {
                None => r matches Err(e) && e.code == UCode::INVALID_ARGUMENT
                    && final(registry).me_correlation() == old(registry).me_correlation(),
                Some(source) => match frame.metadata.attributes.request_id {
                    None => r matches Err(e) && e.code == UCode::INVALID_ARGUMENT
                        && final(registry).me_correlation() == old(registry).me_correlation(),
                    Some(id) => if old(registry).me_correlation().contains_key(id) {
                        &&& r == Ok::<VsomeipMessageHeader, UStatus>(response_header_of(
                            source,
                            old(registry).me_correlation()[id],
                            frame.metadata.attributes.commstatus,
                        ))
                        &&& final(registry).me_correlation() == old(registry).me_correlation().remove(id)
                    } else {
                        &&& r matches Err(e) && e.code == UCode::NOT_FOUND
                        &&& final(registry).me_correlation() == old(registry).me_correlation()
                    },
                },
            },
    {
        let source = match parse_uri(frame.metadata.attributes.source.as_str()) {
            Some(s) => s,
            None => {
                return Err(UStatus::fail_with_code(UCode::INVALID_ARGUMENT, "Response frame has an invalid source UUri"));
            },
        };
        let request_uuid = match &frame.metadata.attributes.request_id {
            Some(id) => id,
            None => {
                return Err(UStatus::fail_with_code(
                    UCode::INVALID_ARGUMENT,
                    "Response frame has no request_id for SOME/IP request correlation",
                ));
            },
        };
        let request_id = registry.remove_me_request_correlation(request_uuid)?;
        Ok(Self::response_header(&source, request_id, frame.metadata.attributes.commstatus))
    }
}

/// Conversions from SOME/IP messages to uProtocol frames.
pub struct VsomeipMessageToUFrame;

impl VsomeipMessageToUFrame {
    /// The frame that a SOME/IP message carries. A message without a payload fails with internal;
    /// a payload that is no frame's encoding fails with invalid-argument. A request has its SOME/IP
    /// request id recorded under the frame's id, and fails with already-exists when one is
    /// recorded there; notifications, responses and errors pass; any other type fails with
    /// out-of-range. A failure records nothing.
    pub fn convert_vsomeip_msg_to_frame(
        registry: &mut InMemoryRpcCorrelationRegistry,
        message_type: SomeIpMessageType,
        payload: Option<Vec<u8>>,
        request_id: SomeIpRequestId,
    ) -> (r: Result<UOwnedFrame, UStatus>)
        ensures
            match payload {
                None => r matches Err(e) && e.code == UCode::INTERNAL
                    && final(registry).me_correlation() == old(registry).me_correlation(),
                Some(bytes) => if !decodes(bytes@) {
                    &&& r matches Err(e) && e.code == UCode::INVALID_ARGUMENT
                    &&& final(registry).me_correlation() == old(registry).me_correlation()
                } else if message_type == SomeIpMessageType::MT_REQUEST {
                    if old(registry).me_correlation().contains_key(decoded(bytes@).id) {
                        &&& r matches Err(e) && e.code == UCode::ALREADY_EXISTS
                        &&& final(registry).me_correlation() == old(registry).me_correlation()
                    } else {
                        &&& r matches Ok(f) && f@ == decoded(bytes@)
                        &&& final(registry).me_correlation() == old(registry).me_correlation().insert(decoded(bytes@).id, request_id)
                    }
                } else if passes_through(message_type) {
                    &&& r matches Ok(f) && f@ == decoded(bytes@)
                    &&& final(registry).me_correlation() == old(registry).me_correlation()
                } else {
                    &&& r matches Err(e) && e.code == UCode::OUT_OF_RANGE
                    &&& final(registry).me_correlation() == old(registry).me_correlation()
                },
            },
    {
        let payload_bytes = match payload {
            Some(bytes) => bytes,
            None => {
                return Err(UStatus::fail_with_code(UCode::INTERNAL, "Unable to extract PayloadWrapper from MessageWrapper"));
            },
        };
        let ghost bytes = payload_bytes@;
        let frame = decode_frame_payload(payload_bytes)?;
        proof {
            let g = decoded(bytes);
            assert(frame_well_formed(frame@) && encode_frame(frame@) == bytes);
            lemma_frame_encoding_is_injective(g, frame@);
        }
        match message_type {
            SomeIpMessageType::MT_REQUEST => {
                registry.insert_me_request_correlation(frame.metadata.attributes.id, request_id)?;
            },
            SomeIpMessageType::MT_NOTIFICATION | SomeIpMessageType::MT_RESPONSE | SomeIpMessageType::MT_ERROR => {},
            _ => {
                return Err(UStatus::fail_with_code(UCode::OUT_OF_RANGE, "Not one of the handled message types from SOME/IP"));
            },
        }
        Ok(frame)
    }
}

/// A response to a request that arrived from SOME/IP goes back to the client and session of that
/// request: once the request's SOME/IP request id is recorded under its uProtocol id, the
/// response to that id carries the request id's client and session, and taking the record out
/// leaves the registry as it was before the request.
pub proof fn lemma_response_goes_back_to_request(
    before: Map<UUID, SomeIpRequestId>,
    id: UUID,
    request_id: SomeIpRequestId,
    source: UriView,
    commstatus: Option<UCode>,
)
    requires
        !before.contains_key(id),
    ensures
        before.insert(id, request_id).contains_key(id),
        response_header_of(source, before.insert(id, request_id)[id], commstatus).client_id == Some(high_half(request_id) as u16),
        response_header_of(source, before.insert(id, request_id)[id], commstatus).session_id == Some(low_half(request_id) as u16),
        before.insert(id, request_id).remove(id) == before,
{
    assert(before.insert(id, request_id).remove(id) =~= before);
}

/// A publication frame goes out as the same event every time, and its event is offered only the
/// first time: publishing a well-formed frame twice in a row succeeds both times with the same
/// service, instance and event, the event is recorded as offered after the first, and the second
/// does not offer it again.
pub proof fn lemma_publish_offers_event_once(
    frame: UOwnedFrame,
    r0: VsomeipOfferedRequested,
    r1: VsomeipOfferedRequested,
    r2: VsomeipOfferedRequested,
    first: Result<NotificationTarget, UStatus>,
    second: Result<NotificationTarget, UStatus>,
)
    requires
        frame_well_formed(frame@),
        publish_outcome(frame.metadata.attributes.source@, r0, first, r1),
        publish_outcome(frame.metadata.attributes.source@, r1, second, r2),
    ensures
        first matches Ok(t1) && second matches Ok(t2) && t1.service_id == t2.service_id
            && t1.instance_id == t2.instance_id && t1.event_id == t2.event_id
            && t1.offer_first == !r0.offered_events().contains((t1.service_id, t1.instance_id, t1.event_id))
            && r1.offered_events().contains((t1.service_id, t1.instance_id, t1.event_id))
            && !t2.offer_first
            && r2.offered_events() == r1.offered_events(),
{
    let t1 = first->Ok_0;
    let key = (t1.service_id, t1.instance_id, t1.event_id);
    assert(r1.offered_events().insert(key) =~= r1.offered_events());
}

/// A SOME/IP response answers from where its request went: the response from a URI carries the
/// service and method that a request to that URI is addressed to, on the default instance, with
/// the URI's interface version. Those are the lower 16 bits of the URI's uEntity id and resource
/// id and its lowest version byte, and the client and session ids are the two halves of the
/// SOME/IP request id, which they make up again.
pub proof fn lemma_response_answers_from_request_target(source: UriView, request_id: SomeIpRequestId, commstatus: Option<UCode>)
    ensures
        response_header_of(source, request_id, commstatus).service_id == request_header_of(source).service_id,
        response_header_of(source, request_id, commstatus).method_id == request_header_of(source).method_id,
        response_header_of(source, request_id, commstatus).instance_id == request_header_of(source).instance_id,
        response_header_of(source, request_id, commstatus).interface_version == request_header_of(source).interface_version,
        response_header_of(source, request_id, commstatus).service_id as int == source.1 as int % 0x1_0000,
        response_header_of(source, request_id, commstatus).method_id as int == source.3 as int % 0x1_0000,
        response_header_of(source, request_id, commstatus).instance_id == 1,
        response_header_of(source, request_id, commstatus).interface_version as int == source.2 as int % 0x100,
        response_header_of(source, request_id, commstatus).client_id matches Some(c)
            && response_header_of(source, request_id, commstatus).session_id matches Some(s)
            && c as int * 0x1_0000 + s as int == request_id as int,
        (commstatus is None || commstatus == Some(UCode::OK)) ==> response_header_of(source, request_id, commstatus).message_type
            == SomeIpMessageType::MT_RESPONSE && response_header_of(source, request_id, commstatus).return_code
            == ReturnCode::E_OK,
        (commstatus matches Some(code) && code != UCode::OK) ==> response_header_of(source, request_id, commstatus).message_type
            == SomeIpMessageType::MT_ERROR && response_header_of(source, request_id, commstatus).return_code
            == return_code_of(commstatus.unwrap()),
{
    let h = response_header_of(source, request_id, commstatus);
    assert(h.client_id->0 as int == request_id as int / 0x1_0000);
    assert(h.session_id->0 as int == request_id as int % 0x1_0000);
}

/// A request to a URI is addressed to the lower 16 bits of its uEntity id as service and of its
/// resource id as method, on the default instance.
pub proof fn lemma_request_addresses_sink(sink: UriView)
    ensures
        request_header_of(sink).service_id as int == sink.1 as int % 0x1_0000,
        request_header_of(sink).method_id as int == sink.3 as int % 0x1_0000,
        request_header_of(sink).instance_id == 1,
        request_header_of(sink).message_type == SomeIpMessageType::MT_REQUEST,
{
}

/// A publication goes out on the event that its source names: the lower 16 bits of the source's
/// uEntity id as service and of its resource id as event, on the default instance.
pub proof fn lemma_publication_goes_out_on_source_event(
    source_text: Seq<char>,
    before: VsomeipOfferedRequested,
    r: Result<NotificationTarget, UStatus>,
    after: VsomeipOfferedRequested,
)
    requires
        publish_outcome(source_text, before, r, after),
        uri_of_text(source_text) is Some,
    ensures
        r matches Ok(t) && t.service_id as int == uri_of_text(source_text).unwrap().1 as int % 0x1_0000
            && t.event_id as int == uri_of_text(source_text).unwrap().3 as int % 0x1_0000
            && t.instance_id == 1
            && after.offered_events().contains((t.service_id, t.instance_id, t.event_id)),
{
}

} // verus!
