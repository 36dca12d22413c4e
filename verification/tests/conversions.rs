use std::collections::HashSet;
use up_transport_vsomeip::client::{
    convert_umsg_to_vsomeip_msg, convert_vsomeip_msg_to_umsg, determine_registration_type as client_registration_type,
    get_request_session_id, register_listener_internal, route_to_application, send_internal,
    unregister_listener_internal, HandlerTarget, IncomingVsomeipMessage, SessionCounter,
    UMessage, UMessageAttributes, UMessageKind, VsomeipAppName, ANY_INSTANCE, ANY_METHOD,
    ANY_SERVICE,
};
use up_transport_vsomeip::determinations::{
    determine_registration_type, is_point_to_point_message, retrieve_session_id,
    RegistrationType, SessionIdTracking, SomeIpMessageType,
};
use up_transport_vsomeip::determine_message_type::{determine_type, RegistrationType as Kind};
use up_transport_vsomeip::frame_wire::{
    encode_frame_payload, UAttributes, UEncoding, UFrameMetadata, UMessageType, UOwnedFrame,
    UPriority,
};
use up_transport_vsomeip::message_conversions::{
    ReturnCode, UFrameToVsomeipMessage, VsomeipMessageToUFrame,
};
use up_transport_vsomeip::rpc_correlation::{InMemoryRpcCorrelationRegistry, RpcCorrelation2};
use up_transport_vsomeip::status::{UCode, UStatus};
use up_transport_vsomeip::uri::{
    any_uuri, is_wildcard_authority, try_any_uuri_fixed_authority_id, uuri_ue_id, UUri,
};
use up_transport_vsomeip::uuid::UUID;
use up_transport_vsomeip::vsomeip_offered_requested::VsomeipOfferedRequested;

fn uri(authority: &str, ue_id: u32, version: u32, resource: u32) -> UUri {
    UUri {
        authority_name: authority.to_string(),
        ue_id,
        ue_version_major: version,
        resource_id: resource,
    }
}

fn new_id() -> UUID {
    let id = up_rust::UUID::build();
    UUID { msb: id.msb, lsb: id.lsb }
}

fn frame(kind: UMessageType, source: &str, sink: Option<&str>) -> UOwnedFrame {
    UOwnedFrame {
        metadata: UFrameMetadata {
            attributes: UAttributes {
                id: new_id(),
                message_type: kind,
                priority: UPriority::CS4,
                ttl: None,
                source: source.to_string(),
                sink: sink.map(|s| s.to_string()),
                request_id: None,
                traceparent: None,
                token: None,
                permission_level: None,
                commstatus: None,
            },
            encoding: UEncoding {
                format_id: "raw".to_string(),
                content_type: "application/octet-stream".to_string(),
                schema_ref: None,
            },
        },
        payload: vec![7, 8],
    }
}

#[test]
fn publish_goes_out_as_the_sources_event_and_is_offered_once() {
    let mut offered = VsomeipOfferedRequested::new();
    let publish = frame(UMessageType::Publish, "//vehicle/A8000/2/8001", None);
    let first = UFrameToVsomeipMessage::frame_publish_to_vsomeip_notification(&publish, &mut offered).unwrap();
    assert_eq!(
        (first.service_id, first.instance_id, first.event_id, first.offer_first),
        (0x8000, 1, 0x8001, true)
    );
    let again = UFrameToVsomeipMessage::frame_publish_to_vsomeip_notification(&publish, &mut offered).unwrap();
    assert!(!again.offer_first);
    assert!(offered.is_event_offered(0x8000, 1, 0x8001));

    let bad = frame(UMessageType::Publish, "not a uri at all", None);
    let error = UFrameToVsomeipMessage::frame_publish_to_vsomeip_notification(&bad, &mut offered).unwrap_err();
    assert_eq!(error.code, UCode::INVALID_ARGUMENT);
}

#[test]
fn request_goes_to_the_sinks_method() {
    let request = frame(UMessageType::Request, "//vehicle/A8000/2/0", Some("//service/1B8000/3/10"));
    let header = UFrameToVsomeipMessage::frame_request_to_vsomeip_message(&request).unwrap();
    assert_eq!(header.service_id, 0x8000);
    assert_eq!(header.instance_id, 1);
    assert_eq!(header.method_id, 0x10);
    assert_eq!(header.interface_version, 3);
    assert_eq!(header.return_code, ReturnCode::E_OK);
    assert_eq!(header.message_type, SomeIpMessageType::MT_REQUEST);

    let no_sink = frame(UMessageType::Request, "//vehicle/A8000/2/0", None);
    let error = UFrameToVsomeipMessage::frame_request_to_vsomeip_message(&no_sink).unwrap_err();
    assert_eq!(error.code, UCode::INVALID_ARGUMENT);
}

#[test]
fn response_goes_back_to_the_recorded_request() {
    let mut correlation = InMemoryRpcCorrelationRegistry::new();
    let mut request_frame = frame(UMessageType::Request, "//vehicle/A8000/2/0", Some("//service/B8000/1/10"));
    request_frame.payload = vec![1];
    let bytes = encode_frame_payload(&request_frame).unwrap();
    let received = VsomeipMessageToUFrame::convert_vsomeip_msg_to_frame(
        &mut correlation,
        SomeIpMessageType::MT_REQUEST,
        Some(bytes.clone()),
        0x1234_0007,
    )
    .unwrap();
    assert_eq!(received, request_frame);
    let duplicate = VsomeipMessageToUFrame::convert_vsomeip_msg_to_frame(
        &mut correlation,
        SomeIpMessageType::MT_REQUEST,
        Some(bytes),
        0x1234_0008,
    )
    .unwrap_err();
    assert_eq!(duplicate.code, UCode::ALREADY_EXISTS);

    let mut response = frame(UMessageType::Response, "//service/B8000/1/10", Some("//vehicle/A8000/2/0"));
    response.metadata.attributes.request_id = Some(request_frame.metadata.attributes.id);
    let header = UFrameToVsomeipMessage::frame_response_to_vsomeip_message(&response, &mut correlation).unwrap();
    assert_eq!(header.client_id, Some(0x1234));
    assert_eq!(header.session_id, Some(0x0007));
    assert_eq!(header.message_type, SomeIpMessageType::MT_RESPONSE);
    assert_eq!(header.return_code, ReturnCode::E_OK);
    assert_eq!(header.method_id, 0x10);

    let again = UFrameToVsomeipMessage::frame_response_to_vsomeip_message(&response, &mut correlation).unwrap_err();
    assert_eq!(again.code, UCode::NOT_FOUND);

    response.metadata.attributes.request_id = None;
    let no_id = UFrameToVsomeipMessage::frame_response_to_vsomeip_message(&response, &mut correlation).unwrap_err();
    assert_eq!(no_id.code, UCode::INVALID_ARGUMENT);
}

#[test]
fn failed_response_status_becomes_an_error_with_the_mapped_return_code() {
    let mut correlation = InMemoryRpcCorrelationRegistry::new();
    let request_id = new_id();
    correlation.insert_me_request_correlation(request_id, 0x0001_0002).unwrap();
    let mut response = frame(UMessageType::Response, "//service/B8000/1/10", Some("//vehicle/A8000/2/0"));
    response.metadata.attributes.request_id = Some(request_id);
    response.metadata.attributes.commstatus = Some(UCode::NOT_FOUND);
    let header = UFrameToVsomeipMessage::frame_response_to_vsomeip_message(&response, &mut correlation).unwrap();
    assert_eq!(header.message_type, SomeIpMessageType::MT_ERROR);
    assert_eq!(header.return_code, ReturnCode::E_UNKNOWN_SERVICE);
}

#[test]
fn status_codes_map_to_return_codes() {
    let cases = [
        (UCode::OK, ReturnCode::E_OK),
        (UCode::INVALID_ARGUMENT, ReturnCode::E_WRONG_MESSAGE_TYPE),
        (UCode::DEADLINE_EXCEEDED, ReturnCode::E_TIMEOUT),
        (UCode::NOT_FOUND, ReturnCode::E_UNKNOWN_SERVICE),
        (UCode::UNAVAILABLE, ReturnCode::E_UNKNOWN_SERVICE),
        (UCode::DATA_LOSS, ReturnCode::E_MALFORMED_MESSAGE),
        (UCode::INTERNAL, ReturnCode::E_NOT_REACHABLE),
        (UCode::UNKNOWN, ReturnCode::E_NOT_OK),
        (UCode::FAILED_PRECONDITION, ReturnCode::E_WRONG_PROTOCOL_VERSION),
        (UCode::CANCELLED, ReturnCode::E_UNKNOWN),
    ];
    for (code, expected) in cases {
        assert_eq!(UFrameToVsomeipMessage::ucode_to_vsomeip_err_code(code), expected);
    }
}

#[test]
fn incoming_messages_are_checked() {
    let mut correlation = InMemoryRpcCorrelationRegistry::new();
    let missing = VsomeipMessageToUFrame::convert_vsomeip_msg_to_frame(
        &mut correlation,
        SomeIpMessageType::MT_NOTIFICATION,
        None,
        0,
    )
    .unwrap_err();
    assert_eq!(missing.code, UCode::INTERNAL);
    let garbage = VsomeipMessageToUFrame::convert_vsomeip_msg_to_frame(
        &mut correlation,
        SomeIpMessageType::MT_NOTIFICATION,
        Some(vec![1, 2, 3]),
        0,
    )
    .unwrap_err();
    assert_eq!(garbage.code, UCode::INVALID_ARGUMENT);
    let publish = frame(UMessageType::Publish, "//vehicle/A8000/2/8001", None);
    let bytes = encode_frame_payload(&publish).unwrap();
    let passed = VsomeipMessageToUFrame::convert_vsomeip_msg_to_frame(
        &mut correlation,
        SomeIpMessageType::MT_NOTIFICATION,
        Some(bytes.clone()),
        0,
    )
    .unwrap();
    assert_eq!(passed, publish);
    let unhandled = VsomeipMessageToUFrame::convert_vsomeip_msg_to_frame(
        &mut correlation,
        SomeIpMessageType::MT_REQUEST_ACK,
        Some(bytes),
        0,
    )
    .unwrap_err();
    assert_eq!(unhandled.code, UCode::OUT_OF_RANGE);
}

#[test]
fn registration_types_follow_the_filters() {
    let source = uri("vehicle", 0x0001_1234, 1, 0x8001);
    assert_eq!(
        determine_registration_type(&source, &None).unwrap(),
        RegistrationType::Publish(0x1234)
    );
    assert_eq!(
        determine_registration_type(&source, &Some(uri("service", 0x5678, 1, 0))).unwrap(),
        RegistrationType::Response(0x1234)
    );
    assert_eq!(
        determine_registration_type(&source, &Some(uri("service", 0x5678, 1, 0x10))).unwrap(),
        RegistrationType::Request(0x5678)
    );
    let streamer_source = uri("local", 0xFFFF, 0xFF, 0xFFFF);
    assert_eq!(
        determine_registration_type(&streamer_source, &Some(any_uuri())).unwrap(),
        RegistrationType::AllPointToPoint(0xFFFF)
    );
    assert_eq!(determine_type(&source, &None).unwrap(), Kind::Publish);
    assert_eq!(
        determine_type(&any_uuri(), &Some(uri("local", 0xFFFF, 0xFF, 0xFFFF))).unwrap(),
        Kind::AllPointToPoint
    );
    assert_eq!(
        determine_type(&source, &Some(uri("service", 0x5678, 1, 0))).unwrap(),
        Kind::Response
    );
    assert_eq!(
        determine_type(&source, &Some(uri("service", 0x5678, 1, 0x10))).unwrap(),
        Kind::Request
    );
    assert!(is_point_to_point_message(SomeIpMessageType::MT_ERROR));
    assert!(!is_point_to_point_message(SomeIpMessageType::MT_NOTIFICATION));
}

#[test]
fn sessions_count_up_per_client() {
    let mut tracking = SessionIdTracking::new();
    assert_eq!(retrieve_session_id(&mut tracking, 7), 1);
    assert_eq!(retrieve_session_id(&mut tracking, 7), 2);
    assert_eq!(retrieve_session_id(&mut tracking, 8), 1);
    let mut correlation = RpcCorrelation2::new();
    assert_eq!(correlation.retrieve_session_id(3), 1);
    assert_eq!(correlation.retrieve_session_id(3), 2);
}

#[test]
fn request_correlation_round_trips_in_both_directions() {
    let mut correlation = RpcCorrelation2::new();
    let id = new_id();
    correlation.insert_ue_request_correlation(0x0001_0001, &id).unwrap();
    assert_eq!(
        correlation.insert_ue_request_correlation(0x0001_0001, &id).unwrap_err().code,
        UCode::ALREADY_EXISTS
    );
    assert_eq!(correlation.remove_ue_request_correlation(0x0001_0001).unwrap(), id);
    assert_eq!(
        correlation.remove_ue_request_correlation(0x0001_0001).unwrap_err().code,
        UCode::NOT_FOUND
    );
    correlation.insert_me_request_correlation(id, 9).unwrap();
    assert_eq!(correlation.remove_me_request_correlation(&id).unwrap(), 9);
    assert_eq!(correlation.remove_me_request_correlation(&id).unwrap_err().code, UCode::NOT_FOUND);
}

#[test]
fn uris_of_parts() {
    let uri = try_any_uuri_fixed_authority_id(&"vehicle".to_string(), 0x0002_1234).unwrap();
    assert_eq!(uri.authority_name, "vehicle");
    assert_eq!(uri.ue_id, 0x0002_1234);
    assert_eq!(uri.ue_version_major, 0xFF);
    assert_eq!(uri.resource_id, 0xFFFF);
    assert!(try_any_uuri_fixed_authority_id(&"bad authority:1234".to_string(), 1).is_none());
    assert_eq!(uuri_ue_id(&uri), 0x0002_1234);
    assert!(is_wildcard_authority(&"*".to_string()));
    assert!(!is_wildcard_authority(&"**".to_string()));
}

#[test]
fn status_codes_round_trip_through_their_numbers() {
    for value in 0..=16u8 {
        let code = UCode::from_u8(value).unwrap();
        assert_eq!(code.as_u8(), value);
    }
    assert_eq!(UCode::from_u8(17), None);
    assert_eq!(UCode::INTERNAL.as_u8(), 13);
    let status = UStatus::fail_with_code(UCode::ABORTED, "aborted");
    assert_eq!(status.code(), UCode::ABORTED);
}

#[test]
fn uuid_as_one_number() {
    let id = UUID { msb: 1, lsb: 2 };
    assert_eq!(id.to_u128(), (1u128 << 64) | 2);
}

fn client_message(kind: UMessageKind, source: Option<UUri>, sink: Option<UUri>) -> UMessage {
    UMessage {
        attributes: UMessageAttributes {
            id: Some(new_id()),
            message_type: kind,
            source,
            sink,
            reqid: None,
            ttl: None,
            commstatus: None,
        },
        payload: Some(vec![4, 5]),
    }
}

#[test]
fn client_registration_plans() {
    let me_source = uri("me_authority", 0xFFFF, 0xFF, 0xFFFF);
    assert_eq!(
        client_registration_type(&me_source, &Some(any_uuri())).unwrap(),
        RegistrationType::AllPointToPoint(0xFFFF)
    );
    let source = uri("vehicle", 0x1234, 1, 0x8001);
    assert_eq!(client_registration_type(&source, &None).unwrap(), RegistrationType::Publish(0));

    let publish = register_listener_internal(&source, &None).unwrap();
    assert_eq!(publish.offer, Some((0x1234, 1)));
    assert_eq!(
        publish.handler,
        HandlerTarget { service_id: 0x1234, instance_id: 1, method_id: 0x8001 }
    );
    let request = register_listener_internal(&source, &Some(uri("service", 0x5678, 1, 0x10))).unwrap();
    assert_eq!(request.offer, Some((0x5678, 1)));
    assert_eq!(
        request.handler,
        HandlerTarget { service_id: 0x5678, instance_id: ANY_INSTANCE, method_id: 0x10 }
    );
    let response = register_listener_internal(&source, &Some(uri("service", 0x5678, 1, 0))).unwrap();
    assert_eq!(response.offer, None);
    assert_eq!(
        response.handler,
        HandlerTarget { service_id: 0x1234, instance_id: ANY_INSTANCE, method_id: 0x8001 }
    );
    let all = register_listener_internal(&me_source, &Some(any_uuri())).unwrap();
    assert_eq!(
        all.handler,
        HandlerTarget { service_id: ANY_SERVICE, instance_id: ANY_INSTANCE, method_id: ANY_METHOD }
    );
    let removed = unregister_listener_internal(&source, &Some(uri("service", 0x5678, 1, 0))).unwrap();
    assert_eq!(
        removed,
        HandlerTarget { service_id: 0x5678, instance_id: ANY_INSTANCE, method_id: 0 }
    );
}

#[test]
fn client_conversions_keep_requests_and_responses_correlated() {
    let mut correlation = RpcCorrelation2::new();
    let mut counter = SessionCounter::new();
    let source = uri("vehicle", 0x0000_0042, 1, 0);
    let sink = uri("service", 0x0000_5678, 3, 0x10);

    let request = client_message(UMessageKind::Request, Some(source.clone()), Some(sink.clone()));
    let sent = convert_umsg_to_vsomeip_msg(&request, &mut correlation, &mut counter, 0x0100).unwrap();
    assert_eq!(sent.header.service_id, 0x5678);
    assert_eq!(sent.header.method_id, 0x10);
    assert_eq!(sent.header.interface_version, Some(3));
    assert_eq!(sent.payload, vec![4, 5]);
    assert_eq!(get_request_session_id(&mut counter), 2);

    let incoming = IncomingVsomeipMessage {
        message_type: SomeIpMessageType::MT_RESPONSE,
        request_id: 0x0100_0001,
        service_id: 0x5678,
        client_id: 0x0100,
        method_id: 0x10,
        interface_version: 3,
        payload: vec![6],
    };
    let response_id = new_id();
    let response = convert_vsomeip_msg_to_umsg(&incoming, &"local".to_string(), &mut correlation, response_id).unwrap();
    assert_eq!(response.attributes.reqid, request.attributes.id);
    assert_eq!(response.attributes.commstatus, Some(UCode::OK));
    assert_eq!(response.attributes.sink, Some(uri("local", 0x0100, 1, 0)));
    assert_eq!(response.attributes.source, Some(uri("me_authority", 0x5678, 3, 0x10)));
    let again = convert_vsomeip_msg_to_umsg(&incoming, &"local".to_string(), &mut correlation, new_id()).unwrap_err();
    assert_eq!(again.code, UCode::NOT_FOUND);

    let arriving = IncomingVsomeipMessage {
        message_type: SomeIpMessageType::MT_REQUEST,
        request_id: 0x0077_0005,
        service_id: 0x1111,
        client_id: 0x0077,
        method_id: 0x22,
        interface_version: 1,
        payload: vec![9],
    };
    let arrived_id = new_id();
    let arrived = convert_vsomeip_msg_to_umsg(&arriving, &"local".to_string(), &mut correlation, arrived_id).unwrap();
    assert_eq!(arrived.attributes.ttl, Some(1000));
    assert_eq!(arrived.attributes.source, Some(uri("me_authority", 0x0077, 1, 0)));

    let mut answer = client_message(
        UMessageKind::Response,
        Some(uri("local", 0x1111, 1, 0x22)),
        Some(uri("me_authority", 0x0077, 1, 0)),
    );
    answer.attributes.reqid = Some(arrived_id);
    answer.attributes.commstatus = Some(UCode::OK);
    let answered = convert_umsg_to_vsomeip_msg(&answer, &mut correlation, &mut counter, 0x0100).unwrap();
    assert_eq!(answered.header.client_id, Some(0x0077));
    assert_eq!(answered.header.session_id, Some(0x0005));
    assert_eq!(answered.header.message_type, SomeIpMessageType::MT_RESPONSE);
    let unanswerable = convert_umsg_to_vsomeip_msg(&answer, &mut correlation, &mut counter, 0x0100).unwrap_err();
    assert_eq!(unanswerable.code, UCode::NOT_FOUND);

    let notification = IncomingVsomeipMessage {
        message_type: SomeIpMessageType::MT_NOTIFICATION,
        request_id: 0,
        service_id: 0x1111,
        client_id: 0,
        method_id: 0x8001,
        interface_version: 1,
        payload: vec![1],
    };
    let published = convert_vsomeip_msg_to_umsg(&notification, &"local".to_string(), &mut correlation, new_id()).unwrap();
    assert_eq!(published.attributes.message_type, UMessageKind::Publish);
    assert_eq!(published.payload, None);
    let mut unknown = notification.clone();
    unknown.message_type = SomeIpMessageType::MT_UNKNOWN;
    assert_eq!(
        convert_vsomeip_msg_to_umsg(&unknown, &"local".to_string(), &mut correlation, new_id()).unwrap_err().code,
        UCode::OUT_OF_RANGE
    );
}

#[test]
fn client_send_rejects_unsupported_messages() {
    let mut correlation = RpcCorrelation2::new();
    let mut counter = SessionCounter::new();
    let source = uri("vehicle", 0x42, 1, 0x8001);
    let notification = client_message(UMessageKind::Notification, Some(source.clone()), None);
    assert_eq!(
        send_internal(&notification, &mut correlation, &mut counter, 1).unwrap_err().code,
        UCode::INVALID_ARGUMENT
    );
    let no_source = client_message(UMessageKind::Publish, None, None);
    assert_eq!(send_internal(&no_source, &mut correlation, &mut counter, 1).unwrap(), None);
    let publish = client_message(UMessageKind::Publish, Some(source), None);
    let sent = send_internal(&publish, &mut correlation, &mut counter, 1).unwrap().unwrap();
    assert!(sent.header.request_service);
    assert_eq!(sent.header.message_type, SomeIpMessageType::MT_NOTIFICATION);
}

#[test]
fn commands_are_routed_to_running_applications() {
    let mut running = HashSet::new();
    running.insert(0x5678u16);
    let source = uri("vehicle", 0x1234, 1, 0);
    assert_eq!(
        route_to_application(&running, &Some(source.clone()), &Some(uri("service", 0x5678, 1, 0x10))).unwrap(),
        0x5678
    );
    assert_eq!(
        route_to_application(&running, &Some(source), &None).unwrap_err().code,
        UCode::NOT_FOUND
    );
    assert_eq!(
        route_to_application(&running, &None, &None).unwrap_err().code,
        UCode::INVALID_ARGUMENT
    );
}

#[test]
fn application_names_join_authority_and_client_id() {
    let name = VsomeipAppName::new(&"vehicle".to_string(), 4321);
    assert_eq!(name.app_name(), "vehicle_4321");
    assert_eq!(VsomeipAppName::new(&"a".to_string(), 0).app_name(), "a_0");
}

#[test]
fn session_counter_wraps_around() {
    let mut counter = SessionCounter::new();
    assert_eq!(get_request_session_id(&mut counter), 1);
    for _ in 0..(u16::MAX as u32 - 1) {
        get_request_session_id(&mut counter);
    }
    assert_eq!(get_request_session_id(&mut counter), 0);
}

#[test]
fn incoming_messages_the_builder_refuses_fail_with_internal() {
    let mut correlation = RpcCorrelation2::new();
    let notification = IncomingVsomeipMessage {
        message_type: SomeIpMessageType::MT_NOTIFICATION,
        request_id: 0,
        service_id: 0x1111,
        client_id: 0,
        method_id: 0x0001,
        interface_version: 1,
        payload: vec![],
    };
    assert_eq!(
        convert_vsomeip_msg_to_umsg(&notification, &"local".to_string(), &mut correlation, new_id()).unwrap_err().code,
        UCode::INTERNAL
    );

    let request = IncomingVsomeipMessage {
        message_type: SomeIpMessageType::MT_REQUEST,
        request_id: 0x0077_0009,
        service_id: 0x1111,
        client_id: 0x0077,
        method_id: 0x22,
        interface_version: 1,
        payload: vec![9],
    };
    let not_uprotocol = UUID { msb: 0, lsb: 0 };
    assert_eq!(
        convert_vsomeip_msg_to_umsg(&request, &"local".to_string(), &mut correlation, not_uprotocol).unwrap_err().code,
        UCode::INTERNAL
    );
    assert_eq!(
        correlation.remove_me_request_correlation(&not_uprotocol).unwrap_err().code,
        UCode::NOT_FOUND
    );
}

#[test]
fn directed_notifications_go_out_as_requests_without_return() {
    let notification = frame(UMessageType::Notification, "//vehicle/A8000/2/8001", Some("//service/1B8000/3/10"));
    let header = UFrameToVsomeipMessage::frame_notification_to_vsomeip_message(&notification).unwrap();
    assert_eq!(header.message_type, SomeIpMessageType::MT_REQUEST_NO_RETURN);
    assert_eq!(header.service_id, 0x8000);
    assert_eq!(header.instance_id, 1);
    assert_eq!(header.method_id, 0x10);
    assert_eq!(header.interface_version, 3);
    let undirected = frame(UMessageType::Notification, "//vehicle/A8000/2/8001", None);
    assert_eq!(
        UFrameToVsomeipMessage::frame_notification_to_vsomeip_message(&undirected).unwrap_err().code,
        UCode::INVALID_ARGUMENT
    );
}

#[test]
fn a_response_without_a_recorded_request_names_its_request_id() {
    let mut correlation = RpcCorrelation2::new();
    let error = correlation.remove_ue_request_correlation(0x0100_0001).unwrap_err();
    assert_eq!(error.code, UCode::NOT_FOUND);
    assert_eq!(error.message, "Corresponding reqid not found for this SOME/IP RESPONSE: 16777217");
}
