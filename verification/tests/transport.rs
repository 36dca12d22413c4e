use up_transport_vsomeip::application_registry::ApplicationRegistry;
use up_transport_vsomeip::client::VsomeipAppName;
use up_transport_vsomeip::status::decimal_text;
use up_transport_vsomeip::transport::{
    application_for_client, application_for_unregistration, incoming_payload, ApplicationChoice,
};
use up_transport_vsomeip::status::UCode;
use up_transport_vsomeip::transport::{validate_payload_encoding_matches_assumption, PayloadEncoding};

#[test]
fn matching_registered_and_private_encodings_are_accepted() {
    let encodings = [
        PayloadEncoding::protobuf_wrapped_in_any(),
        PayloadEncoding::protobuf(),
        PayloadEncoding::json(),
        PayloadEncoding::someip(),
        PayloadEncoding::someip_tlv(),
        PayloadEncoding::raw(),
        PayloadEncoding::text(),
        PayloadEncoding::shm(),
        PayloadEncoding::from_registry_entry(0x1000_0042),
    ];

    for encoding in encodings {
        let payload = Some(Vec::<u8>::new());
        validate_payload_encoding_matches_assumption(&payload, Some(encoding), encoding).unwrap();
    }
}

#[test]
fn payload_encoding_mismatch_is_rejected() {
    let payload = Some(b"payload".to_vec());
    let error = validate_payload_encoding_matches_assumption(
        &payload,
        Some(PayloadEncoding::text()),
        PayloadEncoding::protobuf(),
    )
    .unwrap_err();

    assert_eq!(error.code(), UCode::INVALID_ARGUMENT);
    assert!(error
        .message
        .contains("does not match configured SOME/IP assumed payload encoding"));
}

#[test]
fn payloadless_message_remains_identity_free() {
    let payload: Option<Vec<u8>> = None;
    let encoding: Option<PayloadEncoding> = None;

    validate_payload_encoding_matches_assumption(&payload, encoding, PayloadEncoding::text()).unwrap();
    assert!(payload.is_none());
    assert!(encoding.is_none());
}

#[test]
fn payload_without_declared_encoding_is_rejected() {
    let error =
        validate_payload_encoding_matches_assumption(&Some(vec![1]), None, PayloadEncoding::raw())
            .unwrap_err();
    assert_eq!(error.code(), UCode::INVALID_ARGUMENT);
}

#[test]
fn payloadless_message_declaring_an_encoding_is_rejected() {
    let error = validate_payload_encoding_matches_assumption(
        &None,
        Some(PayloadEncoding::raw()),
        PayloadEncoding::raw(),
    )
    .unwrap_err();
    assert_eq!(error.code(), UCode::INVALID_ARGUMENT);
}

#[test]
fn registered_encodings_carry_their_registry_entries() {
    assert_eq!(PayloadEncoding::protobuf_wrapped_in_any().registry_entry, 1);
    assert_eq!(PayloadEncoding::protobuf().registry_entry, 2);
    assert_eq!(PayloadEncoding::json().registry_entry, 3);
    assert_eq!(PayloadEncoding::someip().registry_entry, 4);
    assert_eq!(PayloadEncoding::someip_tlv().registry_entry, 5);
    assert_eq!(PayloadEncoding::raw().registry_entry, 6);
    assert_eq!(PayloadEncoding::text().registry_entry, 7);
    assert_eq!(PayloadEncoding::shm().registry_entry, 8);
}

#[test]
fn a_client_without_application_gets_one_named_by_its_id() {
    let mut registry = ApplicationRegistry::new();
    assert_eq!(
        application_for_client(&registry, 4660),
        ApplicationChoice::Start(4660, "4660".to_string())
    );
    assert_eq!(
        application_for_unregistration(&registry, 4660).unwrap_err().code,
        UCode::NOT_FOUND
    );
    registry
        .insert_client_and_app_name(4660, "app_4660".to_string())
        .unwrap();
    assert_eq!(
        application_for_client(&registry, 4660),
        ApplicationChoice::Running("app_4660".to_string())
    );
    assert_eq!(application_for_unregistration(&registry, 4660).unwrap(), "app_4660");
}

#[test]
fn numbers_are_written_in_decimal() {
    assert_eq!(decimal_text(0), "0");
    assert_eq!(decimal_text(7), "7");
    assert_eq!(decimal_text(10), "10");
    assert_eq!(decimal_text(65535), "65535");
    assert_eq!(VsomeipAppName::new(&"me".to_string(), 305).app_name(), "me_305");
}

#[test]
fn incoming_payloads_take_the_assumed_encoding_and_zero_bytes_mean_none() {
    let (payload, encoding) = incoming_payload(vec![1, 2], PayloadEncoding::text());
    assert_eq!(payload, Some(vec![1, 2]));
    assert_eq!(encoding, Some(PayloadEncoding::text()));
    let (payload, encoding) = incoming_payload(Vec::new(), PayloadEncoding::text());
    assert_eq!(payload, None);
    assert_eq!(encoding, None);
}
