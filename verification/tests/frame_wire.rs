use protobuf::well_known_types::wrappers::StringValue;
use protobuf::Message;
use up_transport_vsomeip::frame_wire::{
    decode_frame_payload, encode_frame_payload, write_optional_string, write_optional_u32,
    write_u32, write_u64, UAttributes, UEncoding, UFrameMetadata, UMessageType, UOwnedFrame,
    UPriority,
};
use up_transport_vsomeip::status::UCode;
use up_transport_vsomeip::uuid::UUID;

fn new_id() -> UUID {
    let id = up_rust::UUID::build();
    UUID { msb: id.msb, lsb: id.lsb }
}

fn publish_frame(source: &str, payload: &[u8]) -> UOwnedFrame {
    UOwnedFrame {
        metadata: UFrameMetadata {
            attributes: UAttributes {
                id: new_id(),
                message_type: UMessageType::Publish,
                priority: UPriority::CS1,
                ttl: None,
                source: source.to_string(),
                sink: None,
                request_id: None,
                traceparent: None,
                token: None,
                permission_level: None,
                commstatus: None,
            },
            encoding: UEncoding {
                format_id: "raw".to_string(),
                content_type: "application/octet-stream".to_string(),
                schema_ref: None,
            },
        },
        payload: payload.to_vec(),
    }
}

#[test]
fn frame_payload_round_trips_metadata_and_payload() {
    let frame = UOwnedFrame {
        metadata: UFrameMetadata {
            attributes: UAttributes {
                id: new_id(),
                message_type: UMessageType::Response,
                priority: UPriority::CS4,
                ttl: Some(1234),
                source: "//vehicle/A8000/2/8001".to_string(),
                sink: Some("//service/B8000/1/0".to_string()),
                request_id: Some(new_id()),
                traceparent: Some("traceparent".to_string()),
                token: Some("token".to_string()),
                permission_level: Some(9),
                commstatus: Some(UCode::UNAVAILABLE),
            },
            encoding: UEncoding {
                format_id: "custom".to_string(),
                content_type: "application/custom".to_string(),
                schema_ref: Some("schema://custom".to_string()),
            },
        },
        payload: vec![1_u8, 2, 3, 4],
    };

    let encoded = encode_frame_payload(&frame).unwrap();
    let decoded = decode_frame_payload(encoded).unwrap();

    assert_eq!(decoded, frame);
}

#[test]
fn rejects_invalid_frame_payload() {
    let error = decode_frame_payload(vec![1, 2, 3]).unwrap_err();

    assert_eq!(error.get_code(), UCode::INVALID_ARGUMENT);
}

#[test]
fn rejects_invalid_optional_marker_in_metadata() {
    let frame = publish_frame("//vehicle/A8000/2/8001", &[1_u8, 2, 3]);
    let mut encoded = encode_frame_payload(&frame).unwrap();
    let ttl_marker_index = 4 + 1 + 8 + 8 + 1 + 1;
    *encoded
        .get_mut(ttl_marker_index)
        .expect("encoded frame contains TTL marker") = 2;

    let error = decode_frame_payload(encoded).unwrap_err();

    assert_eq!(error.get_code(), UCode::INVALID_ARGUMENT);
}

#[test]
fn preserves_expired_ttl_metadata_for_delivery_layer() {
    let expired_id = UUID {
        msb: 0x018D_548E_A8E0_7000,
        lsb: 0x8000_0000_0000_0000,
    };
    assert!(expired_id.is_uprotocol_uuid());
    let mut frame = publish_frame("//vehicle/A8000/2/8001", &[1_u8, 2, 3]);
    frame.metadata.attributes.id = expired_id;
    frame.metadata.attributes.priority = UPriority::CS1;
    frame.metadata.attributes.ttl = Some(1);

    let decoded = decode_frame_payload(encode_frame_payload(&frame).unwrap()).unwrap();

    let attributes = up_rust::UAttributes {
        id: Some(up_rust::UUID {
            msb: decoded.metadata.attributes.id.msb,
            lsb: decoded.metadata.attributes.id.lsb,
            ..Default::default()
        })
        .into(),
        ttl: decoded.metadata.attributes.ttl,
        ..Default::default()
    };
    assert!(attributes.check_expired().is_err());
}

#[test]
fn frame_payload_preserves_protobuf_payload_as_payload_only() {
    let mut value = StringValue::new();
    value.value = "protobuf payload".to_string();
    let mut frame = publish_frame("//vehicle/A8000/2/8001", &value.write_to_bytes().unwrap());
    frame.metadata.encoding = UEncoding {
        format_id: "protobuf".to_string(),
        content_type: "application/protobuf".to_string(),
        schema_ref: None,
    };
    let encoding = frame.metadata.encoding.clone();

    let encoded = encode_frame_payload(&frame).unwrap();
    let decoded = decode_frame_payload(encoded).unwrap();
    let decoded_payload = StringValue::parse_from_bytes(&decoded.payload).unwrap();

    assert_eq!(decoded.metadata.encoding, encoding);
    assert_eq!(decoded_payload.value, value.value);
}

#[test]
fn round_trips_a_frame_without_optional_fields() {
    let frame = publish_frame("//vehicle/A8000/2/8001", &[]);
    let decoded = decode_frame_payload(encode_frame_payload(&frame).unwrap()).unwrap();
    assert_eq!(decoded, frame);
}

#[test]
fn encoding_starts_with_magic_version_and_id() {
    let frame = publish_frame("//vehicle/A8000/2/8001", &[9]);
    let encoded = encode_frame_payload(&frame).unwrap();
    assert_eq!(&encoded[0..4], b"USIP");
    assert_eq!(encoded[4], 1);
    assert_eq!(encoded[5..13], frame.metadata.attributes.id.msb.to_le_bytes());
    assert_eq!(encoded[13..21], frame.metadata.attributes.id.lsb.to_le_bytes());
    assert_eq!(*encoded.last().unwrap(), 9);
}

#[test]
fn rejects_a_source_that_is_not_a_uri() {
    let frame = publish_frame("not a uri at all", &[1]);
    let encoded = encode_frame_payload(&frame).unwrap();
    let error = decode_frame_payload(encoded).unwrap_err();
    assert_eq!(error.get_code(), UCode::INVALID_ARGUMENT);
}

#[test]
fn rejects_an_id_that_is_not_a_uprotocol_uuid() {
    let mut frame = publish_frame("//vehicle/A8000/2/8001", &[1]);
    frame.metadata.attributes.id = UUID { msb: 0, lsb: 0 };
    let encoded = encode_frame_payload(&frame).unwrap();
    let error = decode_frame_payload(encoded).unwrap_err();
    assert_eq!(error.get_code(), UCode::INVALID_ARGUMENT);
}

#[test]
fn rejects_a_truncated_frame() {
    let frame = publish_frame("//vehicle/A8000/2/8001", &[]);
    let mut encoded = encode_frame_payload(&frame).unwrap();
    encoded.truncate(encoded.len() - 1);
    assert_eq!(
        decode_frame_payload(encoded).unwrap_err().get_code(),
        UCode::INVALID_ARGUMENT
    );
}

#[test]
fn writes_little_endian_numbers_and_optional_fields() {
    let mut bytes = Vec::new();
    write_u64(&mut bytes, 0x0102_0304_0506_0708);
    assert_eq!(bytes, vec![8, 7, 6, 5, 4, 3, 2, 1]);
    let mut bytes = Vec::new();
    write_u32(&mut bytes, 0x0102_0304);
    assert_eq!(bytes, vec![4, 3, 2, 1]);
    let mut bytes = Vec::new();
    write_optional_u32(&mut bytes, None);
    write_optional_u32(&mut bytes, Some(5));
    assert_eq!(bytes, vec![0, 1, 5, 0, 0, 0]);
    let mut bytes = Vec::new();
    write_optional_string(&mut bytes, Some("ab")).unwrap();
    write_optional_string(&mut bytes, None).unwrap();
    assert_eq!(bytes, vec![1, 2, 0, 0, 0, b'a', b'b', 0]);
}

#[test]
fn an_unsupported_version_is_named_in_the_error() {
    let error = decode_frame_payload(vec![0x55, 0x53, 0x49, 0x50, 9]).unwrap_err();
    assert_eq!(error.code, UCode::INVALID_ARGUMENT);
    assert_eq!(error.message, "unsupported SOME/IP native frame payload version: 9");
}
