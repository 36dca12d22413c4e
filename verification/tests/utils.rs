use up_transport_vsomeip::ids::{
    create_request_id, create_ue_id_from_instance_service, split_u32_to_u16, split_u32_to_u8,
    split_ue_id_to_instance_service,
};

#[test]
fn split_ue_id_to_instance_service_defaults_zero_instance_to_one() {
    assert_eq!(split_ue_id_to_instance_service(0x0000_abcd), (1, 0xabcd));
}

#[test]
fn split_ue_id_to_instance_service_preserves_explicit_instance() {
    assert_eq!(split_ue_id_to_instance_service(0x0002_abcd), (2, 0xabcd));
}

#[test]
fn create_ue_id_from_instance_service_compacts_only_default_instance() {
    assert_eq!(create_ue_id_from_instance_service(1, 0xabcd), 0xabcd);
    assert_eq!(create_ue_id_from_instance_service(2, 0xabcd), 0x0002_abcd);
}

#[test]
fn split_u32_to_u16_gives_upper_then_lower_half() {
    assert_eq!(split_u32_to_u16(0x1234_5678), (0x1234, 0x5678));
    assert_eq!(split_u32_to_u16(0), (0, 0));
    assert_eq!(split_u32_to_u16(u32::MAX), (0xFFFF, 0xFFFF));
}

#[test]
fn split_u32_to_u8_gives_most_significant_byte_first() {
    assert_eq!(split_u32_to_u8(0x1234_5678), (0x12, 0x34, 0x56, 0x78));
}

#[test]
fn create_request_id_puts_client_above_session() {
    assert_eq!(create_request_id(0x1234, 0x0001), 0x1234_0001);
    assert_eq!(create_request_id(0xFFFF, 0xFFFF), 0xFFFF_FFFF);
}

#[test]
fn request_id_splits_back_into_client_and_session() {
    let request_id = create_request_id(0x0102, 0x0304);
    assert_eq!(split_u32_to_u16(request_id), (0x0102, 0x0304));
}

#[test]
fn ue_id_split_then_create_gives_it_back_except_explicit_default_instance() {
    for ue_id in [0x0000_abcd_u32, 0x0002_abcd, 0xFFFF_0001] {
        let (instance, service) = split_ue_id_to_instance_service(ue_id);
        assert_eq!(create_ue_id_from_instance_service(instance, service), ue_id);
    }
    let (instance, service) = split_ue_id_to_instance_service(0x0001_abcd);
    assert_eq!(create_ue_id_from_instance_service(instance, service), 0x0000_abcd);
}
