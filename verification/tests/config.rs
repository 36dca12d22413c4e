use up_transport_vsomeip::status::UCode;
use up_transport_vsomeip::vsomeip_config::{applications_of_config, point_to_point_applications};

#[test]
fn applications_are_read_in_order() {
    let text = r#"{
        "unicast": "172.17.0.2",
        "applications": [
            { "name": "client_app", "id": "0x1343" },
            { "name": "service_app", "id": "0x1344" }
        ],
        "routing": "service_app"
    }"#;
    assert_eq!(
        applications_of_config(text).unwrap(),
        vec![(0x1343, "client_app".to_string()), (0x1344, "service_app".to_string())]
    );
}

#[test]
fn a_configuration_without_applications_declares_none() {
    assert!(applications_of_config(r#"{ "unicast": "1.2.3.4" }"#).unwrap().is_empty());
    assert!(applications_of_config("").unwrap().is_empty());
}

#[test]
fn objects_without_name_or_id_are_passed_over() {
    let text = r#""applications": [ { "name": "a", "id": "0x10" }, { "name": "b" }, { "id": "0x12" }, { "id": "1A", "name": "c" } ]"#;
    assert_eq!(
        applications_of_config(text).unwrap(),
        vec![(0x10, "a".to_string()), (0x1A, "c".to_string())]
    );
}

#[test]
fn ids_must_be_sixteen_bit_hexadecimal_numbers() {
    for id in ["0x10000", "zz", "", "0x", "0X12"] {
        let text = format!(r#""applications": [ {{ "name": "a", "id": "{id}" }} ]"#);
        assert_eq!(applications_of_config(&text).unwrap_err().code, UCode::INVALID_ARGUMENT, "{id}");
    }
    let text = r#""applications": [ { "name": "a", "id": "0x00FFFF" } ]"#;
    assert_eq!(applications_of_config(text).unwrap(), vec![(0xFFFF, "a".to_string())]);
}

#[test]
fn without_a_configuration_the_point_to_point_listener_has_no_applications() {
    assert!(point_to_point_applications(None).unwrap().is_empty());
    assert_eq!(
        point_to_point_applications(Some(r#""applications": [ { "name": "a", "id": "0x10" } ]"#)).unwrap(),
        vec![(0x10, "a".to_string())]
    );
}
