use up_transport_vsomeip::application_registry::ApplicationRegistry;
use up_transport_vsomeip::client_listener_registry::{
    check_point_to_point_listener, point_to_point_config, ClientListenerTables, ConfigIdMap,
};
use up_transport_vsomeip::determinations::RegistrationType;
use up_transport_vsomeip::extern_fn_registry::{ExternFnRegistry, EXTERN_FN_COUNT};
use up_transport_vsomeip::listener_config::{config_key, ListenerConfig};
use up_transport_vsomeip::listener_registry::ListenerRegistry;
use up_transport_vsomeip::message_handler_registry::{
    ClientUsage, GetMessageHandlerError, MessageHandlerRegistry,
};
use up_transport_vsomeip::status::UCode;
use up_transport_vsomeip::storage::UPTransportVsomeipStorage;
use up_transport_vsomeip::subscription_handler_registry::InMemorySubscriptionHandlerRegistry;
use up_transport_vsomeip::uri::{any_uuri, UUri};
use up_transport_vsomeip::vsomeip_offered_requested::{
    VsomeipOfferedRequested, VsomeipOfferedRequested2,
};

fn uri(authority: &str, ue_id: u32, version: u32, resource: u32) -> UUri {
    UUri {
        authority_name: authority.to_string(),
        ue_id,
        ue_version_major: version,
        resource_id: resource,
    }
}

fn config(listener: u64) -> ListenerConfig {
    (
        uri("vehicle", 0x1234, 1, 0x8001),
        Some(uri("service", 0x5678, 1, 0x0010)),
        listener,
    )
}

#[test]
fn application_registry_keeps_client_ids_and_names_one_to_one() {
    let mut apps = ApplicationRegistry::new();
    assert_eq!(apps.get_app_name_for_client_id(1), None);
    apps.insert_client_and_app_name(1, "one".to_string()).unwrap();
    assert_eq!(apps.get_app_name_for_client_id(1), Some("one".to_string()));
    let same_client = apps.insert_client_and_app_name(1, "other".to_string()).unwrap_err();
    assert_eq!(same_client.code, UCode::ALREADY_EXISTS);
    let same_name = apps.insert_client_and_app_name(2, "one".to_string()).unwrap_err();
    assert_eq!(same_name.code, UCode::ALREADY_EXISTS);
    assert_eq!(apps.get_app_name_for_client_id(2), None);
    assert_eq!(apps.remove_app_name_for_client_id(1), Some("one".to_string()));
    assert_eq!(apps.remove_app_name_for_client_id(1), None);
    apps.insert_client_and_app_name(2, "one".to_string()).unwrap();
}

#[test]
fn extern_fn_registry_hands_out_each_id_once_and_takes_it_back() {
    let mut pool: ExternFnRegistry<u8> = ExternFnRegistry::new();
    let id = pool.find_available_listener_id().unwrap();
    assert!(id < EXTERN_FN_COUNT);
    pool.insert_listener_id_transport(id, 7).unwrap();
    assert_eq!(pool.get_listener_id_transport(id), Some(&7));
    assert_eq!(
        pool.insert_listener_id_transport(id, 8).unwrap_err().code,
        UCode::ALREADY_EXISTS
    );
    pool.remove_listener_id_transport(id).unwrap();
    assert_eq!(
        pool.remove_listener_id_transport(id).unwrap_err().code,
        UCode::NOT_FOUND
    );
    assert_eq!(pool.get_listener_id_transport(id), None);
    pool.free_listener_id(id).unwrap();
}

#[test]
fn extern_fn_registry_runs_out_of_ids() {
    let mut pool: ExternFnRegistry<u8> = ExternFnRegistry::new();
    let mut seen = std::collections::HashSet::new();
    for _ in 0..EXTERN_FN_COUNT {
        assert!(seen.insert(pool.find_available_listener_id().unwrap()));
    }
    assert_eq!(
        pool.find_available_listener_id().unwrap_err().code,
        UCode::RESOURCE_EXHAUSTED
    );
    pool.free_listener_id(42).unwrap();
    assert_eq!(pool.find_available_listener_id().unwrap(), 42);
}

#[test]
fn releasing_a_granted_handler_restores_the_tables() {
    let mut pool: ExternFnRegistry<u8> = ExternFnRegistry::new();
    let mut registry = MessageHandlerRegistry::new();
    let id = registry.get_message_handler(&mut pool, 5, 1, config(1)).unwrap();
    assert_eq!(pool.get_listener_id_transport(id), Some(&1));
    assert_eq!(registry.get_listener_for_message_handler_id(id), Some(1));
    assert_eq!(registry.get_message_handler_ids(), vec![id]);
    assert_eq!(registry.get_all_listener_configs(), vec![config(1)]);
    assert_eq!(
        registry.get_listener_config_for_message_handler_id(id),
        Some(config(1))
    );

    let usage = registry.release_message_handler(&mut pool, config(1)).unwrap();
    assert!(matches!(usage, ClientUsage::ClientIdNotInUse(5)));
    assert_eq!(pool.get_listener_id_transport(id), None);
    assert_eq!(registry.get_message_handler_ids(), Vec::<usize>::new());
    assert_eq!(registry.get_listener_for_message_handler_id(id), None);
}

#[test]
fn a_client_stays_in_use_while_it_serves_another_handler() {
    let mut pool: ExternFnRegistry<u8> = ExternFnRegistry::new();
    let mut registry = MessageHandlerRegistry::new();
    registry.get_message_handler(&mut pool, 5, 1, config(1)).unwrap();
    registry.get_message_handler(&mut pool, 5, 1, config(2)).unwrap();
    let usage = registry.release_message_handler(&mut pool, config(1)).unwrap();
    assert!(matches!(usage, ClientUsage::ClientIdInUse));
    let usage = registry.release_message_handler(&mut pool, config(2)).unwrap();
    assert!(matches!(usage, ClientUsage::ClientIdNotInUse(5)));
}

#[test]
fn a_second_grant_for_the_same_registration_is_refused() {
    let mut pool: ExternFnRegistry<u8> = ExternFnRegistry::new();
    let mut registry = MessageHandlerRegistry::new();
    let first = registry.get_message_handler(&mut pool, 5, 1, config(1)).unwrap();
    let second = registry.get_message_handler(&mut pool, 6, 2, config(1));
    assert!(matches!(
        second,
        Err(GetMessageHandlerError::ListenerConfigAlreadyExists(_))
    ));
    assert_eq!(registry.get_message_handler_ids(), vec![first]);
    assert_eq!(pool.get_listener_id_transport(first), Some(&1));
}

#[test]
fn releasing_an_unknown_registration_fails_with_not_found() {
    let mut pool: ExternFnRegistry<u8> = ExternFnRegistry::new();
    let mut registry = MessageHandlerRegistry::new();
    let error = registry
        .release_message_handler(&mut pool, config(9))
        .unwrap_err();
    assert_eq!(error.code, UCode::NOT_FOUND);
}

#[test]
fn granting_without_free_ids_fails_with_resource_exhausted() {
    let mut pool: ExternFnRegistry<u8> = ExternFnRegistry::new();
    for _ in 0..EXTERN_FN_COUNT {
        pool.find_available_listener_id().unwrap();
    }
    let mut registry = MessageHandlerRegistry::new();
    match registry.get_message_handler(&mut pool, 5, 1, config(1)) {
        Err(GetMessageHandlerError::OtherError(status)) => {
            assert_eq!(status.code, UCode::RESOURCE_EXHAUSTED)
        }
        _ => panic!("expected resource exhaustion"),
    }
    assert!(registry.get_all_listener_configs().is_empty());
}

#[test]
fn listener_registry_records_and_finds_listeners() {
    let mut registry = ListenerRegistry::new();
    registry
        .insert_listener_id_and_listener_config(3, config(1))
        .unwrap();
    assert_eq!(
        registry
            .insert_listener_id_and_listener_config(3, config(2))
            .unwrap_err()
            .code,
        UCode::ALREADY_EXISTS
    );
    assert_eq!(
        registry
            .insert_listener_id_and_listener_config(4, config(1))
            .unwrap_err()
            .code,
        UCode::ALREADY_EXISTS
    );
    assert_eq!(registry.get_listener_id_for_listener_config(config(1)), Some(3));
    assert_eq!(registry.get_listener_id_for_listener_config(config(2)), None);
    assert_eq!(registry.get_listener_for_listener_id(3), Some(1));
    assert_eq!(registry.get_listener_ids(), vec![3]);

    assert_eq!(registry.insert_listener_id_client_id(3, 7), None);
    assert_eq!(registry.insert_listener_id_client_id(3, 8), Some((3, 7)));
    assert_eq!(registry.listener_count_for_client_id(7), 1);
    assert_eq!(registry.listener_count_for_client_id(8), 0);

    registry
        .insert_client_and_app_name(7, "app7".to_string())
        .unwrap();
    assert_eq!(registry.get_app_name_for_listener_id(3), Some("app7".to_string()));
    assert_eq!(registry.get_app_name_for_listener_id(4), None);
    assert_eq!(registry.get_app_name_for_client_id(7), Some("app7".to_string()));

    assert_eq!(registry.remove_client_id_based_on_listener_id(3), Some(7));
    assert_eq!(registry.remove_client_id_based_on_listener_id(3), None);
    assert_eq!(registry.listener_count_for_client_id(7), 0);
    registry
        .remove_listener_id_and_listener_config_based_on_listener_id(3)
        .unwrap();
    assert_eq!(
        registry
            .remove_listener_id_and_listener_config_based_on_listener_id(3)
            .unwrap_err()
            .code,
        UCode::NOT_FOUND
    );
    assert_eq!(registry.remove_app_name_for_client_id(7), Some("app7".to_string()));
}

#[test]
fn offered_and_requested_services_are_recorded_once() {
    let mut registry = VsomeipOfferedRequested::new();
    assert!(!registry.is_service_offered(1, 2, 3));
    assert!(registry.insert_service_offered(1, 2, 3));
    assert!(!registry.insert_service_offered(1, 2, 3));
    assert!(registry.is_service_offered(1, 2, 3));
    assert!(!registry.is_service_requested(1, 2, 3));
    assert!(registry.insert_service_requested(1, 2, 3));
    assert!(registry.insert_event_offered(1, 2, 4));
    assert!(registry.is_event_offered(1, 2, 4));
    assert!(!registry.is_event_offered(1, 2, 3));
    assert!(registry.insert_event_requested(0xFFFF, 0xFFFF, 0xFFFF));
    assert!(registry.is_event_requested(0xFFFF, 0xFFFF, 0xFFFF));
    assert!(!registry.is_event_requested(0xFFFF, 0xFFFF, 0xFFFE));

    let mut other = VsomeipOfferedRequested2::new();
    assert!(other.insert_event_offered(1, 2, 4));
    assert!(!other.insert_event_offered(1, 2, 4));
    assert!(!other.is_service_offered(1, 2, 4));
}

#[test]
fn subscription_handlers_are_allocated_and_freed() {
    let mut registry = InMemorySubscriptionHandlerRegistry::new();
    let mut ids = Vec::new();
    for _ in 0..1000 {
        ids.push(registry.allocate_subscription_handler().unwrap());
    }
    assert_eq!(
        registry.allocate_subscription_handler().unwrap_err().code,
        UCode::RESOURCE_EXHAUSTED
    );
    registry.free_subscription_handler(ids[0]);
    assert_eq!(registry.allocate_subscription_handler().unwrap(), ids[0]);
}

#[test]
fn config_id_map_replaces_and_removes() {
    let mut map = ConfigIdMap::new();
    assert_eq!(map.insert(config_key(&config(1)), 4), None);
    assert_eq!(map.insert(config_key(&config(2)), 5), None);
    assert_eq!(map.insert(config_key(&config(1)), 6), Some(4));
    assert_eq!(map.get(&config_key(&config(1))), Some(6));
    assert_eq!(map.remove(&config_key(&config(1))), Some(6));
    assert_eq!(map.get(&config_key(&config(1))), None);
    assert_eq!(map.get(&config_key(&config(2))), Some(5));
}

#[test]
fn client_tables_register_and_unregister_listeners() {
    let mut tables = ClientListenerTables::new();
    let registration = tables
        .register_listener_tables(RegistrationType::Request(0x5678), &config(1))
        .unwrap();
    assert_eq!(registration.client_id, 0x5678);
    assert!(registration.needs_application);
    assert_eq!(
        tables.find_app_name(0x5678).unwrap_err().code,
        UCode::NOT_FOUND
    );
    tables.record_application(0x5678, "22136".to_string()).unwrap();
    assert_eq!(tables.find_app_name(0x5678).unwrap(), "22136");
    let freed = tables
        .unregister_listener_tables(&config(1), 0x5678)
        .unwrap();
    assert_eq!(freed, registration.listener_id);
    assert_eq!(
        tables
            .unregister_listener_tables(&config(1), 0x5678)
            .unwrap_err()
            .code,
        UCode::INTERNAL
    );
}

#[test]
fn client_tables_record_authorities_once() {
    let mut tables = ClientListenerTables::new();
    let local = "local".to_string();
    let remote = "remote".to_string();
    assert!(tables.insert_into_listener_id_map(&local, &remote, &config(1), 3));
    assert!(!tables.insert_into_listener_id_map(&local, &remote, &config(1), 3));
    assert!(!tables.insert_into_listener_id_map(&local, &remote, &config(2), 3));
    let status = tables.free_listener_id(3);
    assert_eq!(status.code, UCode::ALREADY_EXISTS);
}

#[test]
fn client_tables_register_the_returning_response_of_a_request() {
    let mut tables = ClientListenerTables::new();
    let source = uri("vehicle", 0x1234, 1, 0);
    let sink = Some(uri("service", 0x5678, 1, 0x10));
    let none = tables
        .register_returning_response(None, RegistrationType::Request(0x5678), &source, &sink)
        .unwrap();
    assert!(none.is_none());
    let none = tables
        .register_returning_response(Some(9), RegistrationType::Publish(1), &source, &sink)
        .unwrap();
    assert!(none.is_none());
    let (response_source, response_sink, _id) = tables
        .register_returning_response(Some(9), RegistrationType::Request(0x5678), &source, &sink)
        .unwrap()
        .unwrap();
    assert_eq!(Some(response_source), sink);
    assert_eq!(response_sink, source);
    let error = tables
        .register_returning_response(Some(9), RegistrationType::Request(0x5678), &source, &None)
        .unwrap_err();
    assert_eq!(error.code, UCode::INVALID_ARGUMENT);
}

#[test]
fn point_to_point_listener_checks() {
    assert_eq!(
        check_point_to_point_listener(&None, 1).unwrap_err().code,
        UCode::ALREADY_EXISTS
    );
    assert_eq!(
        check_point_to_point_listener(&Some(2), 1).unwrap_err().code,
        UCode::INVALID_ARGUMENT
    );
    check_point_to_point_listener(&Some(1), 1).unwrap();
    let (source, sink, listener) = point_to_point_config(&"local".to_string(), 0x42, 1);
    assert_eq!(source, any_uuri());
    assert_eq!(sink, Some(uri("local", 0x42, 0xFF, 0xFFFF)));
    assert_eq!(listener, 1);
}

#[test]
fn storage_records_started_and_released_applications() {
    let mut storage = UPTransportVsomeipStorage::new("local".to_string(), "remote".to_string(), 0x1234);
    assert_eq!(storage.get_local_authority(), "local");
    assert_eq!(storage.get_remote_authority(), "remote");
    assert_eq!(storage.get_ue_id(), 0x1234);
    assert_eq!(
        storage.record_started_application(1, "app".to_string()).unwrap(),
        "app"
    );
    assert_eq!(
        storage
            .record_started_application(1, "app2".to_string())
            .unwrap_err()
            .code,
        UCode::ALREADY_EXISTS
    );
    assert_eq!(
        storage.get_application_registry().get_app_name_for_client_id(1),
        Some("app".to_string())
    );
    assert_eq!(storage.release_application(1).unwrap(), "app");
    assert_eq!(storage.release_application(1).unwrap_err().code, UCode::NOT_FOUND);
    assert!(storage
        .get_message_handler_registry()
        .get_all_listener_configs()
        .is_empty());
}

#[test]
fn point_to_point_registrations_record_the_client_only_for_started_applications() {
    let mut tables = ClientListenerTables::new();
    let config = point_to_point_config(&"local".to_string(), 0x42, 3);
    let started = tables.register_point_to_point_app(&config, 0x42, true).unwrap();
    assert_eq!(tables.listener_of(started), Some(3));
    let other = point_to_point_config(&"local".to_string(), 0x43, 3);
    let not_started = tables.register_point_to_point_app(&other, 0x43, false).unwrap();
    assert_ne!(started, not_started);
    assert_eq!(tables.listener_of(not_started), Some(3));
    assert_eq!(
        tables.unregister_listener_tables(&config, 0xFFFF).unwrap(),
        started
    );
    assert_eq!(tables.listener_of(started), None);
}

#[test]
fn listener_registration_removed_again_leaves_nothing_behind() {
    let mut registry = ListenerRegistry::new();
    assert!(registry.insert_listener_id_and_listener_config(7, config(70)).is_ok());
    assert_eq!(registry.get_listener_id_for_listener_config(config(70)), Some(7));
    assert_eq!(registry.get_listener_ids(), vec![7]);
    assert!(registry.remove_listener_id_and_listener_config_based_on_listener_id(7).is_ok());
    assert_eq!(registry.get_listener_id_for_listener_config(config(70)), None);
    assert_eq!(registry.get_listener_for_listener_id(7), None);
    assert!(registry.get_listener_ids().is_empty());
    assert!(registry.insert_listener_id_and_listener_config(7, config(70)).is_ok());
}

#[test]
fn a_registered_publish_listener_can_be_unregistered() {
    let mut tables = ClientListenerTables::new();
    let registration = tables
        .register_listener_tables(RegistrationType::Publish(0x0001), &config(9))
        .unwrap();
    assert!(registration.needs_application);
    tables
        .record_application(registration.client_id, "1".to_string())
        .unwrap();
    assert_eq!(
        tables
            .record_application(registration.client_id, "1".to_string())
            .unwrap_err()
            .code,
        UCode::ALREADY_EXISTS
    );
    assert_eq!(tables.find_app_name(registration.client_id).unwrap(), "1");
    let second = tables
        .register_listener_tables(RegistrationType::Publish(0x0001), &config(10))
        .unwrap();
    assert!(!second.needs_application);
    assert_eq!(
        tables.unregister_listener_tables(&config(9), registration.client_id),
        Ok(registration.listener_id)
    );
}

#[test]
fn a_service_is_requested_exactly_when_recorded_as_requested() {
    let mut registry = VsomeipOfferedRequested::new();
    registry.insert_service_offered(1, 2, 3);
    registry.insert_event_offered(1, 2, 3);
    registry.insert_event_requested(1, 2, 3);
    assert!(!registry.is_service_requested(1, 2, 3));
    assert!(registry.insert_service_requested(1, 2, 3));
    assert!(registry.is_service_requested(1, 2, 3));
    assert!(!registry.is_service_requested(1, 2, 4));
    assert!(!registry.insert_service_requested(1, 2, 3));
}
