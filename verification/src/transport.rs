//! The decisions of the transport around its SOME/IP applications: the payload encoding that a
//! message may declare, the message handler that a registration gets, what releasing one means for
//! its application, and the extra registration that lets responses reach a point-to-point
//! listener.
use vstd::prelude::*;
use crate::ids::ClientId;
use crate::status::{UCode, UStatus};
use crate::uri::{UUri, clone_uri};
use crate::determinations::RegistrationType;
use crate::listener_config::{ListenerConfig, ListenerKey, config_view};
use crate::listener_clients::ids_of_client;
use crate::extern_fn_registry::ExternFnRegistry;
use crate::application_registry::ApplicationRegistry;
use crate::status::{decimal, decimal_text};
use crate::message_handler_registry::{MessageHandlerRegistry, GetMessageHandlerError, ClientUsage, HandlerTables,
    tables_wf, get_message_handler_post, release_message_handler_post};

verus! {

/// How a payload is encoded: an entry of the uProtocol payload format registry, or a private one.
#[derive(Clone, Copy, Debug, PartialEq, Eq, Structural)]
pub struct PayloadEncoding {
    pub registry_entry: u32,
}

impl PayloadEncoding {
    /// The encoding with the given registry entry.
    pub fn from_registry_entry(registry_entry: u32) -> (r: PayloadEncoding)
        ensures
            r.registry_entry == registry_entry,
    {
        PayloadEncoding { registry_entry }
    }

    /// Protobuf wrapped in `Any`.
    pub fn protobuf_wrapped_in_any() -> (r: PayloadEncoding)
        ensures
            r.registry_entry == 1,
    {
        PayloadEncoding { registry_entry: 1 }
    }

    /// Protobuf.
    pub fn protobuf() -> (r: PayloadEncoding)
        ensures
            r.registry_entry == 2,
    {
        PayloadEncoding { registry_entry: 2 }
    }

    /// JSON.
    pub fn json() -> (r: PayloadEncoding)
        ensures
            r.registry_entry == 3,
    {
        PayloadEncoding { registry_entry: 3 }
    }

    /// SOME/IP.
    pub fn someip() -> (r: PayloadEncoding)
        ensures
            r.registry_entry == 4,
    {
        PayloadEncoding { registry_entry: 4 }
    }

    /// SOME/IP TLV.
    pub fn someip_tlv() -> (r: PayloadEncoding)
        ensures
            r.registry_entry == 5,
    {
        PayloadEncoding { registry_entry: 5 }
    }

    /// Raw bytes.
    pub fn raw() -> (r: PayloadEncoding)
        ensures
            r.registry_entry == 6,
    {
        PayloadEncoding { registry_entry: 6 }
    }

    /// Text.
    pub fn text() -> (r: PayloadEncoding)
        ensures
            r.registry_entry == 7,
    {
        PayloadEncoding { registry_entry: 7 }
    }

    /// Shared memory.
    pub fn shm() -> (r: PayloadEncoding)
        ensures
            r.registry_entry == 8,
    {
        PayloadEncoding { registry_entry: 8 }
    }
}

/// The message that reports a declared payload encoding other than the assumed one.
pub open spec fn encoding_mismatch_message() -> Seq<char> {
    "payload encoding does not match configured SOME/IP assumed payload encoding"@
}

/// The message that reports a payload without a declared encoding.
pub open spec fn undeclared_encoding_message() -> Seq<char> {
    "payload-bearing SOME/IP message does not declare a payload encoding"@
}

/// The message that reports an encoding declared without a payload.
pub open spec fn encoding_without_payload_message() -> Seq<char> {
    "payloadless SOME/IP message declares a payload encoding"@
}

/// Checks the payload encoding that a message declares against the one assumed for the transport:
/// a message without payload must declare none, and a message with payload must declare the
/// assumed one. Anything else fails with invalid-argument, with a message that says which rule
/// was broken. The message names no encoding: an encoding here is a registry number, and how the
/// uProtocol library prints one is not part of this crate.
pub fn validate_payload_encoding_matches_assumption(
    payload: &Option<Vec<u8>>,
    payload_encoding: Option<PayloadEncoding>,
    assumed_payload_encoding: PayloadEncoding,
) -> (r: Result<(), UStatus>)
    ensures
        match (payload, payload_encoding) {
            (None, None) => r is Ok,
            (Some(_), Some(actual)) => if actual == assumed_payload_encoding {
                r is Ok
            } else {
                r matches Err(e) && e.code == UCode::INVALID_ARGUMENT && e.message@ == encoding_mismatch_message()
            },
            (Some(_), None) => r matches Err(e) && e.code == UCode::INVALID_ARGUMENT
                && e.message@ == undeclared_encoding_message(),
            (None, Some(_)) => r matches Err(e) && e.code == UCode::INVALID_ARGUMENT
                && e.message@ == encoding_without_payload_message(),
        },
{
    proof {
        reveal_strlit("payload encoding does not match configured SOME/IP assumed payload encoding");
        reveal_strlit("payload-bearing SOME/IP message does not declare a payload encoding");
        reveal_strlit("payloadless SOME/IP message declares a payload encoding");
    }
    match (payload.is_some(), payload_encoding) {
        (false, None) => Ok(()),
        (true, Some(actual)) => {
            if actual == assumed_payload_encoding {
                Ok(())
            } else {
                Err(UStatus::fail_with_code(
                    UCode::INVALID_ARGUMENT,
                    "payload encoding does not match configured SOME/IP assumed payload encoding",
                ))
            }
        },
        (true, None) => Err(UStatus::fail_with_code(
            UCode::INVALID_ARGUMENT,
            "payload-bearing SOME/IP message does not declare a payload encoding",
        )),
        (false, Some(_)) => Err(UStatus::fail_with_code(
            UCode::INVALID_ARGUMENT,
            "payloadless SOME/IP message declares a payload encoding",
        )),
    }
}

/// What sending a request means for a point-to-point listener.
#[derive(Clone, Debug, PartialEq, Eq)]
pub enum ReturningResponse {
    /// There is no point-to-point listener.
    NoPointToPointListener,
    /// There is one, and nothing more is to be registered for it.
    NothingToRegister,
    /// The response to the request must be registered for it, with these filters, under this
    /// registration and message handler id.
    Register {
        source_filter: UUri,
        sink_filter: UUri,
        registration_type: RegistrationType,
        message_handler_id: usize,
    },
}

/// Registers, for a point-to-point listener, the response to a request that is sent: the
/// response comes from the request's sink back to its source, and is served by the request's
/// client id. Without a point-to-point listener nothing happens; for anything but a request there
/// is nothing to register; a request without a sink fails with invalid-argument. A registration
/// that exists already needs nothing more; any other refusal of the registry fails with internal.
pub fn register_for_returning_response_if_point_to_point_listener_and_sending_request<T>(
    registry: &mut MessageHandlerRegistry,
    pool: &mut ExternFnRegistry<T>,
    point_to_point_listener: Option<ListenerKey>,
    msg_src: &UUri,
    msg_sink: &Option<UUri>,
    message_type: RegistrationType,
    transport_storage: T,
) -> (r: Result<ReturningResponse, UStatus>)
    requires
        old(registry).wf(),
        tables_wf(old(registry).tables(&*old(pool))),
    ensures
        final(registry).wf(),
        tables_wf(final(registry).tables(&*final(pool))),
        match (point_to_point_listener, message_type, msg_sink) {
            (None, _, _) => r == Ok::<ReturningResponse, UStatus>(ReturningResponse::NoPointToPointListener)
                && final(registry).tables(&*final(pool)) == old(registry).tables(&*old(pool)),
            (Some(listener), RegistrationType::Request(client_id), Some(sink)) => {
                let config = config_view((*sink, Some(*msg_src), listener));
                exists|granted: Result<usize, GetMessageHandlerError>| {
                    &&& get_message_handler_post(
                        old(registry).tables(&*old(pool)),
                        client_id,
                        transport_storage,
                        config,
                        granted,
                        final(registry).tables(&*final(pool)),
                    )
                    &&& match granted {
                        Ok(id) => r == Ok::<ReturningResponse, UStatus>(ReturningResponse::Register {
                            source_filter: *sink,
                            sink_filter: *msg_src,
                            registration_type: RegistrationType::Response(client_id),
                            message_handler_id: id,
                        }),
                        Err(GetMessageHandlerError::ListenerConfigAlreadyExists(_)) =>
                            r == Ok::<ReturningResponse, UStatus>(ReturningResponse::NothingToRegister),
                        Err(_) => r matches Err(e) && e.code == UCode::INTERNAL,
                    }
                }
            },
            (Some(_), RegistrationType::Request(_), None) => r matches Err(e) && e.code == UCode::INVALID_ARGUMENT
                && final(registry).tables(&*final(pool)) == old(registry).tables(&*old(pool)),
            (Some(_), _, _) => r == Ok::<ReturningResponse, UStatus>(ReturningResponse::NothingToRegister)
                && final(registry).tables(&*final(pool)) == old(registry).tables(&*old(pool)),
        },
{
    let listener = match point_to_point_listener {
        Some(l) => l,
        None => {
            return Ok(ReturningResponse::NoPointToPointListener);
        },
    };
    let client_id = match message_type {
        RegistrationType::Request(c) => c,
        _ => {
            return Ok(ReturningResponse::NothingToRegister);
        },
    };
    let sink = match msg_sink {
        Some(s) => s,
        None => {
            return Err(UStatus::fail_with_code(UCode::INVALID_ARGUMENT, "Missing sink for message"));
        },
    };
    let source_filter = clone_uri(sink);
    let sink_filter = clone_uri(msg_src);
    let listener_config: ListenerConfig = (clone_uri(sink), Some(clone_uri(msg_src)), listener);
    let granted = registry.get_message_handler(pool, client_id, transport_storage, listener_config);
    match granted {
        Ok(message_handler_id) => Ok(ReturningResponse::Register {
            source_filter,
            sink_filter,
            registration_type: RegistrationType::Response(client_id),
            message_handler_id,
        }),
        Err(GetMessageHandlerError::ListenerConfigAlreadyExists(_)) => Ok(ReturningResponse::NothingToRegister),
        Err(GetMessageHandlerError::ListenerIdAlreadyExists(_)) => Err(
            UStatus::fail_with_code(UCode::INTERNAL, "listener_id already exists"),
        ),
        Err(GetMessageHandlerError::OtherError(_)) => Err(
            UStatus::fail_with_code(UCode::INTERNAL, "Unable to get message handler"),
        ),
    }
}

/// Grants the message handler for a listener's registration, served by a client id; any refusal
/// of the registry fails with internal.
pub fn get_listener_message_handler<T>(
    registry: &mut MessageHandlerRegistry,
    pool: &mut ExternFnRegistry<T>,
    client_id: ClientId,
    transport_storage: T,
    listener_config: ListenerConfig,
) -> (r: Result<usize, UStatus>)
    requires
        old(registry).wf(),
        tables_wf(old(registry).tables(&*old(pool))),
    ensures
        final(registry).wf(),
        tables_wf(final(registry).tables(&*final(pool))),
        exists|granted: Result<usize, GetMessageHandlerError>| {
            &&& get_message_handler_post(
                old(registry).tables(&*old(pool)),
                client_id,
                transport_storage,
                config_view(listener_config),
                granted,
                final(registry).tables(&*final(pool)),
            )
            &&& match granted {
                Ok(id) => r == Ok::<usize, UStatus>(id),
                Err(_) => r matches Err(e) && e.code == UCode::INTERNAL,
            }
        },
{
    match registry.get_message_handler(pool, client_id, transport_storage, listener_config) {
        Ok(id) => Ok(id),
        Err(_) => Err(UStatus::fail_with_code(UCode::INTERNAL, "Unable to get message handler for register_listener")),
    }
}

/// Releases the message handler of a listener's registration and names the client id whose
/// application is to be shut down: the one that served it, when it serves no other handler. An
/// unknown registration releases nothing and shuts nothing down.
pub fn release_listener_message_handler<T>(
    registry: &mut MessageHandlerRegistry,
    pool: &mut ExternFnRegistry<T>,
    listener_config: ListenerConfig,
) -> (r: Option<ClientId>)
    requires
        old(registry).wf(),
        tables_wf(old(registry).tables(&*old(pool))),
    ensures
        final(registry).wf(),
        tables_wf(final(registry).tables(&*final(pool))),
        exists|released: Result<ClientUsage, UStatus>| {
            &&& release_message_handler_post(
                old(registry).tables(&*old(pool)),
                config_view(listener_config),
                released,
                final(registry).tables(&*final(pool)),
            )
            &&& r == match released {
                Ok(ClientUsage::ClientIdNotInUse(c)) => Some(c),
                _ => None::<ClientId>,
            }
        },
{
    match registry.release_message_handler(pool, listener_config) {
        Ok(ClientUsage::ClientIdNotInUse(client_id)) => Some(client_id),
        Ok(ClientUsage::ClientIdInUse) => None,
        Err(_) => None,
    }
}

/// Claims the single point-to-point listener slot; fails with already-exists, and changes
/// nothing, when a listener holds it.
pub fn claim_point_to_point_listener(slot: &mut Option<ListenerKey>, listener: ListenerKey) -> (r: Result<(), UStatus>)
    ensures
        match *old(slot) {
            None => r is Ok && *final(slot) == Some(listener),
            Some(_) => r matches Err(e) && e.code == UCode::ALREADY_EXISTS && *final(slot) == *old(slot),
        },
{
    if slot.is_some() {
        return Err(UStatus::fail_with_code(UCode::ALREADY_EXISTS, "We already have a point-to-point UListener registered"));
    }
    *slot = Some(listener);
    Ok(())
}

/// Granting a listener's handler and then releasing the same registration gives back the tables
/// as they were, and the client id is to be shut down exactly when it served no handler before.
pub proof fn lemma_listener_release_undoes_registration<T>(
    pre: HandlerTables<T>,
    mid: HandlerTables<T>,
    post: HandlerTables<T>,
    client_id: ClientId,
    transport: T,
    listener_config: ListenerConfig,
    id: usize,
    released: Result<ClientUsage, UStatus>,
)
    requires
        tables_wf(pre),
        get_message_handler_post(pre, client_id, transport, config_view(listener_config), Ok(id), mid),
        release_message_handler_post(mid, config_view(listener_config), released, post),
    ensures
        post == pre,
        (match released {
            Ok(ClientUsage::ClientIdNotInUse(c)) => Some(c),
            _ => None::<ClientId>,
        }) == (if ids_of_client(pre.clients, client_id).is_empty() { Some(client_id) } else { None }),
{
    crate::message_handler_registry::lemma_release_undoes_get(
        pre, mid, post, client_id, transport, config_view(listener_config), id, released);
}

/// The SOME/IP application that serves a client id when a listener is registered or a message
/// is sent.
#[derive(Clone, Debug, PartialEq, Eq)]
pub enum ApplicationChoice {
    /// The application that runs for the client id, by its name.
    Running(String),
    /// None runs yet: one is to be started for the client id under this name.
    Start(ClientId, String),
}

/// Chooses the application for a client id: the one registered for it, or else a new one named
/// by the client id in decimal.
pub fn application_for_client(registry: &ApplicationRegistry, client_id: ClientId) -> (r: ApplicationChoice)
    ensures
        match r {
            ApplicationChoice::Running(name) => registry.view().contains_key(client_id)
                && name@ == registry.view()[client_id],
            ApplicationChoice::Start(c, name) => !registry.view().contains_key(client_id) && c == client_id
                && name@ == decimal(client_id as nat),
        },
{
    match registry.get_app_name_for_client_id(client_id) {
        Some(name) => ApplicationChoice::Running(name),
        None => ApplicationChoice::Start(client_id, decimal_text(client_id as u64)),
    }
}

/// The application that a listener of a client id is unregistered from; fails with not-found
/// when no application runs for the client id.
pub fn application_for_unregistration(registry: &ApplicationRegistry, client_id: ClientId) -> (r: Result<String, UStatus>)
    ensures
        match r {
            Ok(name) => registry.view().contains_key(client_id) && name@ == registry.view()[client_id],
            Err(e) => !registry.view().contains_key(client_id) && e.code == UCode::NOT_FOUND,
        },
{
    match registry.get_app_name_for_client_id(client_id) {
        Some(name) => Ok(name),
        None => Err(UStatus::fail_with_code_and_number(UCode::NOT_FOUND, "No application found for client_id: ", client_id as u64, "")),
    }
}

/// The payload and payload encoding that a message received from SOME/IP carries: SOME/IP has no
/// payload-presence bit and no encoding identifier, so zero bytes mean no payload and no
/// encoding, and any other bytes are the payload in the encoding assumed for the transport.
pub fn incoming_payload(payload: Vec<u8>, assumed_payload_encoding: PayloadEncoding)
    -> (r: (Option<Vec<u8>>, Option<PayloadEncoding>))
    ensures
        payload@.len() == 0 ==> r.0 is None && r.1 is None,
        payload@.len() > 0 ==> (r.0 matches Some(p) && p@ == payload@) && r.1 == Some(assumed_payload_encoding),
{
    if payload.len() == 0 {
        (None, None)
    } else {
        (Some(payload), Some(assumed_payload_encoding))
    }
}

} // verus!
